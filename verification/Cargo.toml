[package]
name = "normal_pipeline"
version = "0.1.0"
edition = "2021"
publish = false

[dependencies]
anyhow = "1.0"
async-trait = "0.1"
candle-core = "0.8"
hf-hub = { version = "0.4", default-features = false, features = ["ureq"] }
indicatif = "0.17"
rand_isaac = "0.3"
rayon = "1.10"
regex-automata = "0.4"
serde = { version = "1.0", features = ["derive"] }
serde_json = "1.0"
tokenizers = { version = "0.21", default-features = false, features = ["onig"] }
tokio = { version = "1", features = ["sync", "rt", "macros"] }
tracing = "0.1"
