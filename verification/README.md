# normal_pipeline

The decisions behind loading and driving a text model, verified with Verus: which devices and
nodes a model is spread over, how and when it is quantised, how a calibration text is cut up, which
tensors make up a mixture of experts, and what each forward step hands to the models.

- `src/load.rs`: a load as a state machine. `NormalLoader::load_model_from_path` begins it,
  `Load::step` takes what the last piece of work came to and answers with the next one.
- `src/loader.rs`, `src/config.rs`, `src/kinds.rs`: the loader, its builder, and what users settle.
- `src/parallel.rs`: worlds, stages and ranks over several devices and nodes.
- `src/pipeline.rs`, `src/outcome.rs`: a loaded pipeline, forward steps, and what the models answer.
- `src/amoe.rs`: mixtures of experts.
- `src/calibrate.rs`, `src/sizing.rs`, `src/text.rs`, `src/device.rs`, `src/error.rs`: the parts.
- `src/outside.rs`: what is taken on trust from `candle-core`, `regex-automata`, `tokenizers` and
  `std`.
- `tests/`: the library on concrete values.
- `app/`: the files, devices, threads and hub repositories around the library.

Each `law_...` proof function states a property that spans several functions.
