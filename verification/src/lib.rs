//! Decisions behind loading and driving a text model: which devices it is spread over, how it is
//! quantised, how the calibration text is cut up, and what each forward step hands to the models.

pub mod amoe;
pub mod calibrate;
pub mod config;
pub mod device;
pub mod error;
pub mod kinds;
pub mod load;
pub mod load_laws;
pub mod loader;
pub mod outcome;
pub mod outside;
pub mod parallel;
pub mod pipeline;
pub mod sizing;
pub mod text;
