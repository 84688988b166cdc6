//! Planning and bookkeeping for batch video transcoding with an external
//! engine: the settings model, the choice of encoder with fallback, the
//! compilation of settings into engine arguments, the engine's progress
//! protocol, the classification of its error output, and the file queue.

pub mod config;
pub mod detector;
pub mod downloader;
pub mod error;
pub mod flags;
pub mod hwaccel;
pub mod job;
pub mod preset;
pub mod probe;
pub mod progress;
pub mod queue;
pub mod text;
