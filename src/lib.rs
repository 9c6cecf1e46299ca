//! Screen capture session pipeline: source catalog, content filter selection,
//! capture session lifecycle, frame dispatch and the encoder sink.
pub mod catalog;
pub mod config;
pub mod filters;
pub mod permissions;
pub mod session;
pub mod sink;
pub mod source_id;
pub mod text;
pub mod transcription;
pub mod types;
