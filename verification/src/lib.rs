//! Verified core of an HTTP image transformation service.
//!
//! The library contains the pipeline execution engine: parameter schemas and
//! validators, the operation registry, the pipeline executor with its
//! per-step failure policy, the output format resolver, and the remote fetch
//! guard. Pixel work is delegated to the `image` ecosystem through a small
//! set of trusted wrappers; everything around those calls is verified.

pub mod config;
pub mod errors;
pub mod fetch_guard;
pub mod formats;
pub mod health;
pub mod image_state;
pub mod info;
pub mod operations;
pub mod params;
pub mod pipeline;
pub mod pipeline_executor;
pub mod pipeline_types;
pub mod security;
pub mod storage;
pub mod text;
pub mod utils;
pub mod watermark;
