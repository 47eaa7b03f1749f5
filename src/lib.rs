//! Identifies the content type of a file from a few windows of its bytes, with a small
//! classifier and deterministic rules around it.
//!
//! The library holds the catalog of content types, the model configuration, the feature
//! extractor, the post-classifier of model scores, and the batching and reordering steps
//! of a concurrent pipeline. Running the model itself is left to the caller, which hands
//! the scores back as the bit patterns of their `f32` values.

pub mod config;
pub mod content;
pub mod error;
pub mod file;
pub mod input;
pub mod label;
pub mod output;
pub mod pipeline;

pub use crate::config::ModelConfig;
pub use crate::content::{ContentType, TypeInfo, CONTENT_TYPE_COUNT};
pub use crate::error::{Error, IoErrorKind, Result};
pub use crate::file::{FileType, InferredType, OverwriteReason};
pub use crate::input::{Features, FeaturesOrRuled, SyncInput, SyncInputApi};
pub use crate::label::Label;
pub use crate::output::{MagikaConfig, MagikaOutput, Output};
pub use crate::pipeline::{Batch, Batcher, OrderedResponse, Reorder};
