//! Verified core of a host facade over an ahead-of-time-compiled model loader.
//!
//! The native loader is reached through boundary calls that the caller
//! supplies as closures. This crate owns what surrounds those calls: the
//! loader configuration and its defaults, the exclusive ownership of the
//! loader handle, the check that the handle is present before any call is
//! made, the conversion of tensors on the way in and out, the normalisation
//! of metadata entries into a mapping, and the mapping of failures into the
//! error taxonomy.

pub mod config;
pub mod error;
pub mod metadata;
pub mod model;
pub mod tensor;

pub use crate::config::{AOTIModelBuilder, ModelConfig};
pub use crate::error::AOTIModelError;
pub use crate::metadata::{entries_to_map, Metadata, MetadataEntry};
pub use crate::model::AOTIModel;
pub use crate::tensor::{owned_to_tensors, tensors_to_ptrs};
