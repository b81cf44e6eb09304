//! Verified core of the LiteRT / LiteRT-LM bindings: the value types, code
//! tables and decision logic that sit between Rust callers and the C runtime.
//!
//! - [`raw`]: numeric values of the C enumerations.
//! - [`element_type`], [`error`], [`options`]: the LiteRT runtime side.
//! - [`lm`]: the LiteRT-LM engine side (inputs, sampling, errors).
//! - [`tooling`]: decisions of the workspace automation.
//! - [`text`]: character-level string helpers.

pub mod raw;
pub mod element_type;
pub mod error;
pub mod options;
pub mod text;
pub mod lm;
pub mod tooling;

pub use element_type::{ElementType, TensorElement};
pub use error::{Error, Result};
pub use options::{Accelerators, CompilationOptions};
