//! The LiteRT-LM side: inputs, sampling parameters and errors of the
//! on-device LLM engine.

pub mod error;
pub mod input;
pub mod json;
pub mod sampler;

pub use error::{Error, Result};
pub use input::Input;
pub use sampler::{Sampler, SamplerParams};
