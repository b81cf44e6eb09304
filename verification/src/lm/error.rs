//! Error type for the LiteRT-LM engine bindings.

use vstd::prelude::*;

verus! {

/// Errors returned by the safe LiteRT-LM API.
#[derive(Debug)]
#[non_exhaustive]
pub enum Error {
    /// Engine creation failed (the C API returned null).
    EngineCreationFailed,
    /// Session creation failed (the C API returned null).
    SessionCreationFailed,
    /// Generation failed, with the engine's explanation.
    GenerationFailed(String),
    /// A null pointer was returned from the LiteRT-LM C API.
    NullPointer,
    /// The path contained non-UTF-8 characters.
    InvalidPath(std::path::PathBuf),
}

/// Result alias.
pub type Result<T> = core::result::Result<T, Error>;

} // verus!
