//! Error type for the LiteRT runtime bindings and the status-code table.

use vstd::prelude::*;
use crate::element_type::ElementType;
use crate::raw;
use crate::raw::LiteRtStatus;

verus! {

broadcast use vstd::string::group_string_axioms;

/// Declares std's `std::path::PathBuf` (the path held by `InvalidPath`) to
/// Verus as an opaque type: values are only carried, nothing is assumed of
/// their contents.
#[verifier::external_type_specification]
#[verifier::external_body]
pub struct ExPathBuf(std::path::PathBuf);

/// Declares std's `std::io::Error` (held by `Io`) to Verus as an opaque type:
/// values are only carried, nothing is assumed of their contents.
#[verifier::external_type_specification]
#[verifier::external_body]
pub struct ExIoError(std::io::Error);

/// Errors returned by the safe LiteRT API.
#[derive(Debug)]
#[non_exhaustive]
pub enum Error {
    /// The LiteRT runtime reported a non-zero status code.
    Status { code: LiteRtStatus, message: String },
    /// A C API call returned a null handle where a non-null pointer was
    /// required.
    NullPointer,
    /// Asked for a typed view of a tensor buffer whose element type differs.
    TypeMismatch { expected: ElementType, actual: ElementType },
    /// The file path contained non-UTF-8 bytes; the C API cannot accept it.
    InvalidPath(std::path::PathBuf),
    /// Tensor buffer size (in bytes) isn't a multiple of the element size.
    UnalignedBufferSize { size: usize, element_size: usize, type_label: &'static str },
    /// An `std::io` error occurred (e.g., reading a model file).
    Io(std::io::Error),
    /// A requested feature is not available in the current `libLiteRt` build.
    Unsupported(&'static str),
}

impl From<std::io::Error> for Error {
    /// An I/O failure becomes the `Io` error.
    fn from(e: std::io::Error) -> (r: Self) {
        Error::Io(e)
    }
}

impl vstd::std_specs::convert::FromSpecImpl<std::io::Error> for Error {
    open spec fn obeys_from_spec() -> bool {
        true
    }

    open spec fn from_spec(v: std::io::Error) -> Self {
        Error::Io(v)
    }
}

/// Result alias used throughout the runtime bindings.
pub type Result<T> = core::result::Result<T, Error>;

/// The label of a status code: each known code has its own label, every
/// other value gets a generic one.
pub open spec fn spec_status_message(status: LiteRtStatus) -> Seq<char> {
    if status == raw::K_LITERT_STATUS_ERROR_INVALID_ARGUMENT {
        "invalid argument"@
    } else if status == raw::K_LITERT_STATUS_ERROR_MEMORY_ALLOCATION_FAILURE {
        "memory allocation failure"@
    } else if status == raw::K_LITERT_STATUS_ERROR_RUNTIME_FAILURE {
        "runtime failure"@
    } else if status == raw::K_LITERT_STATUS_ERROR_MISSING_INPUT_TENSOR {
        "missing input tensor"@
    } else if status == raw::K_LITERT_STATUS_ERROR_UNSUPPORTED {
        "unsupported"@
    } else if status == raw::K_LITERT_STATUS_ERROR_NOT_FOUND {
        "not found"@
    } else if status == raw::K_LITERT_STATUS_ERROR_TIMEOUT_EXPIRED {
        "timeout expired"@
    } else if status == raw::K_LITERT_STATUS_ERROR_WRONG_VERSION {
        "wrong version"@
    } else if status == raw::K_LITERT_STATUS_ERROR_UNKNOWN {
        "unknown error"@
    } else if status == raw::K_LITERT_STATUS_ERROR_ALREADY_EXISTS {
        "already exists"@
    } else if status == raw::K_LITERT_STATUS_CANCELLED {
        "cancelled"@
    } else if status == raw::K_LITERT_STATUS_ERROR_FILE_IO {
        "file I/O error"@
    } else if status == raw::K_LITERT_STATUS_ERROR_INVALID_FLATBUFFER {
        "invalid flatbuffer"@
    } else if status == raw::K_LITERT_STATUS_ERROR_DYNAMIC_LOADING {
        "dynamic loading error"@
    } else if status == raw::K_LITERT_STATUS_ERROR_SERIALIZATION {
        "serialization error"@
    } else if status == raw::K_LITERT_STATUS_ERROR_COMPILATION {
        "compilation error"@
    } else if status == raw::K_LITERT_STATUS_ERROR_INDEX_OOB {
        "index out of bounds"@
    } else if status == raw::K_LITERT_STATUS_ERROR_INVALID_IR_TYPE {
        "invalid IR type"@
    } else if status == raw::K_LITERT_STATUS_ERROR_INVALID_GRAPH_INVARIANT {
        "invalid graph invariant"@
    } else if status == raw::K_LITERT_STATUS_ERROR_GRAPH_MODIFICATION {
        "graph modification error"@
    } else if status == raw::K_LITERT_STATUS_ERROR_INVALID_TOOL_CONFIG {
        "invalid tool config"@
    } else if status == raw::K_LITERT_STATUS_LEGALIZE_NO_MATCH {
        "legalization: no match"@
    } else if status == raw::K_LITERT_STATUS_ERROR_INVALID_LEGALIZATION {
        "invalid legalization"@
    } else if status == raw::K_LITERT_STATUS_PATTERN_NO_MATCH {
        "pattern: no match"@
    } else if status == raw::K_LITERT_STATUS_INVALID_TRANSFORMATION {
        "invalid transformation"@
    } else if status == raw::K_LITERT_STATUS_ERROR_UNSUPPORTED_RUNTIME_VERSION {
        "unsupported runtime version"@
    } else if status == raw::K_LITERT_STATUS_ERROR_UNSUPPORTED_COMPILER_VERSION {
        "unsupported compiler version"@
    } else if status == raw::K_LITERT_STATUS_ERROR_INCOMPATIBLE_BYTE_CODE_VERSION {
        "incompatible bytecode version"@
    } else if status == raw::K_LITERT_STATUS_ERROR_UNSUPPORTED_OP_SHAPE_INFERER {
        "unsupported op shape inferer"@
    } else if status == raw::K_LITERT_STATUS_ERROR_SHAPE_INFERENCE_FAILED {
        "shape inference failed"@
    } else {
        "unrecognized status code"@
    }
}

/// Whether `r` is the error that reports the non-zero status `status`.
pub open spec fn is_status_error<T>(r: Result<T>, status: LiteRtStatus) -> bool {
    match r {
        Err(Error::Status { code, message }) => code == status && message@
            == spec_status_message(status),
        _ => false,
    }
}

/// Converts a raw `LiteRtStatus` into `Result<()>`: `Ok` exactly for the OK
/// status, otherwise the `Status` error carrying the code and its label.
pub fn check(status: LiteRtStatus) -> (r: Result<()>)
    ensures
        status == raw::K_LITERT_STATUS_OK ==> r is Ok,
        status != raw::K_LITERT_STATUS_OK ==> is_status_error(r, status),
{
    if status == raw::K_LITERT_STATUS_OK {
        return Ok(());
    }
    Err(Error::Status { code: status, message: status_message(status).to_string() })
}

/// The label of a status code, from an in-crate table.
pub fn status_message(status: LiteRtStatus) -> (m: &'static str)
    ensures
        m@ == spec_status_message(status),
{
    if status == raw::K_LITERT_STATUS_ERROR_INVALID_ARGUMENT {
        "invalid argument"
    } else if status == raw::K_LITERT_STATUS_ERROR_MEMORY_ALLOCATION_FAILURE {
        "memory allocation failure"
    } else if status == raw::K_LITERT_STATUS_ERROR_RUNTIME_FAILURE {
        "runtime failure"
    } else if status == raw::K_LITERT_STATUS_ERROR_MISSING_INPUT_TENSOR {
        "missing input tensor"
    } else if status == raw::K_LITERT_STATUS_ERROR_UNSUPPORTED {
        "unsupported"
    } else if status == raw::K_LITERT_STATUS_ERROR_NOT_FOUND {
        "not found"
    } else if status == raw::K_LITERT_STATUS_ERROR_TIMEOUT_EXPIRED {
        "timeout expired"
    } else if status == raw::K_LITERT_STATUS_ERROR_WRONG_VERSION {
        "wrong version"
    } else if status == raw::K_LITERT_STATUS_ERROR_UNKNOWN {
        "unknown error"
    } else if status == raw::K_LITERT_STATUS_ERROR_ALREADY_EXISTS {
        "already exists"
    } else if status == raw::K_LITERT_STATUS_CANCELLED {
        "cancelled"
    } else if status == raw::K_LITERT_STATUS_ERROR_FILE_IO {
        "file I/O error"
    } else if status == raw::K_LITERT_STATUS_ERROR_INVALID_FLATBUFFER {
        "invalid flatbuffer"
    } else if status == raw::K_LITERT_STATUS_ERROR_DYNAMIC_LOADING {
        "dynamic loading error"
    } else if status == raw::K_LITERT_STATUS_ERROR_SERIALIZATION {
        "serialization error"
    } else if status == raw::K_LITERT_STATUS_ERROR_COMPILATION {
        "compilation error"
    } else if status == raw::K_LITERT_STATUS_ERROR_INDEX_OOB {
        "index out of bounds"
    } else if status == raw::K_LITERT_STATUS_ERROR_INVALID_IR_TYPE {
        "invalid IR type"
    } else if status == raw::K_LITERT_STATUS_ERROR_INVALID_GRAPH_INVARIANT {
        "invalid graph invariant"
    } else if status == raw::K_LITERT_STATUS_ERROR_GRAPH_MODIFICATION {
        "graph modification error"
    } else if status == raw::K_LITERT_STATUS_ERROR_INVALID_TOOL_CONFIG {
        "invalid tool config"
    } else if status == raw::K_LITERT_STATUS_LEGALIZE_NO_MATCH {
        "legalization: no match"
    } else if status == raw::K_LITERT_STATUS_ERROR_INVALID_LEGALIZATION {
        "invalid legalization"
    } else if status == raw::K_LITERT_STATUS_PATTERN_NO_MATCH {
        "pattern: no match"
    } else if status == raw::K_LITERT_STATUS_INVALID_TRANSFORMATION {
        "invalid transformation"
    } else if status == raw::K_LITERT_STATUS_ERROR_UNSUPPORTED_RUNTIME_VERSION {
        "unsupported runtime version"
    } else if status == raw::K_LITERT_STATUS_ERROR_UNSUPPORTED_COMPILER_VERSION {
        "unsupported compiler version"
    } else if status == raw::K_LITERT_STATUS_ERROR_INCOMPATIBLE_BYTE_CODE_VERSION {
        "incompatible bytecode version"
    } else if status == raw::K_LITERT_STATUS_ERROR_UNSUPPORTED_OP_SHAPE_INFERER {
        "unsupported op shape inferer"
    } else if status == raw::K_LITERT_STATUS_ERROR_SHAPE_INFERENCE_FAILED {
        "shape inference failed"
    } else {
        "unrecognized status code"
    }
}

/// The outcome of a C constructor that reports a status and writes a handle:
/// the status is checked first, then the handle must be non-null.
pub fn checked_handle(status: LiteRtStatus, handle: usize) -> (r: Result<usize>)
    ensures
        status != raw::K_LITERT_STATUS_OK ==> is_status_error(r, status),
        status == raw::K_LITERT_STATUS_OK && handle == 0 ==> r matches Err(Error::NullPointer),
        status == raw::K_LITERT_STATUS_OK && handle != 0 ==> r == Ok::<usize, Error>(handle),
{
    check(status)?;
    if handle == 0 {
        Err(Error::NullPointer)
    } else {
        Ok(handle)
    }
}

} // verus!
