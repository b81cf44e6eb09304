//! Numeric values of the C enumerations that the runtime exchanges with its
//! callers (status codes, tensor element types, hardware accelerators, and the
//! LiteRT-LM input and sampler kinds).

use vstd::prelude::*;

verus! {

/// Status code returned by every LiteRT C entry point.
pub type LiteRtStatus = u32;

/// Raw tensor element type tag.
pub type LiteRtElementType = u32;

/// Bitset of hardware accelerators.
pub type LiteRtHwAcceleratorSet = i32;

/// Raw LiteRT-LM input data kind.
pub type InputDataType = u32;

/// Raw LiteRT-LM sampler kind.
pub type SamplerType = u32;

pub const K_LITERT_STATUS_OK: u32 = 0;
pub const K_LITERT_STATUS_ERROR_INVALID_ARGUMENT: u32 = 1;
pub const K_LITERT_STATUS_ERROR_MEMORY_ALLOCATION_FAILURE: u32 = 2;
pub const K_LITERT_STATUS_ERROR_RUNTIME_FAILURE: u32 = 3;
pub const K_LITERT_STATUS_ERROR_MISSING_INPUT_TENSOR: u32 = 4;
pub const K_LITERT_STATUS_ERROR_UNSUPPORTED: u32 = 5;
pub const K_LITERT_STATUS_ERROR_NOT_FOUND: u32 = 6;
pub const K_LITERT_STATUS_ERROR_TIMEOUT_EXPIRED: u32 = 7;
pub const K_LITERT_STATUS_ERROR_WRONG_VERSION: u32 = 8;
pub const K_LITERT_STATUS_ERROR_UNKNOWN: u32 = 9;
pub const K_LITERT_STATUS_ERROR_ALREADY_EXISTS: u32 = 10;
pub const K_LITERT_STATUS_CANCELLED: u32 = 100;
pub const K_LITERT_STATUS_ERROR_FILE_IO: u32 = 500;
pub const K_LITERT_STATUS_ERROR_INVALID_FLATBUFFER: u32 = 501;
pub const K_LITERT_STATUS_ERROR_DYNAMIC_LOADING: u32 = 502;
pub const K_LITERT_STATUS_ERROR_SERIALIZATION: u32 = 503;
pub const K_LITERT_STATUS_ERROR_COMPILATION: u32 = 504;
pub const K_LITERT_STATUS_ERROR_INDEX_OOB: u32 = 1000;
pub const K_LITERT_STATUS_ERROR_INVALID_IR_TYPE: u32 = 1001;
pub const K_LITERT_STATUS_ERROR_INVALID_GRAPH_INVARIANT: u32 = 1002;
pub const K_LITERT_STATUS_ERROR_GRAPH_MODIFICATION: u32 = 1003;
pub const K_LITERT_STATUS_ERROR_INVALID_TOOL_CONFIG: u32 = 1500;
pub const K_LITERT_STATUS_LEGALIZE_NO_MATCH: u32 = 2000;
pub const K_LITERT_STATUS_ERROR_INVALID_LEGALIZATION: u32 = 2001;
pub const K_LITERT_STATUS_PATTERN_NO_MATCH: u32 = 3000;
pub const K_LITERT_STATUS_INVALID_TRANSFORMATION: u32 = 3001;
pub const K_LITERT_STATUS_ERROR_UNSUPPORTED_RUNTIME_VERSION: u32 = 4000;
pub const K_LITERT_STATUS_ERROR_UNSUPPORTED_COMPILER_VERSION: u32 = 4001;
pub const K_LITERT_STATUS_ERROR_INCOMPATIBLE_BYTE_CODE_VERSION: u32 = 4002;
pub const K_LITERT_STATUS_ERROR_UNSUPPORTED_OP_SHAPE_INFERER: u32 = 5000;
pub const K_LITERT_STATUS_ERROR_SHAPE_INFERENCE_FAILED: u32 = 5001;

pub const K_LITERT_ELEMENT_TYPE_NONE: u32 = 0;
pub const K_LITERT_ELEMENT_TYPE_FLOAT32: u32 = 1;
pub const K_LITERT_ELEMENT_TYPE_INT32: u32 = 2;
pub const K_LITERT_ELEMENT_TYPE_UINT8: u32 = 3;
pub const K_LITERT_ELEMENT_TYPE_INT64: u32 = 4;
pub const K_LITERT_ELEMENT_TYPE_BOOL: u32 = 6;
pub const K_LITERT_ELEMENT_TYPE_INT16: u32 = 7;
pub const K_LITERT_ELEMENT_TYPE_COMPLEX64: u32 = 8;
pub const K_LITERT_ELEMENT_TYPE_INT8: u32 = 9;
pub const K_LITERT_ELEMENT_TYPE_FLOAT16: u32 = 10;
pub const K_LITERT_ELEMENT_TYPE_FLOAT64: u32 = 11;
pub const K_LITERT_ELEMENT_TYPE_COMPLEX128: u32 = 12;
pub const K_LITERT_ELEMENT_TYPE_UINT64: u32 = 13;
pub const K_LITERT_ELEMENT_TYPE_UINT32: u32 = 16;
pub const K_LITERT_ELEMENT_TYPE_UINT16: u32 = 17;
pub const K_LITERT_ELEMENT_TYPE_INT4: u32 = 18;
pub const K_LITERT_ELEMENT_TYPE_BFLOAT16: u32 = 19;
pub const K_LITERT_ELEMENT_TYPE_INT2: u32 = 20;

pub const K_LITERT_HW_ACCELERATOR_NONE: u32 = 0;
pub const K_LITERT_HW_ACCELERATOR_CPU: u32 = 1;
pub const K_LITERT_HW_ACCELERATOR_GPU: u32 = 2;
pub const K_LITERT_HW_ACCELERATOR_NPU: u32 = 4;

pub const K_INPUT_TEXT: u32 = 0;
pub const K_INPUT_IMAGE: u32 = 1;
pub const K_INPUT_IMAGE_END: u32 = 2;
pub const K_INPUT_AUDIO: u32 = 3;
pub const K_INPUT_AUDIO_END: u32 = 4;

pub const K_TYPE_UNSPECIFIED: u32 = 0;
pub const K_TOP_K: u32 = 1;
pub const K_TOP_P: u32 = 2;
pub const K_GREEDY: u32 = 3;

} // verus!
