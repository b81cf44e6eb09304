//! Tensor element types and the `TensorElement` trait.

use vstd::prelude::*;
use crate::raw;
use crate::raw::LiteRtElementType;

verus! {

/// Scalar element type of a tensor, in one-to-one correspondence with the
/// LiteRT C enum `LiteRtElementType`.
#[derive(Debug, Clone, Copy, PartialEq, Eq, Structural, Hash)]
#[non_exhaustive]
pub enum ElementType {
    NoType,
    Bool,
    Int2,
    Int4,
    Int8,
    Int16,
    Int32,
    Int64,
    UInt8,
    UInt16,
    UInt32,
    UInt64,
    Float16,
    BFloat16,
    Float32,
    Float64,
    Complex64,
    Complex128,
}

/// The C tag of each element type.
pub open spec fn spec_element_type_raw(t: ElementType) -> LiteRtElementType {
    match t {
        ElementType::NoType => raw::K_LITERT_ELEMENT_TYPE_NONE,
        ElementType::Bool => raw::K_LITERT_ELEMENT_TYPE_BOOL,
        ElementType::Int2 => raw::K_LITERT_ELEMENT_TYPE_INT2,
        ElementType::Int4 => raw::K_LITERT_ELEMENT_TYPE_INT4,
        ElementType::Int8 => raw::K_LITERT_ELEMENT_TYPE_INT8,
        ElementType::Int16 => raw::K_LITERT_ELEMENT_TYPE_INT16,
        ElementType::Int32 => raw::K_LITERT_ELEMENT_TYPE_INT32,
        ElementType::Int64 => raw::K_LITERT_ELEMENT_TYPE_INT64,
        ElementType::UInt8 => raw::K_LITERT_ELEMENT_TYPE_UINT8,
        ElementType::UInt16 => raw::K_LITERT_ELEMENT_TYPE_UINT16,
        ElementType::UInt32 => raw::K_LITERT_ELEMENT_TYPE_UINT32,
        ElementType::UInt64 => raw::K_LITERT_ELEMENT_TYPE_UINT64,
        ElementType::Float16 => raw::K_LITERT_ELEMENT_TYPE_FLOAT16,
        ElementType::BFloat16 => raw::K_LITERT_ELEMENT_TYPE_BFLOAT16,
        ElementType::Float32 => raw::K_LITERT_ELEMENT_TYPE_FLOAT32,
        ElementType::Float64 => raw::K_LITERT_ELEMENT_TYPE_FLOAT64,
        ElementType::Complex64 => raw::K_LITERT_ELEMENT_TYPE_COMPLEX64,
        ElementType::Complex128 => raw::K_LITERT_ELEMENT_TYPE_COMPLEX128,
    }
}

/// The element type a raw C tag denotes; tags that name no element type this
/// library knows (strings, resources, variants, or anything else) denote `NoType`.
pub open spec fn spec_element_type_from_raw(raw: LiteRtElementType) -> ElementType {
    if exists|t: ElementType| spec_element_type_raw(t) == raw {
        choose|t: ElementType| spec_element_type_raw(t) == raw
    } else {
        ElementType::NoType
    }
}

impl ElementType {
    /// The C tag of this element type.
    pub fn to_raw(self) -> (raw: LiteRtElementType)
        ensures
            raw == spec_element_type_raw(self),
    {
        match self {
            ElementType::NoType => raw::K_LITERT_ELEMENT_TYPE_NONE,
            ElementType::Bool => raw::K_LITERT_ELEMENT_TYPE_BOOL,
            ElementType::Int2 => raw::K_LITERT_ELEMENT_TYPE_INT2,
            ElementType::Int4 => raw::K_LITERT_ELEMENT_TYPE_INT4,
            ElementType::Int8 => raw::K_LITERT_ELEMENT_TYPE_INT8,
            ElementType::Int16 => raw::K_LITERT_ELEMENT_TYPE_INT16,
            ElementType::Int32 => raw::K_LITERT_ELEMENT_TYPE_INT32,
            ElementType::Int64 => raw::K_LITERT_ELEMENT_TYPE_INT64,
            ElementType::UInt8 => raw::K_LITERT_ELEMENT_TYPE_UINT8,
            ElementType::UInt16 => raw::K_LITERT_ELEMENT_TYPE_UINT16,
            ElementType::UInt32 => raw::K_LITERT_ELEMENT_TYPE_UINT32,
            ElementType::UInt64 => raw::K_LITERT_ELEMENT_TYPE_UINT64,
            ElementType::Float16 => raw::K_LITERT_ELEMENT_TYPE_FLOAT16,
            ElementType::BFloat16 => raw::K_LITERT_ELEMENT_TYPE_BFLOAT16,
            ElementType::Float32 => raw::K_LITERT_ELEMENT_TYPE_FLOAT32,
            ElementType::Float64 => raw::K_LITERT_ELEMENT_TYPE_FLOAT64,
            ElementType::Complex64 => raw::K_LITERT_ELEMENT_TYPE_COMPLEX64,
            ElementType::Complex128 => raw::K_LITERT_ELEMENT_TYPE_COMPLEX128,
        }
    }

    /// Decodes a raw C tag; unknown tags decode to `NoType`.
    pub fn from_raw(raw: LiteRtElementType) -> (t: ElementType)
        ensures
            t == spec_element_type_from_raw(raw),
            spec_element_type_raw(t) == raw || t == ElementType::NoType,
    {
        let t = if raw == raw::K_LITERT_ELEMENT_TYPE_BOOL {
            ElementType::Bool
        } else if raw == raw::K_LITERT_ELEMENT_TYPE_INT2 {
            ElementType::Int2
        } else if raw == raw::K_LITERT_ELEMENT_TYPE_INT4 {
            ElementType::Int4
        } else if raw == raw::K_LITERT_ELEMENT_TYPE_INT8 {
            ElementType::Int8
        } else if raw == raw::K_LITERT_ELEMENT_TYPE_INT16 {
            ElementType::Int16
        } else if raw == raw::K_LITERT_ELEMENT_TYPE_INT32 {
            ElementType::Int32
        } else if raw == raw::K_LITERT_ELEMENT_TYPE_INT64 {
            ElementType::Int64
        } else if raw == raw::K_LITERT_ELEMENT_TYPE_UINT8 {
            ElementType::UInt8
        } else if raw == raw::K_LITERT_ELEMENT_TYPE_UINT16 {
            ElementType::UInt16
        } else if raw == raw::K_LITERT_ELEMENT_TYPE_UINT32 {
            ElementType::UInt32
        } else if raw == raw::K_LITERT_ELEMENT_TYPE_UINT64 {
            ElementType::UInt64
        } else if raw == raw::K_LITERT_ELEMENT_TYPE_FLOAT16 {
            ElementType::Float16
        } else if raw == raw::K_LITERT_ELEMENT_TYPE_BFLOAT16 {
            ElementType::BFloat16
        } else if raw == raw::K_LITERT_ELEMENT_TYPE_FLOAT32 {
            ElementType::Float32
        } else if raw == raw::K_LITERT_ELEMENT_TYPE_FLOAT64 {
            ElementType::Float64
        } else if raw == raw::K_LITERT_ELEMENT_TYPE_COMPLEX64 {
            ElementType::Complex64
        } else if raw == raw::K_LITERT_ELEMENT_TYPE_COMPLEX128 {
            ElementType::Complex128
        } else {
            ElementType::NoType
        };
        proof {
            lemma_element_type_raw_injective();
            if spec_element_type_raw(t) == raw {
                assert(spec_element_type_from_raw(raw) == t);
            } else {
                assert forall|u: ElementType| spec_element_type_raw(u) != raw by {
                    if spec_element_type_raw(u) == raw {
                        assert(u == ElementType::NoType);
                    }
                }
            }
        }
        t
    }
}

/// Distinct element types have distinct C tags.
pub proof fn lemma_element_type_raw_injective()
    ensures
        forall|a: ElementType, b: ElementType|
            spec_element_type_raw(a) == spec_element_type_raw(b) ==> a == b,
{
}

/// Decoding the C tag of any element type gives that element type back.
pub proof fn lemma_element_type_round_trip(t: ElementType)
    ensures
        spec_element_type_from_raw(spec_element_type_raw(t)) == t,
{
    lemma_element_type_raw_injective();
}

/// Rust scalars that correspond to a LiteRT `ElementType`: a tensor whose
/// element type is `Self::TYPE` can be read as a slice of `Self`.
///
/// Implemented here for `bool` and the signed and unsigned integers of 8 to
/// 64 bits.
pub trait TensorElement: Copy + Sized {
    /// The `ElementType` corresponding to `Self`.
    const TYPE: ElementType;

    /// Human-readable name, used in error messages.
    const NAME: &'static str;
}

impl TensorElement for bool {
    const TYPE: ElementType = ElementType::Bool;
    const NAME: &'static str = "bool";
}

impl TensorElement for i8 {
    const TYPE: ElementType = ElementType::Int8;
    const NAME: &'static str = "i8";
}

impl TensorElement for i16 {
    const TYPE: ElementType = ElementType::Int16;
    const NAME: &'static str = "i16";
}

impl TensorElement for i32 {
    const TYPE: ElementType = ElementType::Int32;
    const NAME: &'static str = "i32";
}

impl TensorElement for i64 {
    const TYPE: ElementType = ElementType::Int64;
    const NAME: &'static str = "i64";
}

impl TensorElement for u8 {
    const TYPE: ElementType = ElementType::UInt8;
    const NAME: &'static str = "u8";
}

impl TensorElement for u16 {
    const TYPE: ElementType = ElementType::UInt16;
    const NAME: &'static str = "u16";
}

impl TensorElement for u32 {
    const TYPE: ElementType = ElementType::UInt32;
    const NAME: &'static str = "u32";
}

impl TensorElement for u64 {
    const TYPE: ElementType = ElementType::UInt64;
    const NAME: &'static str = "u64";
}

} // verus!
