use litert::element_type::{ElementType, TensorElement};

const ALL: [ElementType; 18] = [
    ElementType::NoType,
    ElementType::Bool,
    ElementType::Int2,
    ElementType::Int4,
    ElementType::Int8,
    ElementType::Int16,
    ElementType::Int32,
    ElementType::Int64,
    ElementType::UInt8,
    ElementType::UInt16,
    ElementType::UInt32,
    ElementType::UInt64,
    ElementType::Float16,
    ElementType::BFloat16,
    ElementType::Float32,
    ElementType::Float64,
    ElementType::Complex64,
    ElementType::Complex128,
];

#[test]
fn raw_tags_match_the_c_enum() {
    assert_eq!(ElementType::NoType.to_raw(), 0);
    assert_eq!(ElementType::Float32.to_raw(), 1);
    assert_eq!(ElementType::Int32.to_raw(), 2);
    assert_eq!(ElementType::UInt8.to_raw(), 3);
    assert_eq!(ElementType::Int64.to_raw(), 4);
    assert_eq!(ElementType::Bool.to_raw(), 6);
    assert_eq!(ElementType::Int16.to_raw(), 7);
    assert_eq!(ElementType::Complex64.to_raw(), 8);
    assert_eq!(ElementType::Int8.to_raw(), 9);
    assert_eq!(ElementType::Float16.to_raw(), 10);
    assert_eq!(ElementType::Float64.to_raw(), 11);
    assert_eq!(ElementType::Complex128.to_raw(), 12);
    assert_eq!(ElementType::UInt64.to_raw(), 13);
    assert_eq!(ElementType::UInt32.to_raw(), 16);
    assert_eq!(ElementType::UInt16.to_raw(), 17);
    assert_eq!(ElementType::Int4.to_raw(), 18);
    assert_eq!(ElementType::BFloat16.to_raw(), 19);
    assert_eq!(ElementType::Int2.to_raw(), 20);
}

#[test]
fn from_raw_inverts_to_raw() {
    for t in ALL {
        assert_eq!(ElementType::from_raw(t.to_raw()), t);
    }
}

#[test]
fn tags_are_one_to_one() {
    for (i, a) in ALL.iter().enumerate() {
        for (j, b) in ALL.iter().enumerate() {
            assert_eq!(a.to_raw() == b.to_raw(), i == j);
        }
    }
}

#[test]
fn unknown_tags_decode_to_no_type() {
    // 5 (string), 14 (resource), 15 (variant) and anything out of range.
    for raw in [5u32, 14, 15, 21, 100, u32::MAX] {
        assert_eq!(ElementType::from_raw(raw), ElementType::NoType);
    }
}

#[test]
fn tensor_element_impls() {
    assert_eq!(<bool as TensorElement>::TYPE, ElementType::Bool);
    assert_eq!(<i8 as TensorElement>::TYPE, ElementType::Int8);
    assert_eq!(<i16 as TensorElement>::TYPE, ElementType::Int16);
    assert_eq!(<i32 as TensorElement>::TYPE, ElementType::Int32);
    assert_eq!(<i64 as TensorElement>::TYPE, ElementType::Int64);
    assert_eq!(<u8 as TensorElement>::TYPE, ElementType::UInt8);
    assert_eq!(<u16 as TensorElement>::TYPE, ElementType::UInt16);
    assert_eq!(<u32 as TensorElement>::TYPE, ElementType::UInt32);
    assert_eq!(<u64 as TensorElement>::TYPE, ElementType::UInt64);
    assert_eq!(<i32 as TensorElement>::NAME, "i32");
    assert_eq!(<u8 as TensorElement>::NAME, "u8");
    assert_eq!(<bool as TensorElement>::NAME, "bool");
}
