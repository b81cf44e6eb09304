use litert::error::{check, checked_handle, status_message, Error};

#[test]
fn check_ok_status() {
    assert!(check(0).is_ok());
}

#[test]
fn check_error_status_carries_code_and_label() {
    match check(1) {
        Err(Error::Status { code, message }) => {
            assert_eq!(code, 1);
            assert_eq!(message, "invalid argument");
        }
        other => panic!("unexpected {other:?}"),
    }
    match check(4242) {
        Err(Error::Status { code, message }) => {
            assert_eq!(code, 4242);
            assert_eq!(message, "unrecognized status code");
        }
        other => panic!("unexpected {other:?}"),
    }
}

#[test]
fn status_labels() {
    let table: [(u32, &str); 30] = [
        (1, "invalid argument"),
        (2, "memory allocation failure"),
        (3, "runtime failure"),
        (4, "missing input tensor"),
        (5, "unsupported"),
        (6, "not found"),
        (7, "timeout expired"),
        (8, "wrong version"),
        (9, "unknown error"),
        (10, "already exists"),
        (100, "cancelled"),
        (500, "file I/O error"),
        (501, "invalid flatbuffer"),
        (502, "dynamic loading error"),
        (503, "serialization error"),
        (504, "compilation error"),
        (1000, "index out of bounds"),
        (1001, "invalid IR type"),
        (1002, "invalid graph invariant"),
        (1003, "graph modification error"),
        (1500, "invalid tool config"),
        (2000, "legalization: no match"),
        (2001, "invalid legalization"),
        (3000, "pattern: no match"),
        (3001, "invalid transformation"),
        (4000, "unsupported runtime version"),
        (4001, "unsupported compiler version"),
        (4002, "incompatible bytecode version"),
        (5000, "unsupported op shape inferer"),
        (5001, "shape inference failed"),
    ];
    for (code, label) in table {
        assert_eq!(status_message(code), label);
    }
    assert_eq!(status_message(0), "unrecognized status code");
    assert_eq!(status_message(11), "unrecognized status code");
}

#[test]
fn checked_handle_cases() {
    assert_eq!(checked_handle(0, 16).unwrap(), 16);
    assert!(matches!(checked_handle(0, 0), Err(Error::NullPointer)));
    // A failed status wins over the handle.
    assert!(matches!(checked_handle(3, 16), Err(Error::Status { code: 3, .. })));
    assert!(matches!(checked_handle(3, 0), Err(Error::Status { code: 3, .. })));
}

#[test]
fn io_errors_convert() {
    let e: Error = std::io::Error::new(std::io::ErrorKind::NotFound, "model.tflite").into();
    assert!(matches!(e, Error::Io(ref io) if io.kind() == std::io::ErrorKind::NotFound));
}
