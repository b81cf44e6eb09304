use litert::error::Error;
use litert::options::{Accelerators, CompilationOptions};

#[test]
fn backend_bits() {
    assert_eq!(Accelerators::none().bits(), 0);
    assert_eq!(Accelerators::cpu().bits(), 1);
    assert_eq!(Accelerators::gpu().bits(), 2);
    assert_eq!(Accelerators::npu().bits(), 4);
    assert_eq!(Accelerators::default(), Accelerators::cpu());
}

#[test]
fn union_and_bitor() {
    let gc = Accelerators::gpu() | Accelerators::cpu();
    assert_eq!(gc.bits(), 3);
    assert_eq!(gc, Accelerators::cpu().union(Accelerators::gpu()));
    let all = gc.union(Accelerators::npu());
    assert_eq!(all.bits(), 7);
    // identity, idempotence, associativity
    assert_eq!(all.union(Accelerators::none()), all);
    assert_eq!(all.union(all), all);
    let a = Accelerators::cpu();
    let b = Accelerators::gpu();
    let c = Accelerators::npu();
    assert_eq!((a | b) | c, a | (b | c));
}

#[test]
fn contains_any_bit() {
    let gc = Accelerators::gpu() | Accelerators::cpu();
    assert!(gc.contains(Accelerators::cpu()));
    assert!(gc.contains(Accelerators::gpu()));
    assert!(!gc.contains(Accelerators::npu()));
    assert!(!gc.contains(Accelerators::none()));
    assert!(!Accelerators::none().contains(Accelerators::none()));
    // any of `other`'s bits set in `self`
    assert!(Accelerators::cpu().contains(Accelerators::cpu() | Accelerators::npu()));
    assert!(!Accelerators::cpu().contains(Accelerators::gpu() | Accelerators::npu()));
}

#[test]
fn created_options() {
    let opts = CompilationOptions::from_created(0, 0x40).unwrap();
    assert_eq!(opts.as_raw(), 0x40);
    assert!(matches!(CompilationOptions::from_created(0, 0), Err(Error::NullPointer)));
    match CompilationOptions::from_created(2, 0x40) {
        Err(Error::Status { code, message }) => {
            assert_eq!(code, 2);
            assert_eq!(message, "memory allocation failure");
        }
        Ok(_) => panic!("unexpected success"),
        Err(other) => panic!("unexpected {other:?}"),
    }
}

#[test]
fn accelerator_request_outcome() {
    let opts = CompilationOptions::from_created(0, 0x40).unwrap();
    let opts = opts.with_accelerators(0).unwrap();
    assert_eq!(opts.as_raw(), 0x40);
    match opts.with_accelerators(1) {
        Err(Error::Status { code, message }) => {
            assert_eq!(code, 1);
            assert_eq!(message, "invalid argument");
        }
        Ok(_) => panic!("unexpected success"),
        Err(other) => panic!("unexpected {other:?}"),
    }
}
