use litert::error::{checked_handle, Error};
use litert::options::{Accelerators, CompilationOptions};
use litert::raw::K_LITERT_STATUS_OK;

// The C library is not linked into these tests: they feed the outcomes a
// working runtime reports (OK statuses, non-null handles) through the
// library's decisions on them, and check that those decisions accept them.
// Nothing here calls into the runtime itself.

// Options: created with OK and a non-null handle, then OK again when the CPU
// backend is selected.
#[test]
fn options_lifecycle() {
    let handle: usize = 0x7f00_1000;
    let status = K_LITERT_STATUS_OK;
    let opts = CompilationOptions::from_created(status, handle);
    assert!(opts.is_ok(), "CreateOptions status");
    let opts = opts.unwrap();
    assert!(opts.as_raw() != 0, "CreateOptions returned null handle");

    let cpu = Accelerators::cpu();
    assert_eq!(cpu.bits(), 1);
    let hw_status = K_LITERT_STATUS_OK;
    let opts = opts.with_accelerators(hw_status).unwrap();
    assert_eq!(opts.as_raw(), handle);
}

// Environment: created with OK and a non-null handle; a null handle with an
// OK status is refused.
#[test]
fn environment_lifecycle() {
    let env: usize = 0x5555_0000;
    let status = K_LITERT_STATUS_OK;
    let checked = checked_handle(status, env);
    assert!(checked.is_ok(), "CreateEnvironment status");
    assert!(checked.unwrap() != 0, "CreateEnvironment returned null handle");
    assert!(matches!(checked_handle(status, 0), Err(Error::NullPointer)));
}
