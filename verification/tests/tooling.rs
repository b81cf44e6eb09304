use litert::tooling::{
    bindgen_multiarch_clang_arg, build_all_args, build_tool, combine_clang_args, host_target,
    is_reachable_from, multiarch_include_dir, newest_bindings_index, parse_target_arg,
    regen_build_args, supported_targets, regen_plan, libclang_guesses, choose_libclang_dir,
};

fn strings(v: &[&str]) -> Vec<String> {
    v.iter().map(|s| s.to_string()).collect()
}

const ALL: [&str; 6] = [
    "aarch64-apple-darwin",
    "x86_64-unknown-linux-gnu",
    "aarch64-unknown-linux-gnu",
    "x86_64-pc-windows-msvc",
    "aarch64-linux-android",
    "x86_64-linux-android",
];

#[test]
fn targets_list() {
    assert_eq!(supported_targets(), ALL.to_vec());
}

#[test]
fn reachability() {
    let linux = "x86_64-unknown-linux-gnu";
    let mac = "aarch64-apple-darwin";
    let win = "x86_64-pc-windows-msvc";
    for t in ALL {
        assert!(is_reachable_from(t, t));
    }
    assert!(!is_reachable_from(linux, mac));
    assert!(!is_reachable_from(linux, win));
    assert!(is_reachable_from(linux, "aarch64-linux-android"));
    assert!(is_reachable_from(mac, "aarch64-unknown-linux-gnu"));
    assert!(!is_reachable_from(mac, win));
    assert!(is_reachable_from("x86_64-apple-darwin", mac));
    assert!(is_reachable_from("aarch64-pc-windows-msvc", win));
    assert!(!is_reachable_from("unknown", mac));
    assert!(is_reachable_from("unknown", linux));
}

#[test]
fn host_triples() {
    assert_eq!(host_target("aarch64", "macos"), "aarch64-apple-darwin");
    assert_eq!(host_target("x86_64", "linux"), "x86_64-unknown-linux-gnu");
    assert_eq!(host_target("aarch64", "linux"), "aarch64-unknown-linux-gnu");
    assert_eq!(host_target("x86_64", "windows"), "x86_64-pc-windows-msvc");
    assert_eq!(host_target("x86_64", "macos"), "unknown");
    assert_eq!(host_target("riscv64", "linux"), "unknown");
}

#[test]
fn multiarch_headers() {
    assert_eq!(
        multiarch_include_dir("x86_64-unknown-linux-gnu"),
        Some("/usr/include/x86_64-linux-gnu")
    );
    assert_eq!(
        multiarch_include_dir("aarch64-unknown-linux-gnu"),
        Some("/usr/include/aarch64-linux-gnu")
    );
    assert_eq!(multiarch_include_dir("aarch64-apple-darwin"), None);
    assert_eq!(
        bindgen_multiarch_clang_arg("x86_64-unknown-linux-gnu", true).as_deref(),
        Some("-I/usr/include/x86_64-linux-gnu")
    );
    assert_eq!(bindgen_multiarch_clang_arg("x86_64-unknown-linux-gnu", false), None);
    assert_eq!(bindgen_multiarch_clang_arg("x86_64-pc-windows-msvc", true), None);
}

#[test]
fn clang_args_combination() {
    let extra = String::from("-I/usr/include/x86_64-linux-gnu");
    assert_eq!(combine_clang_args(None, extra.clone()), extra);
    assert_eq!(combine_clang_args(Some(""), extra.clone()), extra);
    assert_eq!(
        combine_clang_args(Some("-DFOO"), extra.clone()),
        "-DFOO -I/usr/include/x86_64-linux-gnu"
    );
}

#[test]
fn build_commands() {
    assert_eq!(build_tool("x86_64-unknown-linux-gnu", "x86_64-unknown-linux-gnu"), "cargo");
    assert_eq!(build_tool("x86_64-unknown-linux-gnu", "aarch64-linux-android"), "cross");
    assert_eq!(
        regen_build_args("aarch64-linux-android"),
        strings(&[
            "build",
            "-p",
            "litert-sys",
            "--features",
            "generate-bindings",
            "--target",
            "aarch64-linux-android"
        ])
    );
    assert_eq!(
        build_all_args("x86_64-linux-android"),
        strings(&["build", "--workspace", "--exclude", "xtask", "--target", "x86_64-linux-android"])
    );
}

#[test]
fn target_argument() {
    assert_eq!(parse_target_arg(&[]).unwrap(), ALL.to_vec());
    assert_eq!(
        parse_target_arg(&strings(&["--target", "x86_64-linux-android"])).unwrap(),
        vec!["x86_64-linux-android"]
    );
    assert_eq!(
        parse_target_arg(&strings(&["-t", "aarch64-apple-darwin"])).unwrap(),
        vec!["aarch64-apple-darwin"]
    );
    // the last choice wins
    assert_eq!(
        parse_target_arg(&strings(&["-t", "aarch64-apple-darwin", "--target", "x86_64-linux-android"]))
            .unwrap(),
        vec!["x86_64-linux-android"]
    );
}

#[test]
fn target_argument_errors() {
    assert_eq!(
        parse_target_arg(&strings(&["--target"])).unwrap_err(),
        "--target requires a value"
    );
    assert_eq!(
        parse_target_arg(&strings(&["--verbose"])).unwrap_err(),
        "unexpected argument `--verbose`"
    );
    assert_eq!(
        parse_target_arg(&strings(&["-t", "riscv64gc-unknown-linux-gnu"])).unwrap_err(),
        format!("unsupported target `riscv64gc-unknown-linux-gnu`; supported: {}", ALL.join(", "))
    );
}

#[test]
fn newest_bindings_choice() {
    let names = strings(&["litert-sys-aaa", "other-crate-1", "litert-sys-bbb", "litert-sys-ccc"]);
    assert_eq!(newest_bindings_index(&names, &[5, 100, 9, 9]), Some(2));
    assert_eq!(newest_bindings_index(&names, &[9, 100, 9, 1]), Some(0));
    assert_eq!(newest_bindings_index(&strings(&["foo", "litert-sysx"]), &[1, 2]), None);
    assert_eq!(newest_bindings_index(&[], &[]), None);
}

#[test]
fn newest_bindings_before_epoch() {
    let names = strings(&["litert-sys-a", "litert-sys-b"]);
    assert_eq!(newest_bindings_index(&names, &[-5, -3]), Some(1));
    assert_eq!(newest_bindings_index(&names, &[-5, -7]), Some(0));
}

#[test]
fn regen_skip_plan() {
    let targets = supported_targets();
    assert_eq!(
        regen_plan("x86_64-unknown-linux-gnu", &targets),
        vec![false, true, true, false, true, true]
    );
    assert_eq!(
        regen_plan("aarch64-apple-darwin", &targets),
        vec![true, true, true, false, true, true]
    );
    assert_eq!(regen_plan("unknown", &vec![]), Vec::<bool>::new());
}

#[test]
fn libclang_choice() {
    assert_eq!(libclang_guesses().len(), 5);
    let none = [false; 5];
    assert_eq!(choose_libclang_dir(None, &none), None);
    assert_eq!(
        choose_libclang_dir(Some("/custom".to_string()), &[true; 5]).as_deref(),
        Some("/custom")
    );
    assert_eq!(
        choose_libclang_dir(None, &[false, false, false, true, true]).as_deref(),
        Some("/usr/lib/x86_64-linux-gnu")
    );
    assert_eq!(
        choose_libclang_dir(None, &[true, false, false, false, true]).as_deref(),
        Some("/opt/homebrew/opt/llvm/lib")
    );
}
