//! Decisions of the workspace automation: the supported targets, which of
//! them a host can build bindings for, how the command line is read, and how
//! the build commands are put together.

use vstd::prelude::*;
use crate::text::{contains, contains_seq, lemma_seq_join_push, seq_join, starts_with, starts_with_seq, str_eq};
use vstd::string::StringExecFns;

verus! {

broadcast use vstd::string::group_string_axioms;

/// Every Rust target bindings are published for, in order.
pub open spec fn spec_targets() -> Seq<Seq<char>> {
    seq![
        "aarch64-apple-darwin"@,
        "x86_64-unknown-linux-gnu"@,
        "aarch64-unknown-linux-gnu"@,
        "x86_64-pc-windows-msvc"@,
        "aarch64-linux-android"@,
        "x86_64-linux-android"@,
    ]
}

/// The views of a list of string slices.
pub open spec fn str_views(v: Seq<&str>) -> Seq<Seq<char>> {
    v.map_values(|t: &str| t@)
}

/// Every Rust target bindings are published for.
pub fn supported_targets() -> (v: Vec<&'static str>)
    ensures
        str_views(v@) == spec_targets(),
{
    let v = vec![
        "aarch64-apple-darwin",
        "x86_64-unknown-linux-gnu",
        "aarch64-unknown-linux-gnu",
        "x86_64-pc-windows-msvc",
        "aarch64-linux-android",
        "x86_64-linux-android",
    ];
    assert(str_views(v@) =~= spec_targets());
    v
}

/// Whether bindings for `target` can be produced on `host`: the host's own
/// target always; Apple targets only from an Apple host; Windows targets only
/// from a Windows host; every other target from any host.
pub open spec fn spec_is_reachable_from(host: Seq<char>, target: Seq<char>) -> bool {
    if host == target {
        true
    } else if contains_seq(target, "apple"@) {
        contains_seq(host, "apple"@)
    } else if contains_seq(target, "windows"@) {
        contains_seq(host, "windows"@)
    } else {
        true
    }
}

/// A foreign target is "reachable" from a host only when a cross toolchain
/// can produce bindings for it there.
pub fn is_reachable_from(host: &str, target: &str) -> (r: bool)
    ensures
        r == spec_is_reachable_from(host@, target@),
{
    if str_eq(host, target) {
        return true;
    }
    if contains(target, "apple") {
        return contains(host, "apple");
    }
    if contains(target, "windows") {
        return contains(host, "windows");
    }
    true
}

/// The target triple of a host, from its architecture and operating system
/// names (as in `std::env::consts`); `"unknown"` for any other host.
pub open spec fn spec_host_target(arch: Seq<char>, os: Seq<char>) -> Seq<char> {
    if arch == "aarch64"@ && os == "macos"@ {
        "aarch64-apple-darwin"@
    } else if arch == "x86_64"@ && os == "linux"@ {
        "x86_64-unknown-linux-gnu"@
    } else if arch == "aarch64"@ && os == "linux"@ {
        "aarch64-unknown-linux-gnu"@
    } else if arch == "x86_64"@ && os == "windows"@ {
        "x86_64-pc-windows-msvc"@
    } else {
        "unknown"@
    }
}

/// The target triple of the host with the given architecture and operating
/// system; an unknown host treats every target as foreign.
pub fn host_target(arch: &str, os: &str) -> (t: &'static str)
    ensures
        t@ == spec_host_target(arch@, os@),
{
    if str_eq(arch, "aarch64") && str_eq(os, "macos") {
        "aarch64-apple-darwin"
    } else if str_eq(arch, "x86_64") && str_eq(os, "linux") {
        "x86_64-unknown-linux-gnu"
    } else if str_eq(arch, "aarch64") && str_eq(os, "linux") {
        "aarch64-unknown-linux-gnu"
    } else if str_eq(arch, "x86_64") && str_eq(os, "windows") {
        "x86_64-pc-windows-msvc"
    } else {
        "unknown"
    }
}

/// The directory of multi-arch glibc headers on a Linux host, if it has one.
pub open spec fn spec_multiarch_include_dir(host: Seq<char>) -> Option<Seq<char>> {
    if host == "x86_64-unknown-linux-gnu"@ {
        Some("/usr/include/x86_64-linux-gnu"@)
    } else if host == "aarch64-unknown-linux-gnu"@ {
        Some("/usr/include/aarch64-linux-gnu"@)
    } else {
        None
    }
}

/// Where a host keeps its multi-arch glibc headers, if its platform has such
/// a directory.
pub fn multiarch_include_dir(host: &str) -> (d: Option<&'static str>)
    ensures
        match d {
            Some(dir) => spec_multiarch_include_dir(host@) == Some(dir@),
            None => spec_multiarch_include_dir(host@) is None,
        },
{
    if str_eq(host, "x86_64-unknown-linux-gnu") {
        Some("/usr/include/x86_64-linux-gnu")
    } else if str_eq(host, "aarch64-unknown-linux-gnu") {
        Some("/usr/include/aarch64-linux-gnu")
    } else {
        None
    }
}

/// The `-I` flag for a host's multi-arch header directory, when the host has
/// one and its glibc headers are present there.
pub open spec fn spec_multiarch_clang_arg(host: Seq<char>, headers_present: bool) -> Option<Seq<char>> {
    match spec_multiarch_include_dir(host) {
        Some(dir) => if headers_present {
            Some("-I"@ + dir)
        } else {
            None
        },
        None => None,
    }
}

/// Returns an `-I…` fragment pointing at the host's multi-arch glibc headers
/// if they exist (`headers_present` tells whether
/// `<dir>/bits/libc-header-start.h` was found), or `None` when the platform
/// either doesn't need them (macOS, Windows) or doesn't have them.
pub fn bindgen_multiarch_clang_arg(host: &str, headers_present: bool) -> (r: Option<String>)
    ensures
        match r {
            Some(arg) => spec_multiarch_clang_arg(host@, headers_present) == Some(arg@),
            None => spec_multiarch_clang_arg(host@, headers_present) is None,
        },
{
    match multiarch_include_dir(host) {
        Some(dir) => if headers_present {
            let mut arg = String::new();
            arg.append("-I");
            arg.append(dir);
            Some(arg)
        } else {
            None
        },
        None => None,
    }
}

/// The extra clang arguments handed to bindgen: an already set, non-empty
/// value is kept and the new fragment appended after a space.
pub open spec fn spec_combine_clang_args(existing: Option<Seq<char>>, extra: Seq<char>) -> Seq<char> {
    match existing {
        Some(e) => if e.len() > 0 {
            e + " "@ + extra
        } else {
            extra
        },
        None => extra,
    }
}

/// Combines the inherited `BINDGEN_EXTRA_CLANG_ARGS` value (if any) with a
/// new fragment.
pub fn combine_clang_args(existing: Option<&str>, extra: String) -> (r: String)
    ensures
        r@ == spec_combine_clang_args(
            match existing {
                Some(e) => Some(e@),
                None => None,
            },
            extra@,
        ),
{
    match existing {
        Some(e) => if !e.is_empty() {
            let mut r = String::new();
            r.append(e);
            r.append(" ");
            r.append(extra.as_str());
            r
        } else {
            extra
        },
        None => extra,
    }
}

/// The build driver for a target: the native `cargo` for the host's own
/// target, `cross` for a foreign one.
pub fn build_tool(host: &str, target: &str) -> (tool: &'static str)
    ensures
        tool@ == if host@ == target@ {
            "cargo"@
        } else {
            "cross"@
        },
{
    if str_eq(target, host) {
        "cargo"
    } else {
        "cross"
    }
}

/// The arguments of the build that regenerates the bindings for `target`.
pub fn regen_build_args(target: &str) -> (args: Vec<String>)
    ensures
        args@.map_values(|a: String| a@) == seq![
            "build"@,
            "-p"@,
            "litert-sys"@,
            "--features"@,
            "generate-bindings"@,
            "--target"@,
            target@,
        ],
{
    let mut args: Vec<String> = Vec::new();
    args.push(String::from_str("build"));
    args.push(String::from_str("-p"));
    args.push(String::from_str("litert-sys"));
    args.push(String::from_str("--features"));
    args.push(String::from_str("generate-bindings"));
    args.push(String::from_str("--target"));
    args.push(String::from_str(target));
    assert(args@.map_values(|a: String| a@) =~= seq![
        "build"@,
        "-p"@,
        "litert-sys"@,
        "--features"@,
        "generate-bindings"@,
        "--target"@,
        target@,
    ]);
    args
}

/// The arguments of the smoke build of the whole workspace for `target`.
pub fn build_all_args(target: &str) -> (args: Vec<String>)
    ensures
        args@.map_values(|a: String| a@) == seq![
            "build"@,
            "--workspace"@,
            "--exclude"@,
            "xtask"@,
            "--target"@,
            target@,
        ],
{
    let mut args: Vec<String> = Vec::new();
    args.push(String::from_str("build"));
    args.push(String::from_str("--workspace"));
    args.push(String::from_str("--exclude"));
    args.push(String::from_str("xtask"));
    args.push(String::from_str("--target"));
    args.push(String::from_str(target));
    assert(args@.map_values(|a: String| a@) =~= seq![
        "build"@,
        "--workspace"@,
        "--exclude"@,
        "xtask"@,
        "--target"@,
        target@,
    ]);
    args
}

/// The views of a list of strings.
pub open spec fn string_views(v: Seq<String>) -> Seq<Seq<char>> {
    v.map_values(|a: String| a@)
}

/// Whether an argument is the target flag (`--target` or `-t`).
pub open spec fn is_target_flag(a: Seq<char>) -> bool {
    a == "--target"@ || a == "-t"@
}

/// Reads the arguments left to right: each target flag must be followed by a
/// value, which replaces any earlier choice; any other argument is an error.
/// Gives the last chosen target, if any.
pub open spec fn spec_scan_target_args(args: Seq<Seq<char>>, selected: Option<Seq<char>>) -> Result<
    Option<Seq<char>>,
    Seq<char>,
>
    decreases args.len(),
{
    if args.len() == 0 {
        Ok(selected)
    } else if is_target_flag(args[0]) {
        if args.len() < 2 {
            Err("--target requires a value"@)
        } else {
            spec_scan_target_args(args.skip(2), Some(args[1]))
        }
    } else {
        Err("unexpected argument `"@ + args[0] + "`"@)
    }
}

/// The targets a command works on: every supported target when none was
/// chosen, else the chosen one, which must be supported.
pub open spec fn spec_parse_target_arg(args: Seq<Seq<char>>) -> Result<Seq<Seq<char>>, Seq<char>> {
    match spec_scan_target_args(args, None) {
        Err(e) => Err(e),
        Ok(None) => Ok(spec_targets()),
        Ok(Some(t)) => if spec_targets().contains(t) {
            Ok(seq![t])
        } else {
            Err("unsupported target `"@ + t + "`; supported: "@ + seq_join(spec_targets(), ", "@))
        },
    }
}

/// The supported targets joined by `", "`.
fn joined_targets(targets: &Vec<&'static str>) -> (r: String)
    ensures
        r@ == seq_join(str_views(targets@), ", "@),
{
    let mut r = String::new();
    let mut i: usize = 0;
    while i < targets.len()
        invariant
            i <= targets@.len(),
            r@ == seq_join(str_views(targets@.take(i as int)), ", "@),
        decreases targets@.len() - i,
    {
        proof {
            assert(str_views(targets@.take(i + 1)) =~= str_views(targets@.take(i as int)).push(
                targets@[i as int]@,
            ));
            lemma_seq_join_push(str_views(targets@.take(i as int)), ", "@, targets@[i as int]@);
        }
        if i > 0 {
            r.append(", ");
        }
        r.append(targets[i]);
        i = i + 1;
    }
    assert(targets@.take(i as int) =~= targets@);
    r
}

/// Reads the `--target TRIPLE` option: all supported targets when it is
/// absent, the named one when it is supported, an error otherwise.
pub fn parse_target_arg(args: &[String]) -> (r: Result<Vec<&'static str>, String>)
    ensures
        match r {
            Ok(v) => spec_parse_target_arg(string_views(args@)) == Ok::<Seq<Seq<char>>, Seq<char>>(
                str_views(v@),
            ),
            Err(e) => spec_parse_target_arg(string_views(args@)) == Err::<Seq<Seq<char>>, Seq<char>>(
                e@,
            ),
        },
{
    let ghost all = string_views(args@);
    let mut selected: Option<usize> = None;
    let mut i: usize = 0;
    assert(all.skip(0) =~= all);
    while i < args.len()
        invariant
            all == string_views(args@),
            i <= args@.len(),
            selected matches Some(k) ==> k < args@.len(),
            spec_scan_target_args(all, None) == spec_scan_target_args(
                all.skip(i as int),
                match selected {
                    Some(k) => Some(all[k as int]),
                    None => None,
                },
            ),
        decreases args@.len() - i,
    {
        let arg = args[i].as_str();
        if str_eq(arg, "--target") || str_eq(arg, "-t") {
            if i + 1 >= args.len() {
                let mut e = String::new();
                e.append("--target requires a value");
                return Err(e);
            }
            proof {
                assert(all.skip(i as int).skip(2) =~= all.skip(i + 2));
            }
            selected = Some(i + 1);
            i = i + 2;
        } else {
            let mut e = String::new();
            e.append("unexpected argument `");
            e.append(arg);
            e.append("`");
            return Err(e);
        }
    }
    assert(all.skip(i as int) =~= Seq::<Seq<char>>::empty());
    let targets = supported_targets();
    match selected {
        Some(k) => {
            let t = args[k].as_str();
            assert(spec_scan_target_args(all, None) == Ok::<Option<Seq<char>>, Seq<char>>(Some(t@)));
            let mut j: usize = 0;
            while j < targets.len()
                invariant
                    spec_scan_target_args(all, None) == Ok::<Option<Seq<char>>, Seq<char>>(Some(t@)),
                    all == string_views(args@),
                    str_views(targets@) == spec_targets(),
                    j <= targets@.len(),
                    forall|m: int| 0 <= m < j ==> spec_targets()[m] != t@,
                decreases targets@.len() - j,
            {
                if str_eq(targets[j], t) {
                    let mut found: Vec<&'static str> = Vec::new();
                    found.push(targets[j]);
                    proof {
                        assert(spec_targets().contains(t@)) by {
                            assert(spec_targets()[j as int] == t@);
                        }
                        assert(str_views(found@) =~= seq![t@]);
                    }
                    return Ok(found);
                }
                j = j + 1;
            }
            let mut e = String::new();
            e.append("unsupported target `");
            e.append(t);
            e.append("`; supported: ");
            let joined = joined_targets(&targets);
            e.append(joined.as_str());
            proof {
                assert(!spec_targets().contains(t@));
            }
            Err(e)
        },
        None => Ok(targets),
    }
}

/// Whether a build directory belongs to the bindings crate.
pub open spec fn is_bindings_build_dir(name: Seq<char>) -> bool {
    starts_with_seq(name, "litert-sys-"@)
}

/// Picks, among build directories, the one whose generated bindings were
/// written last: `names[i]` is a directory's name and `mtimes[i]` the
/// modification time of the bindings file in it (nanoseconds from the Unix
/// epoch, negative before it). Directories of other crates
/// are ignored; of several equally recent files the first wins; `None` when
/// no directory qualifies.
pub fn newest_bindings_index(names: &[String], mtimes: &[i128]) -> (r: Option<usize>)
    requires
        names@.len() == mtimes@.len(),
    ensures
        match r {
            None => forall|j: int| 0 <= j < names@.len() ==> !is_bindings_build_dir(names@[j]@),
            Some(i) => {
                &&& i < names@.len()
                &&& is_bindings_build_dir(names@[i as int]@)
                &&& forall|j: int|
                    0 <= j < names@.len() && is_bindings_build_dir(names@[j]@) ==> mtimes@[j]
                        <= mtimes@[i as int]
                &&& forall|j: int|
                    0 <= j < i && is_bindings_build_dir(names@[j]@) ==> mtimes@[j] < mtimes@[i as int]
            },
        },
{
    let mut best: Option<usize> = None;
    let mut k: usize = 0;
    while k < names.len()
        invariant
            names@.len() == mtimes@.len(),
            k <= names@.len(),
            match best {
                None => forall|j: int| 0 <= j < k ==> !is_bindings_build_dir(names@[j]@),
                Some(i) => {
                    &&& i < k
                    &&& is_bindings_build_dir(names@[i as int]@)
                    &&& forall|j: int|
                        0 <= j < k && is_bindings_build_dir(names@[j]@) ==> mtimes@[j]
                            <= mtimes@[i as int]
                    &&& forall|j: int|
                        0 <= j < i && is_bindings_build_dir(names@[j]@) ==> mtimes@[j]
                            < mtimes@[i as int]
                },
            },
        decreases names@.len() - k,
    {
        if starts_with(names[k].as_str(), "litert-sys-") {
            match best {
                Some(i) => {
                    if mtimes[i] < mtimes[k] {
                        best = Some(k);
                    }
                },
                None => {
                    best = Some(k);
                },
            }
        }
        k = k + 1;
    }
    best
}

/// A command always works on at least one target, and only on supported
/// ones.
pub proof fn lemma_parsed_targets_supported(args: Seq<Seq<char>>)
    ensures
        spec_parse_target_arg(args) matches Ok(v) ==> v.len() > 0 && forall|k: int|
            0 <= k < v.len() ==> spec_targets().contains(#[trigger] v[k]),
{
    match spec_scan_target_args(args, None) {
        Ok(None) => {
            assert forall|k: int| 0 <= k < spec_targets().len() implies spec_targets().contains(
                #[trigger] spec_targets()[k],
            ) by {}
        },
        _ => {},
    }
}

/// Every host with a known triple maps to one of the supported targets, and
/// is therefore always reachable from itself.
pub proof fn lemma_host_target_supported(arch: Seq<char>, os: Seq<char>)
    ensures
        spec_host_target(arch, os) == "unknown"@ || spec_targets().contains(spec_host_target(arch, os)),
        spec_is_reachable_from(spec_host_target(arch, os), spec_host_target(arch, os)),
{
    let t = spec_host_target(arch, os);
    if t != "unknown"@ {
        if t == "aarch64-apple-darwin"@ {
            assert(spec_targets()[0] == t);
        } else if t == "x86_64-unknown-linux-gnu"@ {
            assert(spec_targets()[1] == t);
        } else if t == "aarch64-unknown-linux-gnu"@ {
            assert(spec_targets()[2] == t);
        } else {
            assert(spec_targets()[3] == t);
        }
    }
}

/// Which of the chosen targets `regen-bindings` builds on `host`: entry `i`
/// tells whether `targets[i]` is reachable from it (the others are skipped).
pub fn regen_plan(host: &str, targets: &Vec<&'static str>) -> (plan: Vec<bool>)
    ensures
        plan@.len() == targets@.len(),
        forall|i: int|
            0 <= i < targets@.len() ==> plan@[i] == spec_is_reachable_from(host@, #[trigger] targets@[i]@),
{
    let mut plan: Vec<bool> = Vec::new();
    let mut i: usize = 0;
    while i < targets.len()
        invariant
            i <= targets@.len(),
            plan@.len() == i,
            forall|j: int| 0 <= j < i ==> plan@[j] == spec_is_reachable_from(host@, #[trigger] targets@[j]@),
        decreases targets@.len() - i,
    {
        let r = is_reachable_from(host, targets[i]);
        plan.push(r);
        i = i + 1;
    }
    plan
}

/// The directories probed for a libclang, in order.
pub open spec fn spec_libclang_guesses() -> Seq<Seq<char>> {
    seq![
        "/opt/homebrew/opt/llvm/lib"@,
        "/usr/local/opt/llvm/lib"@,
        "/Library/Developer/CommandLineTools/usr/lib"@,
        "/usr/lib/x86_64-linux-gnu"@,
        "/usr/lib64"@,
    ]
}

/// The directories probed for a libclang, in order.
pub fn libclang_guesses() -> (v: Vec<&'static str>)
    ensures
        str_views(v@) == spec_libclang_guesses(),
{
    let v = vec![
        "/opt/homebrew/opt/llvm/lib",
        "/usr/local/opt/llvm/lib",
        "/Library/Developer/CommandLineTools/usr/lib",
        "/usr/lib/x86_64-linux-gnu",
        "/usr/lib64",
    ];
    assert(str_views(v@) =~= spec_libclang_guesses());
    v
}

/// The first guessed directory that holds a libclang, if any.
fn first_found_guess(found: &[bool]) -> (r: Option<String>)
    requires
        found@.len() == spec_libclang_guesses().len(),
    ensures
        match r {
            Some(d) => exists|i: int|
                0 <= i < found@.len() && found@[i] && d@ == spec_libclang_guesses()[i] && forall|j: int|
                    0 <= j < i ==> !found@[j],
            None => forall|i: int| 0 <= i < found@.len() ==> !found@[i],
        },
{
    let guesses = libclang_guesses();
    let mut i: usize = 0;
    while i < found.len()
        invariant
            str_views(guesses@) == spec_libclang_guesses(),
            found@.len() == spec_libclang_guesses().len(),
            i <= found@.len(),
            forall|j: int| 0 <= j < i ==> !found@[j],
        decreases found@.len() - i,
    {
        if found[i] {
            let d = String::from_str(guesses[i]);
            assert(d@ == spec_libclang_guesses()[i as int]);
            return Some(d);
        }
        i = i + 1;
    }
    None
}

/// Where libclang is: the value of `LIBCLANG_PATH` when it is set, else the
/// first guessed directory that holds a libclang (`found[i]` tells whether
/// guess `i` holds `libclang.dylib`, `libclang.so` or `libclang.so.1`), else
/// nothing.
pub fn choose_libclang_dir(env_value: Option<String>, found: &[bool]) -> (r: Option<String>)
    requires
        found@.len() == spec_libclang_guesses().len(),
    ensures
        env_value is Some ==> r == env_value,
        env_value is None ==> match r {
            Some(d) => exists|i: int|
                0 <= i < found@.len() && found@[i] && d@ == spec_libclang_guesses()[i] && forall|j: int|
                    0 <= j < i ==> !found@[j],
            None => forall|i: int| 0 <= i < found@.len() ==> !found@[i],
        },
{
    match env_value {
        Some(v) => Some(v),
        None => first_found_guess(found),
    }
}

/// Reachability, stated over all hosts and targets: a host reaches its own
/// target; a target whose name mentions neither "apple" nor "windows"
/// (Linux, Android) is reachable from every host; an Apple target is
/// reachable from a different host exactly when that host's name mentions
/// "apple", and a Windows target likewise with "windows". The skip plan of
/// `regen-bindings` follows the same rule.
pub proof fn lemma_reachability_rules(host: Seq<char>, target: Seq<char>)
    ensures
        spec_is_reachable_from(target, target),
        !contains_seq(target, "apple"@) && !contains_seq(target, "windows"@)
            ==> spec_is_reachable_from(host, target),
        host != target && contains_seq(target, "apple"@) ==> (spec_is_reachable_from(host, target)
            == contains_seq(host, "apple"@)),
        host != target && !contains_seq(target, "apple"@) && contains_seq(target, "windows"@) ==> (
        spec_is_reachable_from(host, target) == contains_seq(host, "windows"@)),
{
}

/// The `-I` flag names exactly the host's own header directory: for every
/// host with a multi-arch directory `dir`, present headers give `-I` followed
/// by `dir`; absent headers, or a host without such a directory, give
/// nothing.
pub proof fn lemma_clang_arg_names_host_dir(host: Seq<char>, present: bool)
    ensures
        forall|dir: Seq<char>|
            spec_multiarch_include_dir(host) == Some(dir) ==> spec_multiarch_clang_arg(host, true)
                == Some("-I"@ + dir),
        !present ==> spec_multiarch_clang_arg(host, present) is None,
        spec_multiarch_include_dir(host) is None ==> spec_multiarch_clang_arg(host, present) is None,
{
}

/// Each host's header directory is the one of its own architecture: a host
/// `ARCH-unknown-linux-gnu` gets `/usr/include/ARCH-linux-gnu`.
pub proof fn lemma_include_dir_matches_arch(host: Seq<char>)
    ensures
        spec_multiarch_include_dir(host) matches Some(dir) ==> exists|arch: Seq<char>|
            host == arch + "-unknown-linux-gnu"@ && dir == "/usr/include/"@ + arch + "-linux-gnu"@,
{
    reveal_strlit("x86_64-unknown-linux-gnu");
    reveal_strlit("aarch64-unknown-linux-gnu");
    reveal_strlit("/usr/include/x86_64-linux-gnu");
    reveal_strlit("/usr/include/aarch64-linux-gnu");
    reveal_strlit("-unknown-linux-gnu");
    reveal_strlit("/usr/include/");
    reveal_strlit("-linux-gnu");
    reveal_strlit("x86_64");
    reveal_strlit("aarch64");
    if host == "x86_64-unknown-linux-gnu"@ {
        assert(host =~= "x86_64"@ + "-unknown-linux-gnu"@);
        assert("/usr/include/x86_64-linux-gnu"@ =~= "/usr/include/"@ + "x86_64"@ + "-linux-gnu"@);
    } else if host == "aarch64-unknown-linux-gnu"@ {
        assert(host =~= "aarch64"@ + "-unknown-linux-gnu"@);
        assert("/usr/include/aarch64-linux-gnu"@ =~= "/usr/include/"@ + "aarch64"@ + "-linux-gnu"@);
    }
}

/// A build directory qualifies exactly when its name begins with the eleven
/// characters `litert-sys-`; in particular the directories of the LM
/// bindings crate (`litert-lm-sys-…`) never do.
pub proof fn lemma_bindings_build_dir_prefix(name: Seq<char>, rest: Seq<char>)
    ensures
        is_bindings_build_dir(name) == (name.len() >= 11 && name.subrange(0, 11) == seq![
            'l',
            'i',
            't',
            'e',
            'r',
            't',
            '-',
            's',
            'y',
            's',
            '-',
        ]),
        !is_bindings_build_dir("litert-lm-sys-"@ + rest),
{
    reveal_strlit("litert-sys-");
    reveal_strlit("litert-lm-sys-");
    assert("litert-sys-"@ =~= seq!['l', 'i', 't', 'e', 'r', 't', '-', 's', 'y', 's', '-']);
    let other = "litert-lm-sys-"@ + rest;
    assert(other[7] == 'l');
    if other.len() >= 11 {
        assert(other.subrange(0, 11)[7] == 'l');
    }
}

/// Reading more arguments after a well-formed prefix: a trailing
/// `--target t` (or `-t t`) makes `t` the choice, whatever was chosen
/// before; with no arguments at all nothing is chosen.
pub proof fn lemma_scan_last_target_wins(
    args: Seq<Seq<char>>,
    selected: Option<Seq<char>>,
    flag: Seq<char>,
    t: Seq<char>,
)
    requires
        spec_scan_target_args(args, selected) is Ok,
        is_target_flag(flag),
    ensures
        spec_scan_target_args(args + seq![flag, t], selected) == Ok::<
            Option<Seq<char>>,
            Seq<char>,
        >(Some(t)),
        spec_scan_target_args(Seq::empty(), selected) == Ok::<Option<Seq<char>>, Seq<char>>(
            selected,
        ),
    decreases args.len(),
{
    let all = args + seq![flag, t];
    if args.len() == 0 {
        assert(all =~= seq![flag, t]);
        assert(all[0] == flag && all[1] == t && all.len() == 2);
        assert(all.skip(2) =~= Seq::<Seq<char>>::empty());
        assert(spec_scan_target_args(Seq::<Seq<char>>::empty(), Some(t)) == Ok::<Option<Seq<char>>, Seq<char>>(Some(t)));
        assert(spec_scan_target_args(all, selected) == spec_scan_target_args(all.skip(2), Some(t)));
    } else {
        assert(all[0] == args[0]);
        assert(is_target_flag(args[0]));
        assert(args.len() >= 2);
        assert(all[1] == args[1]);
        assert(spec_scan_target_args(args.skip(2), Some(args[1])) is Ok);
        assert(all.skip(2) =~= args.skip(2) + seq![flag, t]);
        lemma_scan_last_target_wins(args.skip(2), Some(args[1]), flag, t);
        assert(spec_scan_target_args(all, selected) == spec_scan_target_args(all.skip(2), Some(args[1])));
    }
}

/// A command line whose last words are `--target t` for a supported `t`
/// works on `t` alone, and one without arguments works on every supported
/// target.
pub proof fn lemma_parse_last_target(args: Seq<Seq<char>>, flag: Seq<char>, t: Seq<char>)
    requires
        spec_scan_target_args(args, None) is Ok,
        is_target_flag(flag),
    ensures
        spec_targets().contains(t) ==> spec_parse_target_arg(args + seq![flag, t]) == Ok::<
            Seq<Seq<char>>,
            Seq<char>,
        >(seq![t]),
        !spec_targets().contains(t) ==> spec_parse_target_arg(args + seq![flag, t]) is Err,
        spec_parse_target_arg(Seq::empty()) == Ok::<Seq<Seq<char>>, Seq<char>>(spec_targets()),
{
    lemma_scan_last_target_wins(args, None, flag, t);
}

} // verus!
