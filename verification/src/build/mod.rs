//! Building a Rust crate into a `.wasm` binary: the `rustc` version check
//! and the `cargo` invocations.

pub mod wasm_target;

use vstd::prelude::*;
use crate::command::build::BuildProfile;
use crate::text::{to_chars, from_chars, push_str, push_decimal, decimal, split_chars, split_seq,
    chars_eq, parse_u32, parse_u32_spec, str_contains, contains_seq, views, lemma_split_nonempty};

verus! {

/// Used when comparing the currently installed
/// wasm-pack version with the latest on crates.io.
#[derive(Debug)]
pub struct WasmPackVersion {
    /// The currently installed wasm-pack version.
    pub local: String,
    /// The latest version of wasm-pack that's released at
    /// crates.io.
    pub latest: String,
}

/// The minor version `rustc --version` reports: its output up to the first
/// `.` must be `rustc 1`, and the next part is the number.
pub open spec fn rustc_minor_version_of(output: Seq<char>) -> Option<u32> {
    let pieces = split_seq(output, '.');
    if pieces[0] != "rustc 1"@ || pieces.len() < 2 {
        None
    } else {
        parse_u32_spec(pieces[1])
    }
}

/// Reads the minor version of Rust from what `rustc --version` prints.
pub fn rustc_minor_version(output: &str) -> (r: Option<u32>)
    ensures
        r == rustc_minor_version_of(output@),
{
    let cs = to_chars(output);
    let pieces = split_chars(&cs, '.');
    proof {
        lemma_split_nonempty(cs@, '.');
        reveal_strlit("rustc 1");
    }
    let head = to_chars("rustc 1");
    if !chars_eq(&pieces[0], &head) {
        return None;
    }
    if pieces.len() < 2 {
        return None;
    }
    parse_u32(&pieces[1])
}

/// The message when the Rust version is too old.
pub open spec fn old_rust_message(minor: nat) -> Seq<char> {
    "Your version of Rust, '1."@ + decimal(minor) + "', is not supported. Please install Rust version 1.30.0 or higher."@
}

/// The message when the Rust version is unknown.
pub open spec fn unknown_rust_message() -> Seq<char> {
    "We can't figure out what your Rust version is- which means you might not have Rust installed. Please install Rust version 1.30.0 or higher."@
}

/// Ensure that `rustc` is present and that it is >= 1.30.0: the minor
/// version as text, or why it is not usable.
pub fn check_rustc_version(local_minor_version: Option<u32>) -> (r: Result<String, String>)
    ensures
        match local_minor_version {
            Some(mv) => if mv < 30 {
                r matches Err(e) && e@ == old_rust_message(mv as nat)
            } else {
                r matches Ok(v) && v@ == decimal(mv as nat)
            },
            None => r matches Err(e) && e@ == unknown_rust_message(),
        },
{
    match local_minor_version {
        Some(mv) => {
            if mv < 30 {
                let mut v: Vec<char> = Vec::new();
                push_str(&mut v, "Your version of Rust, '1.");
                push_decimal(&mut v, mv as u64);
                push_str(&mut v, "', is not supported. Please install Rust version 1.30.0 or higher.");
                assert(v@ =~= old_rust_message(mv as nat));
                Err(from_chars(&v))
            } else {
                Ok(crate::text::decimal_string(mv as u64))
            }
        },
        None => Err(String::from_str(
            "We can't figure out what your Rust version is- which means you might not have Rust installed. Please install Rust version 1.30.0 or higher.",
        )),
    }
}

/// The message when the version of wasm-pack itself is unknown.
pub open spec fn unknown_wasm_pack_version_message() -> Seq<char> {
    "We can't figure out what your wasm-pack version is, make sure the installation path is correct."@
}

/// Checks and returns local and latest versions of wasm-pack: the local one
/// must be known; the latest (as looked up, or the lookup's error) is empty
/// when none was found.
pub fn check_wasm_pack_versions(local: Option<String>, latest: Result<Option<String>, String>) -> (r: Result<WasmPackVersion, String>)
    ensures
        match local {
            None => r matches Err(e) && e@ == unknown_wasm_pack_version_message(),
            Some(l) => match latest {
                Err(e) => r == Err::<WasmPackVersion, String>(e),
                Ok(Some(v)) => r matches Ok(w) && w.local == l && w.latest == v,
                Ok(None) => r matches Ok(w) && w.local == l && w.latest@.len() == 0,
            },
        },
{
    match local {
        Some(local) => {
            let latest = match latest {
                Ok(Some(v)) => v,
                Ok(None) => String::new(),
                Err(e) => return Err(e),
            };
            Ok(WasmPackVersion { local, latest })
        },
        None => Err(String::from_str(
            "We can't figure out what your wasm-pack version is, make sure the installation path is correct.",
        )),
    }
}

/// Some extra option names a crate type.
pub open spec fn names_crate_type(extra: Seq<Seq<char>>) -> bool {
    exists|i: int| 0 <= i < extra.len() && contains_seq(extra[i], "--crate-type"@)
}

/// Adds `--crate-type cdylib` to the arguments of `cargo rustc`, allowing
/// users to build without specifying cdylib in Cargo.toml, unless an extra
/// option already sets a crate type.
pub fn add_crate_type(args: &mut Vec<String>, extra_options: &[String])
    ensures
        names_crate_type(views(extra_options@)) ==> views(final(args)@) == views(old(args)@),
        !names_crate_type(views(extra_options@)) ==> views(final(args)@) == views(old(args)@)
            + seq!["--crate-type"@, "cdylib"@],
{
    let mut i: usize = 0;
    proof {
        reveal_strlit("--crate-type");
    }
    while i < extra_options.len()
        invariant
            i <= extra_options.len(),
            forall|k: int| 0 <= k < i ==> !contains_seq(extra_options@[k]@, "--crate-type"@),
        decreases extra_options.len() - i,
    {
        if str_contains(extra_options[i].as_str(), "--crate-type") {
            assert(views(extra_options@)[i as int] == extra_options@[i as int]@);
            return;
        }
        i = i + 1;
    }
    let ghost before = views(args@);
    args.push(String::from_str("--crate-type"));
    args.push(String::from_str("cdylib"));
    assert(views(args@) =~= before + seq!["--crate-type"@, "cdylib"@]);
}

/// The arguments of `cargo` that compile the library to wasm.
pub open spec fn cargo_build_wasm_args_of(profile: BuildProfile, quiet: bool, extra: Seq<Seq<char>>) -> Seq<Seq<char>> {
    seq!["rustc"@, "--lib"@]
        + (if quiet { seq!["--quiet"@] } else { Seq::empty() })
        + (if profile is Dev { Seq::empty() } else { seq!["--release"@] })
        + (if names_crate_type(extra) { Seq::empty() } else { seq!["--crate-type"@, "cdylib"@] })
        + seq!["--target"@, "wasm32-unknown-unknown"@]
        + extra
}

/// Run `cargo rustc` targetting `wasm32-unknown-unknown`: its arguments.
/// The release profile is used for release and profiling builds.
pub fn cargo_build_wasm(profile: BuildProfile, quiet: bool, extra_options: &[String]) -> (r: Vec<String>)
    ensures
        views(r@) == cargo_build_wasm_args_of(profile, quiet, views(extra_options@)),
{
    let mut args: Vec<String> = Vec::new();
    args.push(String::from_str("rustc"));
    args.push(String::from_str("--lib"));
    if quiet {
        args.push(String::from_str("--quiet"));
    }
    match profile {
        BuildProfile::Profiling => args.push(String::from_str("--release")),
        BuildProfile::Release => args.push(String::from_str("--release")),
        BuildProfile::Dev => {},
    }
    let ghost a0 = views(args@);
    add_crate_type(&mut args, extra_options);
    let ghost a1 = views(args@);
    args.push(String::from_str("--target"));
    args.push(String::from_str("wasm32-unknown-unknown"));
    let ghost a2 = views(args@);
    assert(a2 =~= a1 + seq!["--target"@, "wasm32-unknown-unknown"@]);
    push_all_strings(&mut args, extra_options);
    assert(a0 =~= seq!["rustc"@, "--lib"@]
        + (if quiet { seq!["--quiet"@] } else { Seq::empty() })
        + (if profile is Dev { Seq::empty() } else { seq!["--release"@] }));
    assert(a1 =~= a0 + (if names_crate_type(views(extra_options@)) { Seq::empty() } else { seq!["--crate-type"@, "cdylib"@] }));
    args
}

/// The arguments of `cargo` that compile the tests to wasm.
pub open spec fn cargo_build_wasm_tests_args_of(debug: bool, quiet: bool, extra: Seq<Seq<char>>) -> Seq<Seq<char>> {
    seq!["rustc"@, "--tests"@]
        + (if quiet { seq!["--quiet"@] } else { Seq::empty() })
        + (if debug { Seq::empty() } else { seq!["--release"@] })
        + seq!["--target"@, "wasm32-unknown-unknown"@]
        + extra
}

/// Runs `cargo rustc --tests` targeting `wasm32-unknown-unknown`: its
/// arguments.
pub fn cargo_build_wasm_tests(debug: bool, quiet: bool, extra_options: &[String]) -> (r: Vec<String>)
    ensures
        views(r@) == cargo_build_wasm_tests_args_of(debug, quiet, views(extra_options@)),
{
    let mut args: Vec<String> = Vec::new();
    args.push(String::from_str("rustc"));
    args.push(String::from_str("--tests"));
    if quiet {
        args.push(String::from_str("--quiet"));
    }
    if !debug {
        args.push(String::from_str("--release"));
    }
    args.push(String::from_str("--target"));
    args.push(String::from_str("wasm32-unknown-unknown"));
    let ghost a = views(args@);
    push_all_strings(&mut args, extra_options);
    assert(a =~= seq!["rustc"@, "--tests"@]
        + (if quiet { seq!["--quiet"@] } else { Seq::empty() })
        + (if debug { Seq::empty() } else { seq!["--release"@] })
        + seq!["--target"@, "wasm32-unknown-unknown"@]);
    args
}

/// Appends copies of `src` to `dst`.
pub fn push_all_strings(dst: &mut Vec<String>, src: &[String])
    ensures
        views(final(dst)@) == views(old(dst)@) + views(src@),
{
    let ghost start = views(dst@);
    let mut i: usize = 0;
    while i < src.len()
        invariant
            i <= src.len(),
            views(dst@) == start + views(src@).take(i as int),
        decreases src.len() - i,
    {
        let ghost prev = views(dst@);
        dst.push(src[i].clone());
        assert(views(dst@) =~= prev.push(src@[i as int]@));
        assert(views(src@).take(i + 1) =~= views(src@).take(i as int).push(src@[i as int]@));
        assert(views(dst@) =~= start + views(src@).take(i + 1));
        i = i + 1;
    }
    assert(views(src@).take(i as int) =~= views(src@));
}

} // verus!
