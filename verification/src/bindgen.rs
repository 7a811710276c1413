//! Functionality related to running `wasm-bindgen`: which flags its version
//! understands, and the arguments it is run with.

use vstd::prelude::*;
use crate::binary_install::path::{join, path_join, with_extension, with_extension_of};
use crate::command::build::{BuildProfile, Target};
use crate::text::{from_chars, push_str, str_eq, views};
use crate::build::push_all_strings;

verus! {

/// What `semver::Version::parse` makes of `text`: major, minor and patch,
/// and whether the pre-release part is empty; or the error's message.
pub uninterp spec fn semver_parse(text: Seq<char>) -> Result<(u64, u64, u64, bool), Seq<char>>;

/// Parses a version with `semver::Version::parse`, keeping the parts that
/// decide how it compares with a plain release version; an error is given by
/// its message.
#[verifier::external_body]
fn parse_version(text: &str) -> (r: Result<(u64, u64, u64, bool), String>)
    ensures
        match r {
            Ok(v) => semver_parse(text@) == Ok::<(u64, u64, u64, bool), Seq<char>>(v),
            Err(e) => semver_parse(text@) == Err::<(u64, u64, u64, bool), Seq<char>>(e@),
        },
{
    match semver::Version::parse(text) {
        Ok(v) => Ok((v.major, v.minor, v.patch, v.pre.is_empty())),
        Err(e) => Err(e.to_string()),
    }
}

/// A parsed version is at least the release `major.minor.patch`: its numbers
/// are greater, or equal and it is not a pre-release (semver precedence).
pub open spec fn at_least(v: (u64, u64, u64, bool), major: u64, minor: u64, patch: u64) -> bool {
    v.0 > major || (v.0 == major && (v.1 > minor || (v.1 == minor && (v.2 > patch || (v.2 == patch && v.3)))))
}

/// Whether a parsed version is at least the release `major.minor.patch`.
pub fn version_at_least(v: (u64, u64, u64, bool), major: u64, minor: u64, patch: u64) -> (r: bool)
    ensures
        r == at_least(v, major, minor, patch),
{
    v.0 > major || (v.0 == major && (v.1 > minor || (v.1 == minor && (v.2 > patch || (v.2 == patch && v.3)))))
}

/// Whether the `wasm-bindgen` CLI at `cli_version` supports the web target
/// (version 0.2.39 on).
pub fn supports_web_target(cli_version: &str) -> (r: Result<bool, String>)
    ensures
        match semver_parse(cli_version@) {
            Ok(v) => r == Ok::<bool, String>(at_least(v, 0, 2, 39)),
            Err(e) => r matches Err(x) && x@ == e,
        },
{
    match parse_version(cli_version) {
        Ok(v) => Ok(version_at_least(v, 0, 2, 39)),
        Err(e) => Err(e),
    }
}

/// Whether the `wasm-bindgen` CLI at `cli_version` supports the `--target`
/// flag (version 0.2.40 on).
pub fn supports_dash_dash_target(cli_version: &str) -> (r: Result<bool, String>)
    ensures
        match semver_parse(cli_version@) {
            Ok(v) => r == Ok::<bool, String>(at_least(v, 0, 2, 40)),
            Err(e) => r matches Err(x) && x@ == e,
        },
{
    match parse_version(cli_version) {
        Ok(v) => Ok(version_at_least(v, 0, 2, 40)),
        Err(e) => Err(e),
    }
}

/// The message when the web target is asked of a too old `wasm-bindgen`.
pub open spec fn no_web_target_message() -> Seq<char> {
    "Your current version of wasm-bindgen does not support the 'web' target. Please update your project to wasm-bindgen version >= 0.2.39."@
}

/// The flag naming the target for versions of `wasm-bindgen` before 0.2.40.
pub open spec fn legacy_target_flag(target: Target) -> Seq<char> {
    match target {
        Target::Nodejs => "--nodejs"@,
        Target::NoModules => "--no-modules"@,
        Target::Web => "--web"@,
        Target::Bundler => "--browser"@,
        Target::Deno => "--deno"@,
    }
}

/// The flag naming the target for a `wasm-bindgen` that predates `--target`;
/// the web target needs version 0.2.39.
pub fn build_target_arg_legacy(target: Target, cli_version: &str) -> (r: Result<String, String>)
    ensures
        !(target is Web) ==> (r matches Ok(s) && s@ == legacy_target_flag(target)),
        target is Web ==> match semver_parse(cli_version@) {
            Ok(v) => if at_least(v, 0, 2, 39) {
                r matches Ok(s) && s@ == "--web"@
            } else {
                r matches Err(e) && e@ == no_web_target_message()
            },
            Err(e) => r matches Err(x) && x@ == e,
        },
{
    match target {
        Target::Nodejs => Ok(String::from_str("--nodejs")),
        Target::NoModules => Ok(String::from_str("--no-modules")),
        Target::Web => {
            match supports_web_target(cli_version) {
                Ok(true) => Ok(String::from_str("--web")),
                Ok(false) => Err(String::from_str(
                    "Your current version of wasm-bindgen does not support the 'web' target. Please update your project to wasm-bindgen version >= 0.2.39.",
                )),
                Err(e) => Err(e),
            }
        },
        Target::Bundler => Ok(String::from_str("--browser")),
        Target::Deno => Ok(String::from_str("--deno")),
    }
}

/// What `build_target_arg` yields for a version that parsed as `v`.
pub open spec fn target_arg_of(target: Target, v: (u64, u64, u64, bool)) -> Result<Seq<char>, Seq<char>> {
    if at_least(v, 0, 2, 40) {
        Ok(target.display_of())
    } else if target is Web && !at_least(v, 0, 2, 39) {
        Err(no_web_target_message())
    } else {
        Ok(legacy_target_flag(target))
    }
}

/// Every version of `wasm-bindgen` that takes `--target` also supports the
/// web target, so a parsed version is refused only for the web target and
/// only before 0.2.39.
pub proof fn lemma_target_arg_refuses_only_old_web(target: Target, v: (u64, u64, u64, bool))
    ensures
        at_least(v, 0, 2, 40) ==> at_least(v, 0, 2, 39),
        target_arg_of(target, v) is Err <==> (target is Web && !at_least(v, 0, 2, 39)),
{
}

/// The argument naming the target for the `wasm-bindgen` CLI whose version
/// parsed as `v`: the target's name from 0.2.40 on, the legacy flag before.
pub fn target_arg_for(target: Target, v: (u64, u64, u64, bool)) -> (r: Result<String, String>)
    ensures
        match target_arg_of(target, v) {
            Ok(s) => r matches Ok(x) && x@ == s,
            Err(e) => r matches Err(x) && x@ == e,
        },
{
    if version_at_least(v, 0, 2, 40) {
        return Ok(target.to_string());
    }
    match target {
        Target::Nodejs => Ok(String::from_str("--nodejs")),
        Target::NoModules => Ok(String::from_str("--no-modules")),
        Target::Web => if version_at_least(v, 0, 2, 39) {
            Ok(String::from_str("--web"))
        } else {
            Err(String::from_str(
                "Your current version of wasm-bindgen does not support the 'web' target. Please update your project to wasm-bindgen version >= 0.2.39.",
            ))
        },
        Target::Bundler => Ok(String::from_str("--browser")),
        Target::Deno => Ok(String::from_str("--deno")),
    }
}

/// The argument naming the target for the `wasm-bindgen` CLI at
/// `cli_version`: the target's name from 0.2.40 on, the legacy flag before.
pub fn build_target_arg(target: Target, cli_version: &str) -> (r: Result<String, String>)
    ensures
        match semver_parse(cli_version@) {
            Ok(v) => match target_arg_of(target, v) {
                Ok(s) => r matches Ok(x) && x@ == s,
                Err(e) => r matches Err(x) && x@ == e,
            },
            Err(e) => r matches Err(x) && x@ == e,
        },
{
    match parse_version(cli_version) {
        Ok(v) => target_arg_for(target, v),
        Err(e) => Err(e),
    }
}

/// How the configured profile asks `wasm-bindgen` to behave.
#[derive(Debug)]
pub struct BindgenProfile {
    /// Emit debug assertions in the JS glue (`--debug`).
    pub debug_js_glue: bool,
    /// Demangle the name section (else `--no-demangle`).
    pub demangle_name_section: bool,
    /// Keep DWARF debug info (`--keep-debug`).
    pub dwarf_debug_info: bool,
    /// Omit the default module path (`--omit-default-module-path`).
    pub omit_default_module_path: bool,
}

/// The directory cargo builds into: the value after the first
/// `--target-dir` among the extra options, if there is one.
pub open spec fn target_dir_of(extra: Seq<Seq<char>>, default: Seq<char>) -> Seq<char>
    decreases extra.len(),
{
    if extra.len() == 0 {
        default
    } else if extra[0] == "--target-dir"@ {
        if extra.len() >= 2 { extra[1] } else { default }
    } else {
        target_dir_of(extra.drop_first(), default)
    }
}

/// The directory cargo builds into, given the extra options and the
/// crate's own target directory.
pub fn target_directory(extra_options: &[String], default: &str) -> (r: String)
    ensures
        r@ == target_dir_of(views(extra_options@), default@),
{
    let mut i: usize = 0;
    proof {
        reveal_strlit("--target-dir");
    }
    assert(views(extra_options@).skip(0) =~= views(extra_options@));
    while i < extra_options.len()
        invariant
            i <= extra_options.len(),
            target_dir_of(views(extra_options@), default@) == target_dir_of(views(extra_options@).skip(i as int), default@),
        decreases extra_options.len() - i,
    {
        let ghost rest = views(extra_options@).skip(i as int);
        assert(rest[0] == extra_options@[i as int]@);
        if str_eq(extra_options[i].as_str(), "--target-dir") {
            if i + 1 < extra_options.len() {
                assert(rest[1] == extra_options@[i + 1]@);
                return extra_options[i + 1].clone();
            }
            return String::from_str(default);
        }
        assert(rest.drop_first() =~= views(extra_options@).skip(i + 1));
        i = i + 1;
    }
    assert(views(extra_options@).skip(i as int) =~= Seq::<Seq<char>>::empty());
    String::from_str(default)
}

/// Where the compiled `.wasm` of `crate_name` is.
pub open spec fn wasm_path_of(target_dir: Seq<char>, profile: BuildProfile, crate_name: Seq<char>) -> Seq<char> {
    with_extension_of(
        path_join(path_join(path_join(target_dir, "wasm32-unknown-unknown"@),
            if profile is Dev { "debug"@ } else { "release"@ }), crate_name),
        "wasm"@,
    )
}

/// The arguments `wasm-bindgen` is run with.
pub open spec fn bindgen_args_of(
    wasm_path: Seq<char>,
    out_dir: Seq<char>,
    out_name: Option<Seq<char>>,
    disable_dts: bool,
    weak_refs: bool,
    reference_types: bool,
    dash_dash_target: bool,
    target_arg: Seq<char>,
    p: BindgenProfile,
) -> Seq<Seq<char>> {
    seq![wasm_path, "--out-dir"@, out_dir, if disable_dts { "--no-typescript"@ } else { "--typescript"@ }]
        + flag_if(weak_refs, "--weak-refs"@)
        + flag_if(reference_types, "--reference-types"@)
        + (if dash_dash_target { seq!["--target"@, target_arg] } else { seq![target_arg] })
        + (match out_name { Some(n) => seq!["--out-name"@, n], None => Seq::empty() })
        + flag_if(p.debug_js_glue, "--debug"@)
        + flag_if(!p.demangle_name_section, "--no-demangle"@)
        + flag_if(p.dwarf_debug_info, "--keep-debug"@)
        + flag_if(p.omit_default_module_path, "--omit-default-module-path"@)
}

/// `[flag]` when `cond` holds, nothing otherwise.
#[verifier::opaque]
pub open spec fn flag_if(cond: bool, flag: Seq<char>) -> Seq<Seq<char>> {
    if cond { seq![flag] } else { Seq::empty() }
}

/// The view of an optional string.
pub open spec fn opt_view(o: Option<String>) -> Option<Seq<char>> {
    match o {
        Some(s) => Some(s@),
        None => None,
    }
}

/// The arguments of the `wasm-bindgen` CLI, whose version parsed as `v`,
/// that generate bindings for the crate's `.wasm`.
pub fn wasm_bindgen_args(
    crate_name: &str,
    crate_target_directory: &str,
    v: (u64, u64, u64, bool),
    out_dir: &str,
    out_name: &Option<String>,
    disable_dts: bool,
    weak_refs: bool,
    reference_types: bool,
    target: Target,
    profile: BuildProfile,
    bindgen_profile: &BindgenProfile,
    extra_options: &Vec<String>,
) -> (r: Result<Vec<String>, String>)
    ensures
        match target_arg_of(target, v) {
            Err(e) => r matches Err(x) && x@ == e,
            Ok(t) => r matches Ok(args) && views(args@) == bindgen_args_of(
                wasm_path_of(target_dir_of(views(extra_options@), crate_target_directory@), profile, crate_name@),
                out_dir@, opt_view(*out_name), disable_dts, weak_refs, reference_types,
                at_least(v, 0, 2, 40), t, *bindgen_profile),
        },
{
    let release_or_debug = match profile {
        BuildProfile::Release | BuildProfile::Profiling => "release",
        BuildProfile::Dev => "debug",
    };
    let target_dir = target_directory(extra_options, crate_target_directory);
    let p1 = join(target_dir.as_str(), "wasm32-unknown-unknown");
    let p2 = join(p1.as_str(), release_or_debug);
    let p3 = join(p2.as_str(), crate_name);
    proof {
        reveal_strlit("wasm");
    }
    let wasm_path = with_extension(p3.as_str(), "wasm");
    let target_arg = match target_arg_for(target, v) {
        Ok(t) => t,
        Err(e) => return Err(e),
    };
    let dash = version_at_least(v, 0, 2, 40);
    let args = bindgen_args(wasm_path, out_dir, out_name, disable_dts, weak_refs, reference_types, dash,
        target_arg, bindgen_profile);
    Ok(args)
}

/// The arguments of the `wasm-bindgen` CLI (at `cli_version`) that generate
/// bindings for the crate's `.wasm`.
pub fn wasm_bindgen_build(
    crate_name: &str,
    crate_target_directory: &str,
    cli_version: &str,
    out_dir: &str,
    out_name: &Option<String>,
    disable_dts: bool,
    weak_refs: bool,
    reference_types: bool,
    target: Target,
    profile: BuildProfile,
    bindgen_profile: &BindgenProfile,
    extra_options: &Vec<String>,
) -> (r: Result<Vec<String>, String>)
    ensures
        match semver_parse(cli_version@) {
            Err(e) => r matches Err(x) && x@ == e,
            Ok(v) => match target_arg_of(target, v) {
                Err(e) => r matches Err(x) && x@ == e,
                Ok(t) => r matches Ok(args) && views(args@) == bindgen_args_of(
                    wasm_path_of(target_dir_of(views(extra_options@), crate_target_directory@), profile, crate_name@),
                    out_dir@, opt_view(*out_name), disable_dts, weak_refs, reference_types,
                    at_least(v, 0, 2, 40), t, *bindgen_profile),
            },
        },
{
    match parse_version(cli_version) {
        Ok(v) => wasm_bindgen_args(crate_name, crate_target_directory, v, out_dir, out_name, disable_dts,
            weak_refs, reference_types, target, profile, bindgen_profile, extra_options),
        Err(e) => Err(e),
    }
}

/// The arguments of `wasm-bindgen`, in order.
fn bindgen_args(
    wasm_path: String,
    out_dir: &str,
    out_name: &Option<String>,
    disable_dts: bool,
    weak_refs: bool,
    reference_types: bool,
    dash: bool,
    target_arg: String,
    bindgen_profile: &BindgenProfile,
) -> (r: Vec<String>)
    ensures
        views(r@) == bindgen_args_of(wasm_path@, out_dir@, opt_view(*out_name), disable_dts, weak_refs,
            reference_types, dash, target_arg@, *bindgen_profile),
{
    let ghost t = target_arg@;
    let ghost w = wasm_path@;
    let mut args: Vec<String> = Vec::new();
    args.push(wasm_path);
    args.push(String::from_str("--out-dir"));
    args.push(String::from_str(out_dir));
    args.push(if disable_dts { String::from_str("--no-typescript") } else { String::from_str("--typescript") });
    let ghost a0 = views(args@);
    push_flag(&mut args, weak_refs, "--weak-refs");
    push_flag(&mut args, reference_types, "--reference-types");
    let ghost a1 = views(args@);
    if dash {
        args.push(String::from_str("--target"));
        args.push(target_arg);
    } else {
        args.push(target_arg);
    }
    let ghost a2 = views(args@);
    match out_name {
        Some(n) => {
            args.push(String::from_str("--out-name"));
            args.push(n.clone());
        },
        None => {},
    }
    let ghost a3 = views(args@);
    push_flag(&mut args, bindgen_profile.debug_js_glue, "--debug");
    push_flag(&mut args, !bindgen_profile.demangle_name_section, "--no-demangle");
    push_flag(&mut args, bindgen_profile.dwarf_debug_info, "--keep-debug");
    push_flag(&mut args, bindgen_profile.omit_default_module_path, "--omit-default-module-path");
    assert(a0 =~= seq![w, "--out-dir"@, out_dir@, if disable_dts { "--no-typescript"@ } else { "--typescript"@ }]);
    assert(a2 =~= a1 + (if dash { seq!["--target"@, t] } else { seq![t] }));
    assert(a3 =~= a2 + (match opt_view(*out_name) { Some(n) => seq!["--out-name"@, n], None => Seq::empty() }));
    args
}

/// Appends `flag` when `cond` holds.
fn push_flag(args: &mut Vec<String>, cond: bool, flag: &str)
    ensures
        views(final(args)@) == views(old(args)@) + flag_if(cond, flag@),
{
    reveal(flag_if);
    let ghost before = views(args@);
    if cond {
        args.push(String::from_str(flag));
    }
    assert(views(args@) =~= before + flag_if(cond, flag@));
}

} // verus!
