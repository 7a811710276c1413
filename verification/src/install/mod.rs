//! Functionality related to installing prebuilt binaries and/or running cargo install.

pub mod arch;
pub mod krate;
pub mod mode;
pub mod os;
pub mod tool;

pub use self::krate::Krate;
pub use self::mode::InstallMode;
pub use self::tool::Tool;

use vstd::prelude::*;
use crate::binary_install::{Cache, Download};
use crate::binary_install::path::path_join;
use crate::target::Platform;
use crate::text::{to_chars, from_chars, push_str, chars_eq, split_words, words, str_eq, contains_seq, occurs_at};

verus! {

/// Possible outcomes of attempting to find/install a tool
#[derive(Debug)]
pub enum Status {
    /// Couldn't install tool because downloads are forbidden by user
    CannotInstall,
    /// The current platform doesn't support precompiled binaries for this tool
    PlatformNotSupported,
    /// We found the tool at the specified path
    Found(Download),
}

/// The message when a tool cannot be found or installed.
pub open spec fn cannot_install_message(tool: Tool) -> Seq<char> {
    "Not able to find or install a local "@ + tool.name_of() + "."@
}

/// The message when the platform is not supported for a tool.
pub open spec fn unsupported_platform_message(tool: Tool) -> Seq<char> {
    tool.name_of() + " does not currently support your platform."@
}

/// Handles possible installs status and returns the download or a error message
pub fn get_tool_path(status: &Status, tool: Tool) -> (r: Result<&Download, String>)
    ensures
        match status {
            Status::Found(d) => r == Ok::<&Download, String>(d),
            Status::CannotInstall => r matches Err(e) && e@ == cannot_install_message(tool),
            Status::PlatformNotSupported => r matches Err(e) && e@ == unsupported_platform_message(tool),
        },
{
    match status {
        Status::Found(download) => Ok(download),
        Status::CannotInstall => {
            let mut v: Vec<char> = Vec::new();
            push_str(&mut v, "Not able to find or install a local ");
            push_str(&mut v, tool.name());
            push_str(&mut v, ".");
            proof {
                reveal_strlit("Not able to find or install a local ");
                reveal_strlit(".");
                assert(v@ =~= cannot_install_message(tool));
            }
            Err(from_chars(&v))
        },
        Status::PlatformNotSupported => {
            let mut v: Vec<char> = Vec::new();
            push_str(&mut v, tool.name());
            push_str(&mut v, " does not currently support your platform.");
            proof {
                reveal_strlit(" does not currently support your platform.");
                assert(v@ =~= unsupported_platform_message(tool));
            }
            Err(from_chars(&v))
        },
    }
}

/// The version a tool is expected at: `latest` stands for the newest
/// published one.
pub open spec fn expected_version_of(expected: Seq<char>, latest: Seq<char>) -> Seq<char> {
    if expected == "latest"@ { latest } else { expected }
}

/// Check if the tool dependency is locally satisfied: the installed version
/// equals the expected one, where `latest` stands for `latest_version`.
pub fn check_version(installed_version: &str, expected_version: &str, latest_version: &str) -> (r: bool)
    ensures
        r == (installed_version@ == expected_version_of(expected_version@, latest_version@)),
{
    proof {
        reveal_strlit("latest");
    }
    let expected = if str_eq(expected_version, "latest") { latest_version } else { expected_version };
    str_eq(installed_version, expected)
}

/// The message when a tool's `--version` output cannot be read.
pub open spec fn unknown_cli_version_message() -> Seq<char> {
    "Something went wrong! We couldn't determine your version of the wasm-bindgen CLI. We were supposed to set that up for you, so it's likely not your fault! You should file an issue: https://github.com/rustwasm/wasm-pack/issues/new?template=bug_report.md."@
}

/// Reads the version of a CLI tool from what its `--version` prints: the
/// second whitespace-separated word.
pub fn get_cli_version(stdout: &str) -> (r: Result<String, String>)
    ensures
        words(stdout@).len() >= 2 ==> (r matches Ok(v) && v@ == words(stdout@)[1]),
        words(stdout@).len() < 2 ==> (r matches Err(e) && e@ == unknown_cli_version_message()),
{
    let cs = to_chars(stdout);
    let ws = split_words(&cs);
    if ws.len() >= 2 {
        Ok(from_chars(&ws[1]))
    } else {
        Err(String::from_str("Something went wrong! We couldn't determine your version of the wasm-bindgen CLI. We were supposed to set that up for you, so it's likely not your fault! You should file an issue: https://github.com/rustwasm/wasm-pack/issues/new?template=bug_report.md."))
    }
}

/// The target triple (or binaryen platform name) of the prebuilt `tool` for
/// `p`, if one is published.
pub open spec fn prebuilt_target_of(tool: Tool, p: Platform) -> Option<Seq<char>> {
    if p.linux && p.x86_64 {
        if tool is WasmOpt { Some("x86-linux"@) } else { Some("x86_64-unknown-linux-musl"@) }
    } else if p.linux && p.x86 {
        if tool is WasmOpt { Some("x86-linux"@) } else { None }
    } else if p.macos && (p.x86_64 || p.aarch64) {
        Some("x86_64-apple-darwin"@)
    } else if p.windows && p.x86_64 {
        if tool is WasmOpt { Some("x86-windows"@) } else { Some("x86_64-pc-windows-msvc"@) }
    } else if p.windows && p.x86 {
        if tool is WasmOpt { Some("x86-windows"@) } else { None }
    } else {
        None
    }
}

/// A prebuilt binary is built for the platform it is downloaded for: on a
/// platform with one operating system its target names that system
/// (`linux`, macOS's `darwin`, or `windows`), and on 64-bit x86 Linux and Windows the tools other than
/// `wasm-opt` use the `x86_64-unknown-linux-musl` and
/// `x86_64-pc-windows-msvc` triples.
pub proof fn lemma_prebuilt_target_fits_the_platform(tool: Tool, p: Platform)
    ensures
        prebuilt_target_of(tool, p) matches Some(t) ==> {
            &&& p.linux && !p.macos && !p.windows ==> contains_seq(t, "linux"@)
            &&& p.macos && !p.linux && !p.windows ==> contains_seq(t, "darwin"@)
            &&& p.windows && !p.linux && !p.macos ==> contains_seq(t, "windows"@)
        },
        p.linux && p.x86_64 && !(tool is WasmOpt) ==> prebuilt_target_of(tool, p) == Some(
            "x86_64-unknown-linux-musl"@,
        ),
        !p.linux && !p.macos && p.windows && p.x86_64 && !(tool is WasmOpt) ==> prebuilt_target_of(tool, p)
            == Some("x86_64-pc-windows-msvc"@),
{
    reveal_strlit("x86-linux");
    reveal_strlit("x86_64-unknown-linux-musl");
    reveal_strlit("x86_64-apple-darwin");
    reveal_strlit("x86-windows");
    reveal_strlit("x86_64-pc-windows-msvc");
    reveal_strlit("linux");
    reveal_strlit("darwin");
    reveal_strlit("windows");
    assert("x86-linux"@.subrange(4, 9) =~= "linux"@);
    assert(occurs_at("x86-linux"@, "linux"@, 4));
    assert("x86_64-unknown-linux-musl"@.subrange(15, 20) =~= "linux"@);
    assert(occurs_at("x86_64-unknown-linux-musl"@, "linux"@, 15));
    assert("x86_64-apple-darwin"@.subrange(13, 19) =~= "darwin"@);
    assert(occurs_at("x86_64-apple-darwin"@, "darwin"@, 13));
    assert("x86-windows"@.subrange(4, 11) =~= "windows"@);
    assert(occurs_at("x86-windows"@, "windows"@, 4));
    assert("x86_64-pc-windows-msvc"@.subrange(10, 17) =~= "windows"@);
    assert(occurs_at("x86_64-pc-windows-msvc"@, "windows"@, 10));
    assert(contains_seq("x86-linux"@, "linux"@));
    assert(contains_seq("x86_64-unknown-linux-musl"@, "linux"@));
    assert(contains_seq("x86_64-apple-darwin"@, "darwin"@));
    assert(contains_seq("x86-windows"@, "windows"@));
    assert(contains_seq("x86_64-pc-windows-msvc"@, "windows"@));
}

/// `cargo install` installs `wasm-bindgen-cli` for `wasm-bindgen` and the
/// tool's own crate otherwise, forced, into `root`, at `version` unless the
/// latest is asked for.
pub proof fn lemma_cargo_install_args(tool: Tool, version: Seq<char>, root: Seq<char>)
    ensures
        ({
            let a = cargo_install_args_of(tool, version, root);
            &&& a.len() == if version == "latest"@ { 5int } else { 7int }
            &&& a[0] == "install"@ && a[1] == "--force"@ && a[3] == "--root"@ && a[4] == root
            &&& a[2] == match tool {
                Tool::WasmBindgen => "wasm-bindgen-cli"@,
                Tool::CargoGenerate => "cargo-generate"@,
                Tool::WasmOpt => "wasm-opt"@,
            }
            &&& version != "latest"@ ==> a[5] == "--version"@ && a[6] == version
        }),
{
}

/// The URL of the prebuilt `tool` at `version` for target `t`.
pub open spec fn prebuilt_url_for(tool: Tool, version: Seq<char>, t: Seq<char>) -> Seq<char> {
    match tool {
        Tool::WasmBindgen => "https://github.com/rustwasm/wasm-bindgen/releases/download/"@ + version
            + "/wasm-bindgen-"@ + version + "-"@ + t + ".tar.gz"@,
        Tool::CargoGenerate => "https://github.com/cargo-generate/cargo-generate/releases/download/v0.5.1/cargo-generate-v0.5.1-"@
            + t + ".tar.gz"@,
        Tool::WasmOpt => "https://github.com/WebAssembly/binaryen/releases/download/version_90/binaryen-version_90-"@
            + t + ".tar.gz"@,
    }
}

/// The message when no prebuilt binary exists for the platform.
pub open spec fn unrecognized_target_message() -> Seq<char> {
    "Unrecognized target!"@
}

/// Returns the URL of a precompiled version of `tool`, if we have one
/// available for the platform.
pub fn prebuilt_url(tool: &Tool, version: &str, platform: &Platform) -> (r: Result<String, String>)
    ensures
        match prebuilt_target_of(*tool, *platform) {
            Some(t) => r matches Ok(u) && u@ == prebuilt_url_for(*tool, version@, t),
            None => r matches Err(e) && e@ == unrecognized_target_message(),
        },
{
    let p = platform;
    let is_opt = match tool { Tool::WasmOpt => true, _ => false };
    let target: &str = if p.linux && p.x86_64 {
        if is_opt { "x86-linux" } else { "x86_64-unknown-linux-musl" }
    } else if p.linux && p.x86 {
        if is_opt { "x86-linux" } else { return Err(String::from_str("Unrecognized target!")) }
    } else if p.macos && (p.x86_64 || p.aarch64) {
        "x86_64-apple-darwin"
    } else if p.windows && p.x86_64 {
        if is_opt { "x86-windows" } else { "x86_64-pc-windows-msvc" }
    } else if p.windows && p.x86 {
        if is_opt { "x86-windows" } else { return Err(String::from_str("Unrecognized target!")) }
    } else {
        return Err(String::from_str("Unrecognized target!"));
    };
    assert(prebuilt_target_of(*tool, *platform) == Some(target@));
    let mut v: Vec<char> = Vec::new();
    match tool {
        Tool::WasmBindgen => {
            push_str(&mut v, "https://github.com/rustwasm/wasm-bindgen/releases/download/");
            push_str(&mut v, version);
            push_str(&mut v, "/wasm-bindgen-");
            push_str(&mut v, version);
            push_str(&mut v, "-");
            push_str(&mut v, target);
            push_str(&mut v, ".tar.gz");
        },
        Tool::CargoGenerate => {
            push_str(&mut v, "https://github.com/cargo-generate/cargo-generate/releases/download/v0.5.1/cargo-generate-v0.5.1-");
            push_str(&mut v, target);
            push_str(&mut v, ".tar.gz");
        },
        Tool::WasmOpt => {
            push_str(&mut v, "https://github.com/WebAssembly/binaryen/releases/download/version_90/binaryen-version_90-");
            push_str(&mut v, target);
            push_str(&mut v, ".tar.gz");
        },
    }
    assert(v@ =~= prebuilt_url_for(*tool, version@, target@));
    Ok(from_chars(&v))
}

/// The name under which a tool's prebuilt archive is cached, and the
/// binaries it must hold.
pub open spec fn prebuilt_binaries_of(tool: Tool) -> (Seq<char>, Seq<Seq<char>>) {
    match tool {
        Tool::WasmBindgen => ("wasm-bindgen"@, seq!["wasm-bindgen"@, "wasm-bindgen-test-runner"@]),
        Tool::CargoGenerate => ("cargo-generate"@, seq!["cargo-generate"@]),
        Tool::WasmOpt => ("wasm-opt"@, seq!["wasm-opt"@]),
    }
}

/// A download of a prebuilt tool to carry out.
#[derive(Debug)]
pub struct PrebuiltDownload {
    /// Where the archive is published.
    pub url: String,
    /// The name it is cached under.
    pub name: String,
    /// The binaries the archive must hold.
    pub binaries: Vec<String>,
}

/// The message when no prebuilt binaries exist for the platform.
pub open spec fn no_prebuilt_message(tool: Tool, reason: Seq<char>) -> Seq<char> {
    "no prebuilt "@ + tool.name_of() + " binaries are available for this platform: "@ + reason
}

/// Downloads a precompiled copy of the tool, if available: what to download
/// (its URL, cache name and expected binaries), or why nothing can be.
pub fn download_prebuilt(tool: &Tool, version: &str, platform: &Platform) -> (r: Result<PrebuiltDownload, String>)
    ensures
        match prebuilt_target_of(*tool, *platform) {
            Some(t) => r matches Ok(d) && d.url@ == prebuilt_url_for(*tool, version@, t)
                && d.name@ == prebuilt_binaries_of(*tool).0
                && crate::text::views(d.binaries@) == prebuilt_binaries_of(*tool).1,
            None => r matches Err(e) && e@ == no_prebuilt_message(*tool, unrecognized_target_message()),
        },
{
    let url = match prebuilt_url(tool, version, platform) {
        Ok(url) => url,
        Err(e) => {
            let mut v: Vec<char> = Vec::new();
            push_str(&mut v, "no prebuilt ");
            push_str(&mut v, tool.name());
            push_str(&mut v, " binaries are available for this platform: ");
            push_str(&mut v, e.as_str());
            proof {
                assert(v@ =~= no_prebuilt_message(*tool, e@));
            }
            return Err(from_chars(&v));
        },
    };
    let mut binaries: Vec<String> = Vec::new();
    let name = match tool {
        Tool::WasmBindgen => {
            binaries.push(String::from_str("wasm-bindgen"));
            binaries.push(String::from_str("wasm-bindgen-test-runner"));
            String::from_str("wasm-bindgen")
        },
        Tool::CargoGenerate => {
            binaries.push(String::from_str("cargo-generate"));
            String::from_str("cargo-generate")
        },
        Tool::WasmOpt => {
            binaries.push(String::from_str("wasm-opt"));
            String::from_str("wasm-opt")
        },
    };
    assert(crate::text::views(binaries@) =~= prebuilt_binaries_of(*tool).1);
    Ok(PrebuiltDownload { url, name, binaries })
}

/// The message when a prebuilt tool is not in the cache and may not be
/// downloaded.
pub open spec fn not_installed_message(tool: Tool, version: Seq<char>) -> Seq<char> {
    prebuilt_binaries_of(tool).0 + " v"@ + version + " is not installed!"@
}

/// The status of a prebuilt tool once its download was looked up: found, or
/// (when it may not be downloaded) an error, except that `wasm-opt` is then
/// simply not installable.
pub fn prebuilt_status(tool: &Tool, version: &str, download: Option<Download>) -> (r: Result<Status, String>)
    ensures
        match download {
            Some(d) => r matches Ok(s) && s matches Status::Found(e) && e@ == d@,
            None => if *tool is WasmOpt {
                r matches Ok(s) && s is CannotInstall
            } else {
                r matches Err(e) && e@ == not_installed_message(*tool, version@)
            },
        },
{
    match download {
        Some(d) => Ok(Status::Found(d)),
        None => match tool {
            Tool::WasmOpt => Ok(Status::CannotInstall),
            _ => {
                let mut v: Vec<char> = Vec::new();
                push_str(&mut v, tool.name());
                push_str(&mut v, " v");
                push_str(&mut v, version);
                push_str(&mut v, " is not installed!");
                proof {
                    assert(v@ =~= not_installed_message(*tool, version@));
                }
                Err(from_chars(&v))
            },
        },
    }
}

/// The cache directory a `cargo install` of `tool` at `version` goes to.
pub open spec fn cargo_install_dirname_of(tool: Tool, version: Seq<char>) -> Seq<char> {
    tool.name_of() + "-cargo-install-"@ + version
}

/// The crate `cargo install` installs for `tool`.
pub open spec fn cargo_crate_name_of(tool: Tool) -> Seq<char> {
    if tool is WasmBindgen { "wasm-bindgen-cli"@ } else { tool.name_of() }
}

/// The arguments of `cargo` that install `tool` at `version` into `root`.
pub open spec fn cargo_install_args_of(tool: Tool, version: Seq<char>, root: Seq<char>) -> Seq<Seq<char>> {
    seq!["install"@, "--force"@, cargo_crate_name_of(tool), "--root"@, root]
        + if version != "latest"@ { seq!["--version"@, version] } else { Seq::<Seq<char>>::empty() }
}

/// The binaries that `cargo install` of `tool` yields, or the error when it
/// cannot be installed that way.
pub open spec fn cargo_installed_binaries_of(tool: Tool) -> Option<Seq<Seq<char>>> {
    match tool {
        Tool::WasmBindgen => Some(seq!["wasm-bindgen"@, "wasm-bindgen-test-runner"@]),
        Tool::CargoGenerate => Some(seq!["cargo-generate"@]),
        Tool::WasmOpt => None,
    }
}

/// How a `cargo install` of a tool goes on.
#[derive(Debug)]
pub enum CargoInstallStep {
    /// It was installed before.
    Found(Download),
    /// It is not there and installing is not permitted.
    CannotInstall,
    /// Run `cargo` with `args`, then move each `(from, to)` of `renames`
    /// (or fail with the error), then move `tmp` to `destination`.
    Install {
        /// The temporary root of the installation.
        tmp: String,
        /// Where the installed binaries end up.
        destination: String,
        /// The arguments of `cargo`.
        args: Vec<String>,
        /// Where each binary is moved within `tmp`, or why none can be.
        renames: Result<Vec<(String, String)>, String>,
    },
}

/// The executable extension on the platform.
pub open spec fn exe_extension(windows: bool) -> Seq<char> {
    if windows { "exe"@ } else { Seq::<char>::empty() }
}

/// The directory a `cargo install` of `tool` at `version` goes to.
pub fn cargo_install_dir(tool: &Tool, cache: &Cache, version: &str) -> (r: String)
    ensures
        r@ == path_join(cache@, cargo_install_dirname_of(*tool, version@)),
{
    let mut v: Vec<char> = Vec::new();
    push_str(&mut v, tool.name());
    push_str(&mut v, "-cargo-install-");
    push_str(&mut v, version);
    assert(v@ =~= cargo_install_dirname_of(*tool, version@));
    let d = from_chars(&v);
    cache.join(d.as_str())
}

/// Use `cargo install` to install the tool locally into the given cache:
/// reuse an earlier install, give up when installing is not permitted, or
/// install into a hidden temporary directory and then move it into place.
pub fn cargo_install(
    tool: &Tool,
    cache: &Cache,
    version: &str,
    install_permitted: bool,
    destination_exists: bool,
    windows: bool,
) -> (r: CargoInstallStep)
    ensures
        destination_exists ==> (r matches CargoInstallStep::Found(d)
            && d@ == path_join(cache@, cargo_install_dirname_of(*tool, version@))),
        !destination_exists && !install_permitted ==> r is CannotInstall,
        !destination_exists && install_permitted ==> (r matches CargoInstallStep::Install { tmp, destination, args, renames }
            && destination@ == path_join(cache@, cargo_install_dirname_of(*tool, version@))
            && tmp@ == path_join(cache@, seq!['.'] + cargo_install_dirname_of(*tool, version@))
            && crate::text::views(args@) == cargo_install_args_of(*tool, version@, tmp@)
            && match cargo_installed_binaries_of(*tool) {
                Some(bins) => renames matches Ok(rs) && rs@.len() == bins.len()
                    && forall|i: int| 0 <= i < bins.len() ==>
                        (#[trigger] rs@[i]).0@ == crate::binary_install::path::with_extension_of(
                            path_join(path_join(tmp@, "bin"@), bins[i]), exe_extension(windows))
                        && rs@[i].1@ == path_join(tmp@, crate::binary_install::path::with_extension_of(bins[i], exe_extension(windows))),
                None => renames matches Err(e) && e@ == "Cannot install wasm-opt with cargo."@,
            }),
{
    let destination = cargo_install_dir(tool, cache, version);
    if destination_exists {
        return CargoInstallStep::Found(Download::at(destination.as_str()));
    }
    if !install_permitted {
        return CargoInstallStep::CannotInstall;
    }
    let mut t: Vec<char> = Vec::new();
    t.push('.');
    push_str(&mut t, tool.name());
    push_str(&mut t, "-cargo-install-");
    push_str(&mut t, version);
    assert(t@ =~= seq!['.'] + cargo_install_dirname_of(*tool, version@));
    let t = from_chars(&t);
    let tmp = cache.join(t.as_str());
    let crate_name = match tool {
        Tool::WasmBindgen => String::from_str("wasm-bindgen-cli"),
        _ => String::from_str(tool.name()),
    };
    let mut args: Vec<String> = Vec::new();
    args.push(String::from_str("install"));
    args.push(String::from_str("--force"));
    args.push(crate_name);
    args.push(String::from_str("--root"));
    args.push(tmp.clone());
    proof {
        reveal_strlit("latest");
    }
    if !str_eq(version, "latest") {
        args.push(String::from_str("--version"));
        args.push(String::from_str(version));
    }
    assert(crate::text::views(args@) =~= cargo_install_args_of(*tool, version@, tmp@));
    let renames = match tool {
        Tool::WasmBindgen => {
            let mut rs: Vec<(String, String)> = Vec::new();
            rs.push(cargo_install_rename(tmp.as_str(), "wasm-bindgen", windows));
            rs.push(cargo_install_rename(tmp.as_str(), "wasm-bindgen-test-runner", windows));
            Ok(rs)
        },
        Tool::CargoGenerate => {
            let mut rs: Vec<(String, String)> = Vec::new();
            rs.push(cargo_install_rename(tmp.as_str(), "cargo-generate", windows));
            Ok(rs)
        },
        Tool::WasmOpt => Err(String::from_str("Cannot install wasm-opt with cargo.")),
    };
    CargoInstallStep::Install { tmp, destination, args, renames }
}

/// Where `cargo install` puts the binary `b` under `tmp`, and where it is
/// moved to.
fn cargo_install_rename(tmp: &str, b: &str, windows: bool) -> (r: (String, String))
    ensures
        r.0@ == crate::binary_install::path::with_extension_of(
            path_join(path_join(tmp@, "bin"@), b@), exe_extension(windows)),
        r.1@ == path_join(tmp@, crate::binary_install::path::with_extension_of(b@, exe_extension(windows))),
{
    let bin = crate::binary_install::path::join(tmp, "bin");
    let from = crate::binary_install::path::join(bin.as_str(), b);
    proof {
        reveal_strlit("exe");
        reveal_strlit("");
    }
    let ext = if windows { "exe" } else { "" };
    let from = crate::binary_install::path::with_extension(from.as_str(), ext);
    let name = crate::binary_install::path::with_extension(b, ext);
    let to = crate::binary_install::path::join(tmp, name.as_str());
    (from, to)
}

/// What getting a tool does next.
#[derive(Debug)]
pub enum ToolStep {
    /// The tool is settled.
    Done(Status),
    /// Try a prebuilt download.
    TryPrebuilt,
    /// Fall back to `cargo install`, after this warning.
    CargoInstall(String),
}

/// The warning when the prebuilt tool could not be had.
pub open spec fn prebuilt_failed_message(tool: Tool, reason: Seq<char>) -> Seq<char> {
    "could not download pre-built `"@ + tool.name_of() + "`: "@ + reason + ". Falling back to `cargo install`."@
}

/// Chooses where a tool comes from, in order: a copy already installed
/// locally in the cache (`local`, from an earlier prebuilt download or
/// `cargo install`), else the one installed globally in `global_dir` when
/// its version is the expected one (`version_ok`), else a prebuilt
/// download, else `cargo install`. `prebuilt` is how the prebuilt download
/// went, once it was tried.
pub fn download_prebuilt_or_cargo_install(
    tool: &Tool,
    local: Option<Download>,
    global_dir: Option<String>,
    version_ok: bool,
    prebuilt: Option<Result<Status, String>>,
) -> (r: ToolStep)
    ensures
        local is Some ==> (r matches ToolStep::Done(Status::Found(d)) && d@ == local->0@),
        local is None && global_dir is Some && version_ok ==> (r matches ToolStep::Done(Status::Found(d))
            && d@ == global_dir->0@),
        local is None && !(global_dir is Some && version_ok) ==> match prebuilt {
            None => r is TryPrebuilt,
            Some(Ok(s)) => r == ToolStep::Done(s),
            Some(Err(e)) => r matches ToolStep::CargoInstall(w) && w@ == prebuilt_failed_message(*tool, e@),
        },
{
    if let Some(d) = local {
        return ToolStep::Done(Status::Found(d));
    }
    if version_ok {
        if let Some(dir) = global_dir {
            return ToolStep::Done(Status::Found(Download::at(dir.as_str())));
        }
    }
    match prebuilt {
        None => ToolStep::TryPrebuilt,
        Some(Ok(s)) => ToolStep::Done(s),
        Some(Err(e)) => {
            let mut v: Vec<char> = Vec::new();
            push_str(&mut v, "could not download pre-built `");
            push_str(&mut v, tool.name());
            push_str(&mut v, "`: ");
            push_str(&mut v, e.as_str());
            push_str(&mut v, ". Falling back to `cargo install`.");
            proof {
                reveal_strlit("could not download pre-built `");
                reveal_strlit("`: ");
                reveal_strlit(". Falling back to `cargo install`.");
                assert(v@ =~= prebuilt_failed_message(*tool, e@));
            }
            ToolStep::CargoInstall(from_chars(&v))
        },
    }
}

} // verus!
