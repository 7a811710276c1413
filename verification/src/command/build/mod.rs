//! The `wasm-pack build` command's options: output target and build profile.

use vstd::prelude::*;
use crate::install::InstallMode;
use crate::text::{to_chars, chars_eq, push_str, from_chars};

verus! {

/// What sort of output we're going to be generating and flags we're invoking
/// `wasm-bindgen` with.
#[derive(Clone, Copy, Debug)]
pub enum Target {
    /// Default output mode or `--target bundler`, indicates output will be
    /// used with a bundle in a later step.
    Bundler,
    /// Correspond to `--target web` where the output is natively usable as an
    /// ES module in a browser and the wasm is manually instantiated.
    Web,
    /// Correspond to `--target nodejs` where the output is natively usable as
    /// a Node.js module loaded with `require`.
    Nodejs,
    /// Correspond to `--target no-modules` where the output is natively usable
    /// in a browser but pollutes the global namespace and must be manually
    /// instantiated.
    NoModules,
    /// Correspond to `--target deno` where the output is natively usable as
    /// a Deno module loaded with `import`.
    Deno,
}

impl Default for Target {
    fn default() -> (r: Target)
        ensures
            r is Bundler,
    {
        Target::Bundler
    }
}

/// The target a command-line value names, if any.
pub open spec fn target_of(s: Seq<char>) -> Option<Target> {
    if s == "bundler"@ || s == "browser"@ {
        Some(Target::Bundler)
    } else if s == "web"@ {
        Some(Target::Web)
    } else if s == "nodejs"@ {
        Some(Target::Nodejs)
    } else if s == "no-modules"@ {
        Some(Target::NoModules)
    } else if s == "deno"@ {
        Some(Target::Deno)
    } else {
        None
    }
}

impl Target {
    /// How the target displays.
    pub open spec fn display_of(self) -> Seq<char> {
        match self {
            Target::Bundler => "bundler"@,
            Target::Web => "web"@,
            Target::Nodejs => "nodejs"@,
            Target::NoModules => "no-modules"@,
            Target::Deno => "deno"@,
        }
    }

    /// How the target displays: its command-line name.
    pub fn to_string(&self) -> (r: String)
        ensures
            r@ == self.display_of(),
    {
        match self {
            Target::Bundler => String::from_str("bundler"),
            Target::Web => String::from_str("web"),
            Target::Nodejs => String::from_str("nodejs"),
            Target::NoModules => String::from_str("no-modules"),
            Target::Deno => String::from_str("deno"),
        }
    }

    /// Reads a target from its command-line name (`browser` also names the
    /// bundler target).
    pub fn from_str(s: &str) -> (r: Result<Target, String>)
        ensures
            match target_of(s@) {
                Some(t) => r == Ok::<Target, String>(t),
                None => r matches Err(e) && e@ == "Unknown target: "@ + s@,
            },
    {
        let v = to_chars(s);
        proof {
            reveal_strlit("bundler");
            reveal_strlit("browser");
            reveal_strlit("web");
            reveal_strlit("nodejs");
            reveal_strlit("no-modules");
            reveal_strlit("deno");
        }
        if chars_eq(&v, &to_chars("bundler")) || chars_eq(&v, &to_chars("browser")) {
            Ok(Target::Bundler)
        } else if chars_eq(&v, &to_chars("web")) {
            Ok(Target::Web)
        } else if chars_eq(&v, &to_chars("nodejs")) {
            Ok(Target::Nodejs)
        } else if chars_eq(&v, &to_chars("no-modules")) {
            Ok(Target::NoModules)
        } else if chars_eq(&v, &to_chars("deno")) {
            Ok(Target::Deno)
        } else {
            let mut e: Vec<char> = Vec::new();
            push_str(&mut e, "Unknown target: ");
            push_str(&mut e, s);
            Err(from_chars(&e))
        }
    }
}

/// Reading back the name a target displays as gives the same target, so
/// `Target::from_str(&t.to_string())` is `Ok(t)` for every target `t`.
pub proof fn lemma_target_round_trip(t: Target)
    ensures
        target_of(t.display_of()) == Some(t),
{
    reveal_strlit("bundler");
    reveal_strlit("browser");
    reveal_strlit("web");
    reveal_strlit("nodejs");
    reveal_strlit("no-modules");
    reveal_strlit("deno");
    // Apart from the two names of the bundler target, the names differ in
    // length.
    assert("bundler"@.len() == 7 && "browser"@.len() == 7 && "web"@.len() == 3);
    assert("nodejs"@.len() == 6 && "no-modules"@.len() == 10 && "deno"@.len() == 4);
}

/// The build profile controls whether optimizations, debug info, and assertions
/// are enabled or disabled.
#[derive(Clone, Copy, Debug)]
pub enum BuildProfile {
    /// Enable assertions and debug info. Disable optimizations.
    Dev,
    /// Enable optimizations. Disable assertions and debug info.
    Release,
    /// Enable optimizations and debug info. Disable assertions.
    Profiling,
}

/// Everything required to configure and run the `wasm-pack build` command.
#[derive(Debug)]
pub struct BuildOptions {
    /// The path to the Rust crate. If not set, searches up the path from the current directory.
    pub path: Option<String>,
    /// The npm scope to use in package.json, if any.
    pub scope: Option<String>,
    /// Sets steps to be run.
    pub mode: InstallMode,
    /// Whether no TypeScript declarations are generated.
    pub disable_dts: bool,
    /// Enable usage of the JS weak references proposal.
    pub weak_refs: bool,
    /// Enable usage of WebAssembly reference types.
    pub reference_types: bool,
    /// Sets the target environment.
    pub target: Target,
    /// Deprecated. Renamed to `--dev`.
    pub debug: bool,
    /// Create a development build.
    pub dev: bool,
    /// Create a release build.
    pub release: bool,
    /// Create a profiling build.
    pub profiling: bool,
    /// Sets the output directory with a relative path.
    pub out_dir: String,
    /// Sets the output file names. Defaults to package name.
    pub out_name: Option<String>,
    /// Option to not generate a package.json
    pub no_pack: bool,
    /// Option to skip optimization with wasm-opt
    pub no_opt: bool,
    /// List of extra options to pass to `cargo build`
    pub extra_options: Vec<String>,
}

/// The profile the `--dev`/`--debug`, `--release` and `--profiling` flags
/// select: at most one may be given; none means release.
pub open spec fn profile_of(dev: bool, release: bool, profiling: bool) -> Option<BuildProfile> {
    if !dev && !profiling {
        Some(BuildProfile::Release)
    } else if dev && !release && !profiling {
        Some(BuildProfile::Dev)
    } else if !dev && !release && profiling {
        Some(BuildProfile::Profiling)
    } else {
        None
    }
}

/// The build profile that the flags select, or the error when more than one
/// is given.
pub fn select_profile(dev: bool, debug: bool, release: bool, profiling: bool) -> (r: Result<BuildProfile, String>)
    ensures
        match profile_of(dev || debug, release, profiling) {
            Some(p) => r == Ok::<BuildProfile, String>(p),
            None => r matches Err(e) && e@ == "Can only supply one of the --dev, --release, or --profiling flags"@,
        },
{
    let dev = dev || debug;
    if !dev && !profiling {
        Ok(BuildProfile::Release)
    } else if dev && !release && !profiling {
        Ok(BuildProfile::Dev)
    } else if !dev && !release && profiling {
        Ok(BuildProfile::Profiling)
    } else {
        Err(String::from_str("Can only supply one of the --dev, --release, or --profiling flags"))
    }
}

/// The steps of `wasm-pack build`.
#[derive(Clone, Copy, Debug)]
pub enum BuildStep {
    /// Check the version of `rustc`.
    CheckRustcVersion,
    /// Check the crate's configuration.
    CheckCrateConfig,
    /// Check that the wasm target is installed.
    CheckForWasmTarget,
    /// Compile the crate to wasm.
    BuildWasm,
    /// Create the output directory.
    CreateDir,
    /// Get `wasm-bindgen`.
    InstallWasmBindgen,
    /// Generate the bindings.
    RunWasmBindgen,
    /// Optimize the wasm with `wasm-opt`.
    RunWasmOpt,
    /// Write `package.json`.
    CreateJson,
    /// Copy the crate's README.
    CopyReadme,
    /// Copy the crate's license.
    CopyLicense,
}

/// The steps of a build, in order: the checks unless forced, compiling,
/// the output directory and the bindings, optimizing unless disabled, and
/// the npm package files unless disabled.
pub open spec fn build_steps_of(mode: InstallMode, no_pack: bool, no_opt: bool) -> Seq<BuildStep> {
    (if mode is Force {
        Seq::<BuildStep>::empty()
    } else {
        seq![BuildStep::CheckRustcVersion, BuildStep::CheckCrateConfig, BuildStep::CheckForWasmTarget]
    }) + seq![BuildStep::BuildWasm, BuildStep::CreateDir, BuildStep::InstallWasmBindgen, BuildStep::RunWasmBindgen]
        + (if no_opt { Seq::<BuildStep>::empty() } else { seq![BuildStep::RunWasmOpt] })
        + (if no_pack {
        Seq::<BuildStep>::empty()
    } else {
        seq![BuildStep::CreateJson, BuildStep::CopyReadme, BuildStep::CopyLicense]
    })
}

/// Forcing a build skips exactly its three checks, and `no-install` runs
/// the same steps as the normal mode.
pub proof fn lemma_build_steps_by_mode(no_pack: bool, no_opt: bool)
    ensures
        build_steps_of(InstallMode::Force, no_pack, no_opt) == build_steps_of(InstallMode::Normal, no_pack, no_opt).skip(3),
        build_steps_of(InstallMode::Noinstall, no_pack, no_opt) == build_steps_of(InstallMode::Normal, no_pack, no_opt),
        build_steps_of(InstallMode::Normal, no_pack, no_opt).take(3)
            == seq![BuildStep::CheckRustcVersion, BuildStep::CheckCrateConfig, BuildStep::CheckForWasmTarget],
{
    let checks = seq![BuildStep::CheckRustcVersion, BuildStep::CheckCrateConfig, BuildStep::CheckForWasmTarget];
    let rest = seq![BuildStep::BuildWasm, BuildStep::CreateDir, BuildStep::InstallWasmBindgen, BuildStep::RunWasmBindgen]
        + (if no_opt { Seq::<BuildStep>::empty() } else { seq![BuildStep::RunWasmOpt] })
        + (if no_pack {
        Seq::<BuildStep>::empty()
    } else {
        seq![BuildStep::CreateJson, BuildStep::CopyReadme, BuildStep::CopyLicense]
    });
    assert(build_steps_of(InstallMode::Normal, no_pack, no_opt) =~= checks + rest);
    assert(build_steps_of(InstallMode::Force, no_pack, no_opt) =~= Seq::<BuildStep>::empty() + rest);
    assert((checks + rest).skip(3) =~= rest);
    assert((checks + rest).take(3) =~= checks);
    assert(Seq::<BuildStep>::empty() + rest =~= rest);
}

/// The steps a build with these options runs, in order.
pub fn get_process_steps(mode: InstallMode, no_pack: bool, no_opt: bool) -> (r: Vec<BuildStep>)
    ensures
        r@ == build_steps_of(mode, no_pack, no_opt),
{
    let mut steps: Vec<BuildStep> = Vec::new();
    match mode {
        InstallMode::Force => {},
        _ => {
            steps.push(BuildStep::CheckRustcVersion);
            steps.push(BuildStep::CheckCrateConfig);
            steps.push(BuildStep::CheckForWasmTarget);
        },
    }
    let ghost checks = steps@;
    steps.push(BuildStep::BuildWasm);
    steps.push(BuildStep::CreateDir);
    steps.push(BuildStep::InstallWasmBindgen);
    steps.push(BuildStep::RunWasmBindgen);
    let ghost core = steps@;
    if !no_opt {
        steps.push(BuildStep::RunWasmOpt);
    }
    let ghost optimized = steps@;
    if !no_pack {
        steps.push(BuildStep::CreateJson);
        steps.push(BuildStep::CopyReadme);
        steps.push(BuildStep::CopyLicense);
    }
    assert(core =~= checks + seq![BuildStep::BuildWasm, BuildStep::CreateDir, BuildStep::InstallWasmBindgen,
        BuildStep::RunWasmBindgen]);
    assert(optimized =~= core + (if no_opt { Seq::<BuildStep>::empty() } else { seq![BuildStep::RunWasmOpt] }));
    assert(steps@ =~= optimized + (if no_pack {
        Seq::<BuildStep>::empty()
    } else {
        seq![BuildStep::CreateJson, BuildStep::CopyReadme, BuildStep::CopyLicense]
    }));
    steps
}

} // verus!
