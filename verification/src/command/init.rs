//! Initializing a crate for packing `.wasm`s.

use vstd::prelude::*;

verus! {

/// Everything required to configure and run the `wasm-pack init` command.
#[derive(Debug)]
pub struct Init {
    crate_path: String,
    scope: Option<String>,
    disable_dts: bool,
    target: String,
}

/// `Init` options
#[derive(Debug)]
pub struct InitOptions {
    /// The path to the Rust crate.
    pub path: Option<String>,
    /// The npm scope to use in package.json, if any.
    pub scope: Option<String>,
    /// Whether no TypeScript declarations are generated.
    pub disable_dts: bool,
    /// Sets the target environment.
    pub target: String,
}

/// The steps of `wasm-pack init`.
#[derive(Clone, Copy, Debug)]
pub enum InitStep {
    /// Create the `pkg` directory.
    CreateDir,
    /// Write the `package.json`.
    CreateJson,
    /// Copy the README.
    CopyReadme,
}

/// The crate path a command uses: the given one, or the current directory.
pub open spec fn crate_path_or_cwd(path: Option<String>) -> Seq<char> {
    match path {
        Some(p) => p@,
        None => "."@,
    }
}

/// The given crate path, or the current directory.
pub fn set_crate_path(path: Option<String>) -> (r: String)
    ensures
        r@ == crate_path_or_cwd(path),
{
    match path {
        Some(p) => p,
        None => String::from_str("."),
    }
}

impl Init {
    /// The crate path.
    pub closed spec fn crate_path_of(&self) -> Seq<char> {
        self.crate_path@
    }

    /// The npm scope.
    pub closed spec fn scope_of(&self) -> Option<String> {
        self.scope
    }

    /// Whether no TypeScript declarations are generated.
    pub closed spec fn disable_dts_of(&self) -> bool {
        self.disable_dts
    }

    /// The target environment.
    pub closed spec fn target_of(&self) -> Seq<char> {
        self.target@
    }

    /// The command for the given options.
    pub fn from(init_opts: InitOptions) -> (r: Init)
        ensures
            r.crate_path_of() == crate_path_or_cwd(init_opts.path),
            r.scope_of() == init_opts.scope,
            r.disable_dts_of() == init_opts.disable_dts,
            r.target_of() == init_opts.target@,
    {
        let crate_path = set_crate_path(init_opts.path);
        Init {
            crate_path,
            scope: init_opts.scope,
            disable_dts: init_opts.disable_dts,
            target: init_opts.target,
        }
    }

    /// The steps of `init`: create the directory, write the `package.json`,
    /// copy the README.
    pub fn set_process_steps() -> (r: Vec<InitStep>)
        ensures
            r@ == seq![InitStep::CreateDir, InitStep::CreateJson, InitStep::CopyReadme],
    {
        let mut steps: Vec<InitStep> = Vec::new();
        steps.push(InitStep::CreateDir);
        steps.push(InitStep::CreateJson);
        steps.push(InitStep::CopyReadme);
        assert(steps@ =~= seq![InitStep::CreateDir, InitStep::CreateJson, InitStep::CopyReadme]);
        steps
    }

    /// The crate path.
    pub fn crate_path(&self) -> (r: &String)
        ensures
            r@ == self.crate_path_of(),
    {
        &self.crate_path
    }

    /// The npm scope.
    pub fn scope(&self) -> (r: &Option<String>)
        ensures
            *r == self.scope_of(),
    {
        &self.scope
    }

    /// Whether no TypeScript declarations are generated.
    pub fn disable_dts(&self) -> (r: bool)
        ensures
            r == self.disable_dts_of(),
    {
        self.disable_dts
    }

    /// The target environment.
    pub fn target(&self) -> (r: &String)
        ensures
            r@ == self.target_of(),
    {
        &self.target
    }
}

} // verus!
