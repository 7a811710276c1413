//! The `init`, `pack` and `publish` workflow: its commands and the context
//! a command runs in.

use vstd::prelude::*;
use crate::command::init::{set_crate_path, crate_path_or_cwd};
use crate::command::login::clone_opt;
use crate::error::{Error, error_type_of};
use crate::manifest::CargoManifest;

verus! {

/// The commands of the workflow.
#[derive(Debug)]
pub enum Command {
    /// Initialize a package.json based on your compiled wasm.
    Init {
        /// The crate's path.
        path: Option<String>,
        /// The npm scope.
        scope: Option<String>,
    },
    /// Create a tar of your npm package but don't publish.
    Pack {
        /// The crate's path.
        path: Option<String>,
    },
    /// Pack up your npm package and publish.
    Publish {
        /// The crate's path.
        path: Option<String>,
    },
}

/// What a context does.
#[derive(Clone, Copy, Debug)]
pub enum Action {
    /// Initialize.
    Init,
    /// Pack.
    Pack,
    /// Publish.
    Publish,
}

/// The context a command runs in.
#[derive(Debug)]
pub struct Context {
    action: Action,
    path: String,
    scope: Option<String>,
    verbosity: u8,
    manifest: Option<CargoManifest>,
}

/// The action a command asks for.
pub open spec fn action_of(cmd: Command) -> Action {
    match cmd {
        Command::Init { .. } => Action::Init,
        Command::Pack { .. } => Action::Pack,
        Command::Publish { .. } => Action::Publish,
    }
}

/// The crate path a command gives, if any.
pub open spec fn path_arg_of(cmd: Command) -> Option<String> {
    match cmd {
        Command::Init { path, .. } => path,
        Command::Pack { path } => path,
        Command::Publish { path } => path,
    }
}

/// The scope a command gives: only `init` has one.
pub open spec fn scope_arg_of(cmd: Command) -> Option<String> {
    match cmd {
        Command::Init { scope, .. } => scope,
        _ => None,
    }
}

/// The action a command asks for.
pub fn get_cmd_action(cmd: &Command) -> (r: Action)
    ensures
        r == action_of(*cmd),
{
    match cmd {
        Command::Init { .. } => Action::Init,
        Command::Pack { .. } => Action::Pack,
        Command::Publish { .. } => Action::Publish,
    }
}

/// The crate path of a command: the given one, or the current directory.
pub fn get_cmd_path(cmd: &Command) -> (r: String)
    ensures
        r@ == crate_path_or_cwd(path_arg_of(*cmd)),
{
    let path = match cmd {
        Command::Init { path, .. } => clone_opt(path),
        Command::Pack { path } => clone_opt(path),
        Command::Publish { path } => clone_opt(path),
    };
    set_crate_path(path)
}

/// The npm scope of a command.
pub fn get_cmd_scope(cmd: &Command) -> (r: Option<String>)
    ensures
        r == scope_arg_of(*cmd),
{
    match cmd {
        Command::Init { scope, .. } => clone_opt(scope),
        _ => None,
    }
}

/// The crate path argument, or the current directory.
pub fn crate_path(path_arg: Option<String>) -> (r: String)
    ensures
        r@ == crate_path_or_cwd(path_arg),
{
    set_crate_path(path_arg)
}

impl Context {
    /// The action.
    pub closed spec fn action_of(&self) -> Action {
        self.action
    }

    /// The crate path.
    pub closed spec fn path_of(&self) -> Seq<char> {
        self.path@
    }

    /// The npm scope.
    pub closed spec fn scope_of(&self) -> Option<String> {
        self.scope
    }

    /// How verbose to be.
    pub closed spec fn verbosity_of(&self) -> u8 {
        self.verbosity
    }

    /// The crate manifest, once read.
    pub closed spec fn manifest_of(&self) -> Option<CargoManifest> {
        self.manifest
    }

    /// The context of `cmd` at the given verbosity.
    pub fn new(cmd: &Command, verbosity: u8) -> (r: Context)
        ensures
            r.action_of() == action_of(*cmd),
            r.path_of() == crate_path_or_cwd(path_arg_of(*cmd)),
            r.scope_of() == scope_arg_of(*cmd),
            r.verbosity_of() == verbosity,
            r.manifest_of() is None,
    {
        Context {
            action: get_cmd_action(cmd),
            path: get_cmd_path(cmd),
            scope: get_cmd_scope(cmd),
            verbosity,
            manifest: None,
        }
    }

    /// Whether the crate manifest still has to be read (it is read lazily,
    /// once).
    pub fn manifest_missing(&self) -> (r: bool)
        ensures
            r == (self.manifest_of() is None),
    {
        self.manifest.is_none()
    }

    /// Holds the manifest just read, unless one is held already.
    pub fn set_manifest(&mut self, manifest: CargoManifest)
        ensures
            final(self).manifest_of() == (if old(self).manifest_of() is Some {
                old(self).manifest_of()
            } else {
                Some(manifest)
            }),
            final(self).action_of() == old(self).action_of(),
            final(self).path_of() == old(self).path_of(),
            final(self).scope_of() == old(self).scope_of(),
            final(self).verbosity_of() == old(self).verbosity_of(),
    {
        if self.manifest.is_none() {
            self.manifest = Some(manifest);
        }
    }

    /// Return a borrow of the crate manifest, once it has been read.
    pub fn manifest(&self) -> (r: Option<&CargoManifest>)
        ensures
            match r {
                Some(m) => self.manifest_of() == Some(*m),
                None => self.manifest_of() is None,
            },
    {
        self.manifest.as_ref()
    }

    /// Run the command in the current context: the action to carry out.
    pub fn run(&self) -> (r: Action)
        ensures
            r == self.action_of(),
    {
        self.action
    }

    /// The crate path.
    pub fn path(&self) -> (r: &String)
        ensures
            r@ == self.path_of(),
    {
        &self.path
    }

    /// The npm scope.
    pub fn scope(&self) -> (r: &Option<String>)
        ensures
            *r == self.scope_of(),
    {
        &self.scope
    }
}

/// The message shown once the package was packed.
pub open spec fn packed_message() -> Seq<char> {
    "\u{1f392}  packed up your package!"@
}

/// The message shown once the package was published.
pub open spec fn published_message() -> Seq<char> {
    "\u{1f4a5}  published your package!"@
}

impl Context {
    /// Packs the package at the context's path: given how `npm pack` there
    /// went, the outcome and, on success, the message to show.
    pub fn pack(&self, npm_outcome: Result<(), Error>) -> (r: (Result<(), Error>, Option<String>))
        ensures
            r.0 == npm_outcome,
            npm_outcome is Ok ==> (r.1 matches Some(m) && m@ == packed_message()),
            npm_outcome is Err ==> r.1 is None,
    {
        let message = if npm_outcome.is_ok() {
            Some(String::from_str("\u{1f392}  packed up your package!"))
        } else {
            None
        };
        (npm_outcome, message)
    }

    /// Publishes the package at the context's path: given how `npm publish`
    /// there went, the outcome and, on success, the message to show.
    pub fn publish(&self, npm_outcome: Result<(), Error>) -> (r: (Result<(), Error>, Option<String>))
        ensures
            r.0 == npm_outcome,
            npm_outcome is Ok ==> (r.1 matches Some(m) && m@ == published_message()),
            npm_outcome is Err ==> r.1 is None,
    {
        let message = if npm_outcome.is_ok() {
            Some(String::from_str("\u{1f4a5}  published your package!"))
        } else {
            None
        };
        (npm_outcome, message)
    }
}

impl Context {
    /// How a run of the context ends, given the action's result `status`
    /// and how finishing the progress output (`done`) went: the report to
    /// show, made exactly when the action failed (its error's type), and
    /// the result, which is `status` unless `done` failed, whose error then
    /// wins.
    pub fn finish(&self, status: Result<(), Error>, done: Result<(), Error>) -> (r: (Option<String>, Result<(), Error>))
        ensures
            match status {
                Ok(_) => r.0 is None,
                Err(e) => r.0 matches Some(m) && m@ == error_type_of(e),
            },
            done is Err ==> r.1 == done,
            done is Ok ==> r.1 == status,
    {
        let report = match &status {
            Ok(()) => None,
            Err(e) => Some(e.error_type()),
        };
        let result = match done {
            Err(e) => Err(e),
            Ok(()) => status,
        };
        (report, result)
    }
}

} // verus!
