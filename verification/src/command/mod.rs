//! CLI command structures, parsing, and execution.

pub mod build;
pub mod init;
pub mod install;
pub mod login;
pub mod publish;
pub mod snip;
pub mod test;
pub mod utils;
pub mod watch;

use vstd::prelude::*;
use self::build::BuildOptions;
use self::login::NpmLogin;
use self::publish::access::Access;
use self::test::TestOptions;
use crate::install::InstallMode;

verus! {

/// The various kinds of commands that `wasm-pack` can execute.
#[derive(Debug)]
pub enum Command {
    /// Build your npm package.
    Build(BuildOptions),
    /// Create a tar of your npm package but don't publish.
    Pack {
        /// The name of the output directory where the npm package is stored
        pkg_directory: String,
        /// The path to the Rust crate.
        path: Option<String>,
    },
    /// Create a new project with a template.
    Generate {
        /// The name of the project
        name: String,
        /// The URL to the template
        template: String,
        /// Should we install or check the presence of binary tools.
        mode: InstallMode,
    },
    /// Pack up your npm package and publish.
    Publish {
        /// Sets the target environment.
        target: String,
        /// The access level for the package to be published
        access: Option<Access>,
        /// The distribution tag being used for publishing.
        tag: Option<String>,
        /// The name of the output directory where the npm package is stored
        pkg_directory: String,
        /// The path to the Rust crate.
        path: Option<String>,
    },
    /// Add an npm registry user account.
    Login {
        /// The base URL of the npm package registry.
        registry: Option<String>,
        /// The scope the credentials are for.
        scope: Option<String>,
        /// What authentication strategy to use.
        auth_type: Option<String>,
    },
    /// Test your wasm.
    Test(TestOptions),
}

/// What running a command comes to, with its choices made.
#[derive(Debug)]
pub enum Invocation {
    /// Build with these options.
    Build(BuildOptions),
    /// Pack the package of the crate at `path` (searched for when absent).
    Pack {
        /// The crate's path.
        path: Option<String>,
        /// The package directory's name.
        pkg_directory: String,
    },
    /// Generate a project from `template`.
    Generate {
        /// The template's URL.
        template: String,
        /// The project's name.
        name: String,
        /// Whether tools may be installed.
        install_permitted: bool,
    },
    /// Publish the package.
    Publish {
        /// The target environment.
        target: String,
        /// The crate's path.
        path: Option<String>,
        /// The access level.
        access: Option<Access>,
        /// The distribution tag.
        tag: Option<String>,
        /// The package directory's name.
        pkg_directory: String,
    },
    /// Log in to a registry.
    Login(NpmLogin),
    /// Test with these options.
    Test(TestOptions),
}

/// Run a command: what it comes to, with the install permission of its mode
/// and the default registry filled in.
pub fn run_wasm_pack(command: Command) -> (r: Invocation)
    ensures
        match command {
            Command::Build(o) => r == Invocation::Build(o),
            Command::Pack { pkg_directory, path } => r == (Invocation::Pack { path, pkg_directory }),
            Command::Generate { name, template, mode } => r == (Invocation::Generate {
                template,
                name,
                install_permitted: mode.permits_install(),
            }),
            Command::Publish { target, access, tag, pkg_directory, path } => r == (Invocation::Publish {
                target,
                path,
                access,
                tag,
                pkg_directory,
            }),
            Command::Login { registry, scope, auth_type } => r matches Invocation::Login(l) && l.scope == scope
                && l.auth_type == auth_type && match registry {
                    Some(g) => l.registry == g,
                    None => l.registry@ == self::login::default_npm_registry(),
                },
            Command::Test(o) => r == Invocation::Test(o),
        },
{
    match command {
        Command::Build(build_opts) => Invocation::Build(build_opts),
        Command::Pack { path, pkg_directory } => Invocation::Pack { path, pkg_directory },
        Command::Generate { template, name, mode } => Invocation::Generate {
            template,
            name,
            install_permitted: mode.install_permitted(),
        },
        Command::Publish { target, path, access, tag, pkg_directory } => Invocation::Publish {
            target,
            path,
            access,
            tag,
            pkg_directory,
        },
        Command::Login { registry, scope, auth_type } => Invocation::Login(self::login::login(registry, &scope, &auth_type)),
        Command::Test(test_opts) => Invocation::Test(test_opts),
    }
}

} // verus!
