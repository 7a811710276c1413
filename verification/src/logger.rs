//! Where the log goes and how much of it.

use vstd::prelude::*;
use crate::binary_install::path::{join, path_join};

verus! {

/// How much is logged.
#[derive(Clone, Copy, Debug)]
pub enum Level {
    /// Errors only.
    Error,
    /// Informational messages on.
    Info,
    /// Debug messages on.
    Debug,
    /// Everything.
    Trace,
}

/// The level for the number of `-v` flags: errors only without any, then
/// info, debug, and trace from three on.
pub fn log_level(verbosity: u8) -> (r: Level)
    ensures
        verbosity == 0 ==> r is Error,
        verbosity == 1 ==> r is Info,
        verbosity == 2 ==> r is Debug,
        verbosity >= 3 ==> r is Trace,
{
    match verbosity {
        0 => Level::Error,
        1 => Level::Info,
        2 => Level::Debug,
        _ => Level::Trace,
    }
}

/// The current directory.
pub fn this_dir() -> (r: String)
    ensures
        r@ == "."@,
{
    String::from_str(".")
}

/// Where the manifest of the crate at `path` would be.
pub fn manifest_path(path: &str) -> (r: String)
    ensures
        r@ == path_join(path@, "Cargo.toml"@),
{
    join(path, "Cargo.toml")
}

/// Where the log goes: next to the crate's manifest when a crate path is
/// given and its manifest exists, else in the current directory.
pub fn log_file_path(path: &Option<String>, manifest_exists: bool) -> (r: String)
    ensures
        match path {
            Some(p) => if manifest_exists {
                r@ == path_join(p@, "wasm-pack.log"@)
            } else {
                r@ == path_join("."@, "wasm-pack.log"@)
            },
            None => r@ == path_join("."@, "wasm-pack.log"@),
        },
{
    match path {
        Some(p) => if manifest_exists {
            join(p.as_str(), "wasm-pack.log")
        } else {
            let d = this_dir();
            join(d.as_str(), "wasm-pack.log")
        },
        None => {
            let d = this_dir();
            join(d.as_str(), "wasm-pack.log")
        },
    }
}

} // verus!
