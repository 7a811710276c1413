//! Code related to error handling for wasm-pack

use vstd::prelude::*;
use crate::text::{push_str, from_chars};

verus! {

/// Errors that can potentially occur in `wasm-pack`.
#[derive(Debug)]
pub enum Error {
    /// An environment error, by its message.
    Env(String),
    /// An I/O error, by its message.
    Io(String),
    /// A JSON serialization or deserialization error, by its message.
    SerdeJson(String),
    /// A TOML serialization or deserialization error, by its message.
    SerdeToml(String),
    /// An error invoking another CLI tool.
    Cli {
        /// Error message.
        message: String,
        /// The underlying CLI's `stderr` output.
        stderr: String,
    },
    /// A crate configuration error.
    CrateConfig {
        /// A message describing the configuration error.
        message: String,
    },
    /// Error when the 'pkg' directory is not found.
    PkgNotFound {
        /// Message describing the error.
        message: String,
    },
}

/// The description of each kind of error.
pub open spec fn error_type_of(e: Error) -> Seq<char> {
    match e {
        Error::Env(_) => "There was an environment error. Details:\n\n"@,
        Error::Io(_) => "There was an I/O error. Details:\n\n"@,
        Error::SerdeJson(_) => "There was an JSON error. Details:\n\n"@,
        Error::SerdeToml(_) => "There was an TOML error. Details:\n\n"@,
        Error::Cli { .. } => "There was an error while calling another CLI tool. Details:\n\n"@,
        Error::CrateConfig { .. } => "There was a crate configuration error. Details:\n\n"@,
        Error::PkgNotFound { .. } => "Unable to find the 'pkg' directory at the path, set the path as the parent of the 'pkg' directory \n\n"@,
    }
}

/// What an error displays.
pub open spec fn display_of(e: Error) -> Seq<char> {
    match e {
        Error::Env(m) => m@,
        Error::Io(m) => m@,
        Error::SerdeJson(m) => m@,
        Error::SerdeToml(m) => m@,
        Error::Cli { message, stderr } => message@ + ". stderr:\n\n"@ + stderr@,
        Error::CrateConfig { message } => message@,
        Error::PkgNotFound { message } => message@,
    }
}

impl Error {
    /// Construct a CLI error.
    pub fn cli(message: &str, stderr: &str) -> (e: Self)
        ensures
            e matches Error::Cli { message: m, stderr: s } && m@ == message@ && s@ == stderr@,
    {
        Error::Cli { message: String::from_str(message), stderr: String::from_str(stderr) }
    }

    /// Construct a crate configuration error.
    pub fn crate_config(message: &str) -> (e: Self)
        ensures
            e matches Error::CrateConfig { message: m } && m@ == message@,
    {
        Error::CrateConfig { message: String::from_str(message) }
    }

    /// Get a string description of this error's type.
    pub fn error_type(&self) -> (r: String)
        ensures
            r@ == error_type_of(*self),
    {
        match self {
            Error::Env(_) => String::from_str("There was an environment error. Details:\n\n"),
            Error::Io(_) => String::from_str("There was an I/O error. Details:\n\n"),
            Error::SerdeJson(_) => String::from_str("There was an JSON error. Details:\n\n"),
            Error::SerdeToml(_) => String::from_str("There was an TOML error. Details:\n\n"),
            Error::Cli { .. } => String::from_str(
                "There was an error while calling another CLI tool. Details:\n\n",
            ),
            Error::CrateConfig { .. } => String::from_str(
                "There was a crate configuration error. Details:\n\n",
            ),
            Error::PkgNotFound { .. } => String::from_str(
                "Unable to find the 'pkg' directory at the path, set the path as the parent of the 'pkg' directory \n\n",
            ),
        }
    }

    /// What this error displays.
    pub fn to_string(&self) -> (r: String)
        ensures
            r@ == display_of(*self),
    {
        match self {
            Error::Env(m) => m.clone(),
            Error::Io(m) => m.clone(),
            Error::SerdeJson(m) => m.clone(),
            Error::SerdeToml(m) => m.clone(),
            Error::Cli { message, stderr } => {
                let mut v: Vec<char> = Vec::new();
                push_str(&mut v, message.as_str());
                push_str(&mut v, ". stderr:\n\n");
                push_str(&mut v, stderr.as_str());
                assert(v@ =~= display_of(*self));
                from_chars(&v)
            },
            Error::CrateConfig { message } => message.clone(),
            Error::PkgNotFound { message } => message.clone(),
        }
    }
}

} // verus!
