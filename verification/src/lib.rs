//! Verified core of a Rust-to-WebAssembly packaging workflow tool: it builds
//! a crate to wasm, generates its JavaScript bindings, and prepares, packs
//! and publishes the npm package; it also installs the tools this needs.

pub mod binaries;
pub mod binary_install;
pub mod bindgen;
pub mod build;
pub mod cache;
pub mod child;
pub mod command;
pub mod config;
pub mod error;
pub mod generate;
pub mod install;
pub mod installer;
pub mod installer_page;
pub mod license;
pub mod lockfile;
pub mod logger;
pub mod manifest;
pub mod style;
pub mod target;
pub mod text;
pub mod workflow;

use vstd::prelude::*;
use crate::build::WasmPackVersion;
use crate::text::{to_chars, chars_eq, push_str, from_chars, str_eq};

verus! {

/// The most severe messages shown.
#[derive(Clone, Copy, Debug)]
pub enum LogLevel {
    /// Informational messages and up.
    Info,
    /// Warnings and errors.
    Warn,
    /// Errors only.
    Error,
}

/// The level a command-line value names, if any.
pub open spec fn log_level_of(s: Seq<char>) -> Option<LogLevel> {
    if s == "info"@ {
        Some(LogLevel::Info)
    } else if s == "warn"@ {
        Some(LogLevel::Warn)
    } else if s == "error"@ {
        Some(LogLevel::Error)
    } else {
        None
    }
}

/// Each log-level name selects the level of that name, and only the three
/// names select a level: `info` the informational level, `warn` warnings,
/// `error` errors only.
pub proof fn lemma_log_level_names(s: Seq<char>, l: LogLevel)
    ensures
        log_level_of(s) == Some(l) <==> s == match l {
            LogLevel::Info => "info"@,
            LogLevel::Warn => "warn"@,
            LogLevel::Error => "error"@,
        },
{
    reveal_strlit("info");
    reveal_strlit("warn");
    reveal_strlit("error");
    assert("info"@[0] != "warn"@[0]);
    assert("info"@.len() != "error"@.len() && "warn"@.len() != "error"@.len());
}

impl LogLevel {
    /// Reads a level from its command-line name.
    pub fn from_str(s: &str) -> (r: Result<LogLevel, String>)
        ensures
            match log_level_of(s@) {
                Some(l) => r == Ok::<LogLevel, String>(l),
                None => r matches Err(e) && e@ == "Unknown log-level: "@ + s@,
            },
    {
        let v = to_chars(s);
        proof {
            reveal_strlit("info");
            reveal_strlit("warn");
            reveal_strlit("error");
        }
        if chars_eq(&v, &to_chars("info")) {
            Ok(LogLevel::Info)
        } else if chars_eq(&v, &to_chars("warn")) {
            Ok(LogLevel::Warn)
        } else if chars_eq(&v, &to_chars("error")) {
            Ok(LogLevel::Error)
        } else {
            let mut e: Vec<char> = Vec::new();
            push_str(&mut e, "Unknown log-level: ");
            push_str(&mut e, s);
            Err(from_chars(&e))
        }
    }
}

/// The command line: pack and publish your wasm.
#[derive(Debug)]
pub struct Cli {
    /// The subcommand to run.
    pub cmd: command::Command,
    /// Log verbosity is based off the number of v used
    pub verbosity: u8,
    /// No output printed to stdout
    pub quiet: bool,
    /// The maximum level of messages that should be logged by wasm-pack.
    pub log_level: LogLevel,
}

/// A newer version is available: both versions are known and differ.
pub open spec fn update_available(v: WasmPackVersion) -> bool {
    v.local@.len() > 0 && v.latest@.len() > 0 && v.local@ != v.latest@
}

/// The notice of a newer version of wasm-pack, if one is available.
pub fn newer_version_notice(v: &WasmPackVersion) -> (r: Option<String>)
    ensures
        update_available(*v) ==> (r matches Some(m) && m@ == "There's a newer version of wasm-pack available, the new version is: "@
            + v.latest@ + ", you are using: "@ + v.local@
            + ". To update, navigate to: https://rustwasm.github.io/wasm-pack/installer/"@),
        !update_available(*v) ==> r is None,
{
    let l = to_chars(v.local.as_str());
    let n = to_chars(v.latest.as_str());
    if l.len() == 0 || n.len() == 0 || chars_eq(&l, &n) {
        return None;
    }
    let mut m: Vec<char> = Vec::new();
    push_str(&mut m, "There's a newer version of wasm-pack available, the new version is: ");
    push_str(&mut m, v.latest.as_str());
    push_str(&mut m, ", you are using: ");
    push_str(&mut m, v.local.as_str());
    push_str(&mut m, ". To update, navigate to: https://rustwasm.github.io/wasm-pack/installer/");
    Some(from_chars(&m))
}

} // verus!
