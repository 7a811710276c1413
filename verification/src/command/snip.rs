//! Options of snipping functions out of a wasm module.

use vstd::prelude::*;

verus! {

/// What to snip out of which module, and where to write the result.
#[derive(Debug)]
pub struct SnipOpitons {
    /// The module to snip.
    pub input: String,
    /// Where to write the result (stdout when absent).
    pub output: Option<String>,
    /// Functions to snip, by name.
    pub functions: Vec<String>,
    /// Functions to snip, by pattern.
    pub patterns: Vec<String>,
    /// Snip Rust's formatting machinery.
    pub snip_rust_fmt_code: bool,
    /// Snip Rust's panicking machinery.
    pub snip_rust_panicking_code: bool,
}

} // verus!
