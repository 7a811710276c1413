//! Judging the installs of the wasm target and of `wasm-bindgen-cli`.

use vstd::prelude::*;
use crate::error::Error;
use crate::text::{str_contains, contains_seq};

verus! {

/// The outcome of `rustup target add wasm32-unknown-unknown`, given whether
/// it succeeded and what it printed to stderr.
pub fn rustup_add_wasm_target(success: bool, stderr: &str) -> (r: Result<(), Error>)
    ensures
        success ==> r is Ok,
        !success ==> (r matches Err(e) && e matches Error::Cli { message, stderr: s }
            && message@ == "Adding the wasm32-unknown-unknown target failed"@ && s@ == stderr@),
{
    if !success {
        Err(Error::cli("Adding the wasm32-unknown-unknown target failed", stderr))
    } else {
        Ok(())
    }
}

/// The outcome of `cargo install wasm-bindgen-cli`, given whether it
/// succeeded and what it printed to stderr: a failure because it is already
/// installed counts as success.
pub fn cargo_install_wasm_bindgen(success: bool, stderr: &str) -> (r: Result<(), Error>)
    ensures
        success || contains_seq(stderr@, "already exists"@) ==> r is Ok,
        !success && !contains_seq(stderr@, "already exists"@) ==> (r matches Err(e)
            && e matches Error::Cli { message, stderr: s }
            && message@ == "Installing wasm-bindgen failed"@ && s@ == stderr@),
{
    if !success {
        if str_contains(stderr, "already exists") {
            return Ok(());
        }
        Err(Error::cli("Installing wasm-bindgen failed", stderr))
    } else {
        Ok(())
    }
}

} // verus!
