use vstd::prelude::*;

verus! {

/// The part of a crates.io crate record that is read: its newest version.
#[derive(Debug)]
pub struct Krate {
    /// The newest published version.
    pub max_version: String,
}

/// A crates.io response for one crate.
#[derive(Debug)]
pub struct KrateResponse {
    /// The crate record.
    pub krate: Krate,
}

} // verus!
