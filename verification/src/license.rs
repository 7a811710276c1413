//! Copying `LICENSE` file(s) for the packaged wasm.

use vstd::prelude::*;
use crate::binary_install::path::{join, path_join, file_name, file_name_of};

verus! {

/// What to copy.
#[derive(Debug)]
pub enum LicensePlan {
    /// Copy each `LICENSE*` file of the crate directory.
    Glob {
        /// The pattern of the files.
        pattern: String,
    },
    /// Copy the named license file.
    File {
        /// The file to copy from.
        from: String,
        /// Where to copy it to.
        to: String,
    },
    /// Copy nothing.
    Nothing,
}

/// Decides what to copy into the package: with a `license` key, the
/// crate's `LICENSE*` files; else with a `license-file` key, that file;
/// else nothing.
pub fn copy_from_crate(license: &Option<String>, license_file: &Option<String>, path: &str, out_dir: &str) -> (r: LicensePlan)
    ensures
        license is Some ==> (r matches LicensePlan::Glob { pattern } && pattern@ == path_join(path@, "LICENSE*"@)),
        license is None && license_file is Some ==> (r matches LicensePlan::File { from, to }
            && from@ == path_join(path@, license_file->0@) && to@ == path_join(out_dir@, license_file->0@)),
        license is None && license_file is None ==> r is Nothing,
{
    match (license, license_file) {
        (Some(_), _) => LicensePlan::Glob { pattern: join(path, "LICENSE*") },
        (None, Some(f)) => LicensePlan::File { from: join(path, f.as_str()), to: join(out_dir, f.as_str()) },
        (None, None) => LicensePlan::Nothing,
    }
}

/// Where a license file the pattern matched is copied from and to: its file
/// name under the crate directory and under the package directory.
pub fn license_copy(matched: &str, path: &str, out_dir: &str) -> (r: Result<(String, String), String>)
    ensures
        match file_name_of(matched@) {
            Some(n) => r matches Ok(p) && p.0@ == path_join(path@, n) && p.1@ == path_join(out_dir@, n),
            None => r matches Err(e) && e@ == "Could not get file name from path"@,
        },
{
    match file_name(matched) {
        Some(n) => Ok((join(path, n.as_str()), join(out_dir, n.as_str()))),
        None => Err(String::from_str("Could not get file name from path")),
    }
}

} // verus!
