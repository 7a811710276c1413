//! Installing binaries from archives into a crate's `bin` directory.

use vstd::prelude::*;
use crate::binary_install::error::Error;
use crate::binary_install::ExpectedBinaries;
use crate::binary_install::path::{local_bin_path_for, local_bin_path_of};
use crate::text::{join_seq, push_str, from_chars, ends_with_seq};

pub use crate::binary_install::path::{local_bin_dir, local_bin_path};

verus! {

/// The message when the archive at `url` lacks some expected binaries.
pub open spec fn missing_at_url_message(zip: bool, url: Seq<char>, missing: Seq<Seq<char>>) -> Seq<char> {
    (if zip { "the zip at "@ } else { "the tarball at "@ }) + url
        + " was missing expected executables: "@ + join_seq(missing, ", "@)
}

/// The outcome of installing binaries from the archive at `url` once every
/// entry was looked at: success when none is still expected, else an
/// archive error naming those missing.
pub fn install_binaries_outcome(expected: &ExpectedBinaries, zip: bool, url: &str) -> (r: Result<(), Error>)
    ensures
        expected@.len() == 0 ==> r is Ok,
        expected@.len() > 0 ==> (r matches Err(e) && e is Archive
            && e.message_of() == missing_at_url_message(zip, url@, expected@)),
{
    if expected.is_empty() {
        return Ok(());
    }
    let mut v: Vec<char> = Vec::new();
    if zip {
        push_str(&mut v, "the zip at ");
    } else {
        push_str(&mut v, "the tarball at ");
    }
    push_str(&mut v, url);
    push_str(&mut v, " was missing expected executables: ");
    let m = expected.missing();
    push_str(&mut v, m.as_str());
    proof {
        reveal_strlit("the zip at ");
        reveal_strlit("the tarball at ");
        assert(v@ =~= missing_at_url_message(zip, url@, expected@));
    }
    let s = from_chars(&v);
    Err(Error::archive(s.as_str()))
}

/// The HTTP error for a failed download: the failure's message.
pub fn download_error(message: &str) -> (r: Error)
    ensures
        r is Http,
        r.message_of() == message@,
{
    Error::http(message)
}

/// Get the local (at `$CRATE/bin/$BIN`; preferred) or global (on `$PATH`)
/// path for the given binary, given whether the local one is a file and
/// what searching `$PATH` found.
pub fn bin_path(crate_path: &str, bin: &str, windows: bool, local_is_file: bool, global: Option<String>) -> (r: Option<String>)
    requires
        !ends_with_seq(bin@, ".exe"@),
    ensures
        local_is_file ==> (r matches Some(p) && p@ == local_bin_path_of(crate_path@, bin@, windows)),
        !local_is_file ==> r == global,
{
    if local_is_file {
        Some(local_bin_path_for(crate_path, bin, windows))
    } else {
        global
    }
}

/// The message when the tarball at `url` cannot be read.
pub open spec fn invalid_tarball_message(url: Seq<char>, inner: Seq<char>) -> Seq<char> {
    "Invalid tarball at "@ + url + ". Inner error: "@ + inner
}

/// The archive error when the tarball at `url` cannot be read, with the
/// reading error's message `inner`.
pub fn invalid_tarball(url: &str, inner: &str) -> (r: Error)
    ensures
        r is Archive,
        r.message_of() == invalid_tarball_message(url@, inner@),
{
    let mut v: Vec<char> = Vec::new();
    push_str(&mut v, "Invalid tarball at ");
    push_str(&mut v, url);
    push_str(&mut v, ". Inner error: ");
    push_str(&mut v, inner);
    proof {
        reveal_strlit("Invalid tarball at ");
        reveal_strlit(". Inner error: ");
        assert(v@ =~= invalid_tarball_message(url@, inner@));
    }
    let s = from_chars(&v);
    Error::archive(s.as_str())
}

} // verus!
