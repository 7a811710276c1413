//! Checking for the wasm32 target

use vstd::prelude::*;
use crate::binary_install::path::{join, path_join};
use crate::text::{from_chars, push_str, trim, trim_seq, str_contains, contains_seq};

verus! {

/// What was found out about the wasm32 target.
#[derive(Debug)]
pub struct Wasm32Check {
    /// The `rustc` in use.
    pub rustc_path: String,
    /// Its sysroot.
    pub sysroot: String,
    /// Whether the target was found.
    pub found: bool,
    /// Whether rustup is in use.
    pub is_rustup: bool,
}

/// Where the wasm32 target is in a sysroot.
pub open spec fn wasm32_target_path_of(sysroot: Seq<char>) -> Seq<char> {
    path_join(path_join(sysroot, "lib/rustlib"@), "wasm32-unknown-unknown"@)
}

/// Where to look for the wasm32-unknown-unknown target in `sysroot`.
pub fn wasm32_target_path(sysroot: &str) -> (r: String)
    ensures
        r@ == wasm32_target_path_of(sysroot@),
{
    let lib = join(sysroot, "lib/rustlib");
    join(lib.as_str(), "wasm32-unknown-unknown")
}

/// The sysroot `rustc --print sysroot` reported, or the error when it
/// failed (`status` is how its exit status displays).
pub fn get_rustc_sysroot(success: bool, stdout: &str, status: &str) -> (r: Result<String, String>)
    ensures
        success ==> (r matches Ok(s) && s@ == trim_seq(stdout@)),
        !success ==> (r matches Err(e) && e@ == "Getting rustc's sysroot wasn't successful. Got "@ + status@),
{
    if success {
        Ok(trim(stdout))
    } else {
        let mut v: Vec<char> = Vec::new();
        push_str(&mut v, "Getting rustc's sysroot wasn't successful. Got ");
        push_str(&mut v, status);
        Err(from_chars(&v))
    }
}

/// What to do about the wasm32 target.
#[derive(Debug)]
pub enum Wasm32Action {
    /// It is installed.
    Present,
    /// Add it with rustup.
    AddWithRustup,
    /// Report that it is missing (the path of `rustc` is still to be found).
    Missing,
}

/// Decides what to do about the wasm32 target, given whether it is in the
/// sysroot: nothing; add it with rustup when the sysroot's path mentions
/// rustup; report it missing otherwise.
pub fn check_wasm32_target(in_sysroot: bool, sysroot: &str) -> (r: Wasm32Action)
    ensures
        in_sysroot ==> r is Present,
        !in_sysroot && contains_seq(sysroot@, "rustup"@) ==> r is AddWithRustup,
        !in_sysroot && !contains_seq(sysroot@, "rustup"@) ==> r is Missing,
{
    if in_sysroot {
        Wasm32Action::Present
    } else if str_contains(sysroot, "rustup") {
        Wasm32Action::AddWithRustup
    } else {
        Wasm32Action::Missing
    }
}

/// How `str`'s `Debug` impl renders `s`: quoted, with std's escaping.
pub uninterp spec fn str_debug_form(s: Seq<char>) -> Seq<char>;

/// Renders `s` with `format!("{:?}", s)`; the result is the named function
/// of `s`.
#[verifier::external_body]
fn debug_quoted(s: &str) -> (r: String)
    ensures
        r@ == str_debug_form(s@),
{
    format!("{:?}", s)
}

/// The report on a missing target, given how the sysroot and the path of
/// `rustc` are shown.
pub open spec fn missing_target_report(sysroot_shown: Seq<char>, rustc_shown: Seq<char>, is_rustup: bool) -> Seq<char> {
    "wasm32-unknown-unknown target not found in sysroot: "@ + sysroot_shown + "\n"@
        + "\nUsed rustc from the following path: "@ + rustc_shown + "\n"@
        + (if is_rustup { "It looks like Rustup is being used."@ } else {
            "It looks like Rustup is not being used. For non-Rustup setups, the wasm32-unknown-unknown target needs to be installed manually. See https://rustwasm.github.io/wasm-pack/book/prerequisites/non-rustup-setups.html on how to do this."@
        }) + "\n"@
}

/// The summary of a found target, given how the paths are shown.
pub open spec fn found_target_report(sysroot_shown: Seq<char>, rustc_shown: Seq<char>, is_rustup: bool) -> Seq<char> {
    "sysroot: "@ + sysroot_shown + ", rustc path: "@ + rustc_shown + ", was found: true, isRustup: "@
        + (if is_rustup { "true"@ } else { "false"@ })
}

/// The text of a check, given how the sysroot and `rustc`'s path are shown.
pub fn report(sysroot_shown: &str, rustc_shown: &str, found: bool, is_rustup: bool) -> (r: String)
    ensures
        !found ==> r@ == missing_target_report(sysroot_shown@, rustc_shown@, is_rustup),
        found ==> r@ == found_target_report(sysroot_shown@, rustc_shown@, is_rustup),
{
    let mut v: Vec<char> = Vec::new();
    if !found {
        push_str(&mut v, "wasm32-unknown-unknown target not found in sysroot: ");
        push_str(&mut v, sysroot_shown);
        push_str(&mut v, "\n");
        push_str(&mut v, "\nUsed rustc from the following path: ");
        push_str(&mut v, rustc_shown);
        push_str(&mut v, "\n");
        if is_rustup {
            push_str(&mut v, "It looks like Rustup is being used.");
        } else {
            push_str(&mut v, "It looks like Rustup is not being used. For non-Rustup setups, the wasm32-unknown-unknown target needs to be installed manually. See https://rustwasm.github.io/wasm-pack/book/prerequisites/non-rustup-setups.html on how to do this.");
        }
        push_str(&mut v, "\n");
        assert(v@ =~= missing_target_report(sysroot_shown@, rustc_shown@, is_rustup));
    } else {
        push_str(&mut v, "sysroot: ");
        push_str(&mut v, sysroot_shown);
        push_str(&mut v, ", rustc path: ");
        push_str(&mut v, rustc_shown);
        push_str(&mut v, ", was found: true, isRustup: ");
        if is_rustup {
            push_str(&mut v, "true");
        } else {
            push_str(&mut v, "false");
        }
        assert(v@ =~= found_target_report(sysroot_shown@, rustc_shown@, is_rustup));
    }
    from_chars(&v)
}

impl Wasm32Check {
    /// What a check displays, with the paths shown as `{:?}` shows them.
    pub open spec fn display_of(&self) -> Seq<char> {
        let s = str_debug_form(self.sysroot@);
        let p = str_debug_form(self.rustc_path@);
        if self.found {
            found_target_report(s, p, self.is_rustup)
        } else {
            missing_target_report(s, p, self.is_rustup)
        }
    }

    /// What the check displays, with the paths shown as `{:?}` shows them.
    pub fn to_string(&self) -> (r: String)
        ensures
            r@ == self.display_of(),
    {
        let s = debug_quoted(self.sysroot.as_str());
        let p = debug_quoted(self.rustc_path.as_str());
        report(s.as_str(), p.as_str(), self.found, self.is_rustup)
    }
}

/// Ensure that the wasm32 target is there: no check result means it is; a
/// check that did not find it is the error, its text the message.
pub fn check_for_wasm32_target(check: Result<Option<Wasm32Check>, String>) -> (r: Result<(), String>)
    ensures
        match check {
            Ok(None) => r is Ok,
            Ok(Some(c)) => r matches Err(e) && e@ == c.display_of(),
            Err(e) => r == Err::<(), String>(e),
        },
{
    match check {
        Ok(None) => Ok(()),
        Ok(Some(wasm32_check)) => Err(wasm32_check.to_string()),
        Err(err) => Err(err),
    }
}

} // verus!
