//! Self-installation of `wasm-pack`: where it goes and whether an existing
//! installation may be overwritten.

use vstd::prelude::*;
use crate::binary_install::path::{join, path_join, with_extension, with_extension_of};
use crate::command::utils::{parent, parent_of};
use crate::text::{to_chars, push_str, from_chars, starts_with_seq};

verus! {

/// The message when `rustup` is at the root of the file system.
pub open spec fn rustup_at_root_message() -> Seq<char> {
    "can't install when `rustup` is at the root of the filesystem"@
}

/// Where `wasm-pack` is installed: next to `rustup`, with the platform's
/// executable extension.
pub fn install_destination(rustup: &str, windows: bool) -> (r: Result<String, String>)
    ensures
        match parent_of(rustup@) {
            Some(dir) => r matches Ok(d) && d@ == with_extension_of(path_join(dir, "wasm-pack"@),
                if windows { "exe"@ } else { Seq::<char>::empty() }),
            None => r matches Err(e) && e@ == rustup_at_root_message(),
        },
{
    match parent(rustup) {
        Some(dir) => {
            let p = join(dir.as_str(), "wasm-pack");
            proof {
                reveal_strlit("exe");
                reveal_strlit("");
            }
            if windows {
                Ok(with_extension(p.as_str(), "exe"))
            } else {
                Ok(with_extension(p.as_str(), ""))
            }
        },
        None => Err(String::from_str("can't install when `rustup` is at the root of the filesystem")),
    }
}

/// The message when an installation exists and no answer can be asked for.
pub open spec fn existing_installation_message(dst: Seq<char>) -> Seq<char> {
    "existing wasm-pack installation found at `"@ + dst
        + "`, pass `-f` to force installation over this file, otherwise aborting installation now"@
}

/// Whether an existing installation at `dst` may be overwritten: always
/// with `-f`; otherwise only on an interactive terminal whose answer starts
/// with `y` or `Y`.
pub fn confirm_can_overwrite(dst: &str, force: bool, is_terminal: bool, answer: &str) -> (r: Result<(), String>)
    ensures
        force ==> r is Ok,
        !force && !is_terminal ==> (r matches Err(e) && e@ == existing_installation_message(dst@)),
        !force && is_terminal && (starts_with_seq(answer@, "y"@) || starts_with_seq(answer@, "Y"@)) ==> r is Ok,
        !force && is_terminal && !(starts_with_seq(answer@, "y"@) || starts_with_seq(answer@, "Y"@))
            ==> (r matches Err(e) && e@ == "aborting installation"@),
{
    if force {
        return Ok(());
    }
    if !is_terminal {
        let mut v: Vec<char> = Vec::new();
        push_str(&mut v, "existing wasm-pack installation found at `");
        push_str(&mut v, dst);
        push_str(&mut v, "`, pass `-f` to force installation over this file, otherwise aborting installation now");
        assert(v@ =~= existing_installation_message(dst@));
        return Err(from_chars(&v));
    }
    let a = to_chars(answer);
    proof {
        reveal_strlit("y");
        reveal_strlit("Y");
        assert(starts_with_seq(a@, "y"@) == (a@.len() > 0 && a@[0] == 'y')) by {
            assert("y"@.len() == 1 && "y"@[0] == 'y');
            if a@.len() > 0 && a@[0] == 'y' {
                assert(a@.subrange(0, 1) =~= "y"@);
            }
            if starts_with_seq(a@, "y"@) {
                assert(a@.subrange(0, 1)[0] == a@[0]);
            }
        }
        assert(starts_with_seq(a@, "Y"@) == (a@.len() > 0 && a@[0] == 'Y')) by {
            assert("Y"@.len() == 1 && "Y"@[0] == 'Y');
            if a@.len() > 0 && a@[0] == 'Y' {
                assert(a@.subrange(0, 1) =~= "Y"@);
            }
            if starts_with_seq(a@, "Y"@) {
                assert(a@.subrange(0, 1)[0] == a@[0]);
            }
        }
    }
    if a.len() > 0 && (a[0] == 'y' || a[0] == 'Y') {
        return Ok(());
    }
    Err(String::from_str("aborting installation"))
}

} // verus!
