//! Publishing a package: finding its directory, or offering to build it.

/// Data structure to represent published package access level.
pub mod access;

use vstd::prelude::*;
use crate::command::build::{Target, target_of};
use crate::text::{decimal, decimal_string, from_chars, push_str};

verus! {

/// The message when no package directory is found, where `shown` is how the
/// crate path is shown.
pub open spec fn pkg_not_found_message(shown: Seq<char>) -> Seq<char> {
    "Unable to find the pkg directory at path '"@ + shown + "',or in a child directory of '"@ + shown
        + "'"@
}

/// The message when no package directory is found, where `shown` is how the
/// crate path is shown.
pub fn pkg_not_found(shown: &str) -> (r: String)
    ensures
        r@ == pkg_not_found_message(shown@),
{
    let mut v: Vec<char> = Vec::new();
    push_str(&mut v, "Unable to find the pkg directory at path '");
    push_str(&mut v, shown);
    push_str(&mut v, "',or in a child directory of '");
    push_str(&mut v, shown);
    push_str(&mut v, "'");
    proof {
        reveal_strlit("Unable to find the pkg directory at path '");
        reveal_strlit("',or in a child directory of '");
        reveal_strlit("'");
        assert(v@ =~= pkg_not_found_message(shown@));
    }
    from_chars(&v)
}

/// How publishing goes on once the package directory was looked for.
#[derive(Debug)]
pub enum PublishStep {
    /// Publish the package directory with npm.
    Publish {
        /// The package directory.
        pkg_directory: String,
    },
    /// Build the crate into `out_dir` for `target` first, then publish.
    BuildFirst {
        /// The output directory of the build.
        out_dir: String,
        /// The target of the build.
        target: Target,
    },
    /// Stop with this message.
    Fail(String),
}

/// Creates a tarball from a 'pkg' directory and publishes it to the NPM
/// registry: the package directory when one was `found`; otherwise, given
/// the answers to the offer to build it (`build`: the output directory
/// typed and the index of the target picked, or none when declined), a
/// build first or the failure. The picked index itself is read as the
/// target's name.
pub fn publish(found: Option<String>, build: Option<(String, usize)>, crate_path_shown: &str) -> (r: PublishStep)
    ensures
        match found {
            Some(p) => r == (PublishStep::Publish { pkg_directory: p }),
            None => match build {
                None => r matches PublishStep::Fail(m) && m@ == pkg_not_found_message(crate_path_shown@),
                Some(answer) => match target_of(decimal(answer.1 as nat)) {
                    Some(t) => r matches PublishStep::BuildFirst { out_dir, target }
                        && out_dir@ == answer.0@ + "/pkg"@ && target == t,
                    None => r matches PublishStep::Fail(m) && m@ == "Unknown target: "@ + decimal(answer.1 as nat),
                },
            },
        },
{
    match found {
        Some(p) => PublishStep::Publish { pkg_directory: p },
        None => match build {
            None => PublishStep::Fail(pkg_not_found(crate_path_shown)),
            Some((dir, index)) => {
                let name = decimal_string(index as u64);
                match Target::from_str(name.as_str()) {
                    Ok(target) => {
                        let mut v: Vec<char> = Vec::new();
                        push_str(&mut v, dir.as_str());
                        push_str(&mut v, "/pkg");
                        proof {
                            reveal_strlit("/pkg");
                        }
                        PublishStep::BuildFirst { out_dir: from_chars(&v), target }
                    },
                    Err(e) => PublishStep::Fail(e),
                }
            },
        },
    }
}

} // verus!
