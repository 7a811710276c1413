//! Functionality related to running `cargo-generate`.

use vstd::prelude::*;
use crate::text::views;

verus! {

/// The arguments of `cargo-generate` that create the project `name` from
/// `template`.
pub fn generate(template: &str, name: &str) -> (r: Vec<String>)
    ensures
        views(r@) == seq!["generate"@, "--git"@, template@, "--name"@, name@],
{
    let mut args: Vec<String> = Vec::new();
    args.push(String::from_str("generate"));
    args.push(String::from_str("--git"));
    args.push(String::from_str(template));
    args.push(String::from_str("--name"));
    args.push(String::from_str(name));
    assert(views(args@) =~= seq!["generate"@, "--git"@, template@, "--name"@, name@]);
    args
}

} // verus!
