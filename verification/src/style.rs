//! Terminal styling of names in messages.

use vstd::prelude::*;

verus! {

/// `s` between the ANSI codes for bold and dim text and the reset code.
pub open spec fn ansi_bold_dim(s: Seq<char>) -> Seq<char> {
    seq!['\u{1b}', '[', '1', 'm', '\u{1b}', '[', '2', 'm'] + s + seq!['\u{1b}', '[', '0', 'm']
}

/// `console::style(s).bold().dim()` rendered as a string: `s` wrapped in the
/// ANSI codes for bold and dim when colors are enabled for stdout (which the
/// crate decides from the terminal and the environment), `s` itself
/// otherwise.
#[verifier::external_body]
pub(crate) fn bold_dim(s: &str) -> (r: String)
    ensures
        r@ == s@ || r@ == ansi_bold_dim(s@),
{
    console::style(s).bold().dim().to_string()
}

} // verus!
