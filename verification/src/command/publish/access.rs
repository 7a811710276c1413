use vstd::prelude::*;
use crate::text::{to_chars, chars_eq, push_str, from_chars};

verus! {

/// Represents access level for the to-be publish package. Passed to `wasm-pack publish` as a flag, e.g. `--access=public`.
#[derive(Clone, Copy, Debug)]
pub enum Access {
    /// Access is granted to all. All unscoped packages *must* be public.
    Public,
    /// Access is restricted, granted via npm permissions. Must be a scoped package.
    Restricted,
}

/// The access level a command-line value names, if any.
pub open spec fn access_of(s: Seq<char>) -> Option<Access> {
    if s == "public"@ {
        Some(Access::Public)
    } else if s == "restricted"@ || s == "private"@ {
        Some(Access::Restricted)
    } else {
        None
    }
}

/// The message for an unknown access level.
pub open spec fn unknown_access_message(s: Seq<char>) -> Seq<char> {
    s + " is not a supported access level. See https://docs.npmjs.com/cli/access for more information on npm package access levels."@
}

impl Access {
    /// Reads an access level (`private` also names the restricted level).
    pub fn from_str(s: &str) -> (r: Result<Access, String>)
        ensures
            match access_of(s@) {
                Some(a) => r == Ok::<Access, String>(a),
                None => r matches Err(e) && e@ == unknown_access_message(s@),
            },
    {
        let v = to_chars(s);
        proof {
            reveal_strlit("public");
            reveal_strlit("restricted");
            reveal_strlit("private");
        }
        if chars_eq(&v, &to_chars("public")) {
            Ok(Access::Public)
        } else if chars_eq(&v, &to_chars("restricted")) || chars_eq(&v, &to_chars("private")) {
            Ok(Access::Restricted)
        } else {
            let mut e: Vec<char> = Vec::new();
            push_str(&mut e, s);
            push_str(&mut e, " is not a supported access level. See https://docs.npmjs.com/cli/access for more information on npm package access levels.");
            Err(from_chars(&e))
        }
    }

    /// The flag for `npm publish`.
    pub open spec fn flag_of(self) -> Seq<char> {
        match self {
            Access::Public => "--access=public"@,
            Access::Restricted => "--access=restricted"@,
        }
    }

    /// The flag for `npm publish` (how the level displays).
    pub fn to_string(&self) -> (r: String)
        ensures
            r@ == self.flag_of(),
    {
        match self {
            Access::Public => String::from_str("--access=public"),
            Access::Restricted => String::from_str("--access=restricted"),
        }
    }
}

} // verus!
