//! Logging in to an npm registry.

use vstd::prelude::*;

verus! {

/// The registry used when none is given.
pub open spec fn default_npm_registry() -> Seq<char> {
    "https://registry.npmjs.org/"@
}

/// A login to carry out with `npm adduser`.
#[derive(Debug)]
pub struct NpmLogin {
    /// The registry.
    pub registry: String,
    /// The scope the credentials are for, if any.
    pub scope: Option<String>,
    /// The authentication strategy, if any.
    pub auth_type: Option<String>,
}

/// What logging in to npm does: the given registry, or the npm registry.
pub fn login(registry: Option<String>, scope: &Option<String>, auth_type: &Option<String>) -> (r: NpmLogin)
    ensures
        match registry {
            Some(g) => r.registry == g,
            None => r.registry@ == default_npm_registry(),
        },
        r.scope == *scope,
        r.auth_type == *auth_type,
{
    let registry = match registry {
        Some(g) => g,
        None => String::from_str("https://registry.npmjs.org/"),
    };
    NpmLogin { registry, scope: clone_opt(scope), auth_type: clone_opt(auth_type) }
}

/// A copy of an optional string.
pub fn clone_opt(o: &Option<String>) -> (r: Option<String>)
    ensures
        r == *o,
{
    match o {
        Some(s) => Some(s.clone()),
        None => None,
    }
}

} // verus!
