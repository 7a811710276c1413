use vstd::prelude::*;
use crate::text::{to_chars, chars_eq, push_str, from_chars};

verus! {

/// The `InstallMode` determines which mode of initialization we are running, and
/// what install steps we perform.
#[derive(Clone, Copy, Debug)]
pub enum InstallMode {
    /// Perform all the install steps.
    Normal,
    /// Don't install tools like `wasm-bindgen`, just use the global
    /// environment's existing versions to do builds.
    Noinstall,
    /// Skip the rustc version check
    Force,
}

impl Default for InstallMode {
    fn default() -> (r: Self)
        ensures
            r is Normal,
    {
        InstallMode::Normal
    }
}

/// The mode a command-line value names, if any.
pub open spec fn install_mode_of(s: Seq<char>) -> Option<InstallMode> {
    if s == "no-install"@ {
        Some(InstallMode::Noinstall)
    } else if s == "normal"@ {
        Some(InstallMode::Normal)
    } else if s == "force"@ {
        Some(InstallMode::Force)
    } else {
        None
    }
}

impl InstallMode {
    /// Whether this mode permits installing tools.
    pub open spec fn permits_install(self) -> bool {
        !(self is Noinstall)
    }

    /// Converts from the command-line value.
    pub fn parse(s: &str) -> (r: Result<Self, String>)
        ensures
            match install_mode_of(s@) {
                Some(m) => r == Ok::<InstallMode, String>(m),
                None => r matches Err(e) && e@ == "Unknown build mode: "@ + s@,
            },
    {
        let v = to_chars(s);
        let a = to_chars("no-install");
        let b = to_chars("normal");
        let c = to_chars("force");
        proof {
            reveal_strlit("no-install");
            reveal_strlit("normal");
            reveal_strlit("force");
            reveal_strlit("Unknown build mode: ");
        }
        if chars_eq(&v, &a) {
            Ok(InstallMode::Noinstall)
        } else if chars_eq(&v, &b) {
            Ok(InstallMode::Normal)
        } else if chars_eq(&v, &c) {
            Ok(InstallMode::Force)
        } else {
            let mut e: Vec<char> = Vec::new();
            push_str(&mut e, "Unknown build mode: ");
            push_str(&mut e, s);
            Err(from_chars(&e))
        }
    }

    /// Determines if installation is permitted during a function call based on --mode flag
    pub fn install_permitted(self) -> (r: bool)
        ensures
            r == self.permits_install(),
    {
        match self {
            InstallMode::Normal => true,
            InstallMode::Force => true,
            InstallMode::Noinstall => false,
        }
    }
}

} // verus!
