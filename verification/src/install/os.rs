use vstd::prelude::*;
use crate::target::Platform;

verus! {

/// An enum representing supported operating systems
#[derive(Clone, Copy, Debug)]
pub enum Os {
    /// Linux operating system
    Linux,
    /// Macos operating system
    MacOS,
    /// Windows operating system
    Windows,
}

impl Os {
    /// Get the operating system of `platform`
    pub fn get(platform: &Platform) -> (r: Result<Self, String>)
        ensures
            platform.linux ==> r == Ok::<Os, String>(Os::Linux),
            !platform.linux && platform.macos ==> r == Ok::<Os, String>(Os::MacOS),
            !platform.linux && !platform.macos && platform.windows ==> r == Ok::<Os, String>(Os::Windows),
            !platform.linux && !platform.macos && !platform.windows ==> (r matches Err(e)
                && e@ == "Unrecognized target!"@),
    {
        if platform.linux {
            Ok(Os::Linux)
        } else if platform.macos {
            Ok(Os::MacOS)
        } else if platform.windows {
            Ok(Os::Windows)
        } else {
            Err(String::from_str("Unrecognized target!"))
        }
    }

    /// The OS name.
    pub open spec fn name_of(self) -> Seq<char> {
        match self {
            Os::Linux => "linux"@,
            Os::MacOS => "macOS"@,
            Os::Windows => "windows"@,
        }
    }

    /// Returns the OS name
    pub fn name(&self) -> (r: &'static str)
        ensures
            r@ == self.name_of(),
    {
        match self {
            Os::Linux => "linux",
            Os::MacOS => "macOS",
            Os::Windows => "windows",
        }
    }
}

} // verus!
