use vstd::prelude::*;
use crate::target::Platform;

verus! {

/// An enum representing supported architectures
#[derive(Clone, Copy, Debug)]
pub enum Arch {
    /// x86 64-bit
    X86_64,
    /// x86 32-bit
    X86,
    /// ARM 64-bit
    AArch64,
}

impl Arch {
    /// Gets the architecture of `platform`
    pub fn get(platform: &Platform) -> (r: Result<Self, String>)
        ensures
            platform.x86_64 ==> r == Ok::<Arch, String>(Arch::X86_64),
            !platform.x86_64 && platform.x86 ==> r == Ok::<Arch, String>(Arch::X86),
            !platform.x86_64 && !platform.x86 && platform.aarch64 ==> r == Ok::<Arch, String>(Arch::AArch64),
            !platform.x86_64 && !platform.x86 && !platform.aarch64 ==> (r matches Err(e)
                && e@ == "Unrecognized target!"@),
    {
        if platform.x86_64 {
            Ok(Arch::X86_64)
        } else if platform.x86 {
            Ok(Arch::X86)
        } else if platform.aarch64 {
            Ok(Arch::AArch64)
        } else {
            Err(String::from_str("Unrecognized target!"))
        }
    }

    /// How the architecture displays.
    pub open spec fn display_of(self) -> Seq<char> {
        match self {
            Arch::X86_64 => "x86-64"@,
            Arch::X86 => "x86"@,
            Arch::AArch64 => "aarch64"@,
        }
    }

    /// How the architecture displays (`x86-64`, `x86`, `aarch64`).
    pub fn to_string(&self) -> (r: String)
        ensures
            r@ == self.display_of(),
    {
        match self {
            Arch::X86_64 => String::from_str("x86-64"),
            Arch::X86 => String::from_str("x86"),
            Arch::AArch64 => String::from_str("aarch64"),
        }
    }
}

} // verus!
