//! The platform the tool runs on, as plain facts.

use vstd::prelude::*;

verus! {

/// What is known of the host: its operating system and architecture.
#[derive(Clone, Copy, Debug)]
pub struct Platform {
    /// Running on Linux.
    pub linux: bool,
    /// Running on macOS.
    pub macos: bool,
    /// Running on Windows.
    pub windows: bool,
    /// On a 64-bit x86 processor.
    pub x86_64: bool,
    /// On a 32-bit x86 processor.
    pub x86: bool,
    /// On a 64-bit ARM processor.
    pub aarch64: bool,
}

} // verus!
