//! The platform capability switch.
//!
//! Keystroke injection goes through a platform scripting interpreter, and only
//! some platforms have an implemented strategy. The choice is an explicit
//! runtime value rather than a build-time branch, so the unsupported paths are
//! part of the verified logic.

use vstd::prelude::*;

verus! {

/// The platforms with an implemented keystroke-injection strategy, plus an
/// explicit fallback for every other system.
#[derive(Clone, Copy, PartialEq, Eq, Structural, Debug)]
pub enum Platform {
    MacOs,
    Windows,
    Unsupported,
}

impl Platform {
    /// A helper-process strategy for keystroke injection exists only on the
    /// supported platforms.
    pub open spec fn has_keystroke_helper(self) -> bool {
        !(self is Unsupported)
    }

    /// Runtime form of [`Platform::has_keystroke_helper`].
    pub fn keystroke_helper_available(&self) -> (b: bool)
        ensures
            b == self.has_keystroke_helper(),
    {
        match self {
            Platform::Unsupported => false,
            _ => true,
        }
    }
}

} // verus!
