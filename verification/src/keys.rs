//! The snapshot of currently held logical keys.
//!
//! The event layer that owns the real keyboard turns its press/release stream
//! into one of these plain snapshots before every frame, so the physics step
//! is a pure function of its inputs.

use vstd::prelude::*;

verus! {

/// Which logical keys are held during one frame.
///
/// `down` is part of the logical key set but no current profile assigns it an
/// action.
#[derive(Clone, Copy, Debug, PartialEq, Eq, Structural)]
pub struct HeldKeys {
    /// Thrust (jetpack) request.
    pub up: bool,
    /// Reserved direction key; ignored by the update step.
    pub down: bool,
    /// Steer left.
    pub left: bool,
    /// Steer right.
    pub right: bool,
    /// Grow the square.
    pub grow: bool,
    /// Shrink the square.
    pub shrink: bool,
}

impl HeldKeys {
    /// True when no key at all is held.
    pub open spec fn is_empty(self) -> bool {
        !self.up && !self.down && !self.left && !self.right && !self.grow && !self.shrink
    }

    /// The snapshot of a frame in which no key is held.
    pub fn none() -> (r: HeldKeys)
        ensures
            r.is_empty(),
    {
        HeldKeys { up: false, down: false, left: false, right: false, grow: false, shrink: false }
    }
}

} // verus!
