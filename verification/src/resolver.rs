//! From a requested update and the current position to an absolute target.

use crate::position::{PositionDelta, PositionValue};
use vstd::prelude::*;

verus! {

/// What a caller asks of the mount.
#[derive(Clone, Copy, Debug, PartialEq, Eq, Structural)]
pub enum RequestedUpdate {
    /// Go to this position.
    Absolute(PositionValue),
    /// Move by this much from wherever the mount is when the request starts.
    Relative(PositionDelta),
}

/// What an update comes to, once the current position is known.
#[derive(Clone, Copy, Debug, PartialEq, Eq, Structural)]
pub enum Resolution {
    /// The target is the current position: the actuator is left alone.
    AlreadyThere(PositionValue),
    /// The actuator has to be sent to this target, which differs from the
    /// current position.
    Move(PositionValue),
}

impl RequestedUpdate {
    /// The absolute target of this update when the mount stands at `current`.
    pub open spec fn target_from(self, current: PositionValue) -> PositionValue {
        match self {
            RequestedUpdate::Absolute(position) => position,
            RequestedUpdate::Relative(delta) => current.shifted(delta),
        }
    }

    /// The resolution of this update when the mount stands at `current`.
    pub open spec fn resolution_from(self, current: PositionValue) -> Resolution {
        if self.target_from(current) == current {
            Resolution::AlreadyThere(current)
        } else {
            Resolution::Move(self.target_from(current))
        }
    }

    /// Computes the absolute target: the requested position itself, or the
    /// current one displaced by the requested delta with 16-bit wraparound.
    pub fn target(&self, current: PositionValue) -> (target: PositionValue)
        ensures
            target == self.target_from(current),
    {
        match self {
            RequestedUpdate::Absolute(position) => *position,
            RequestedUpdate::Relative(delta) => current.offset(*delta),
        }
    }

    /// Decides whether the actuator has to be commanded at all. It has not
    /// exactly when the target equals `current` in both axes.
    pub fn resolve(&self, current: PositionValue) -> (resolution: Resolution)
        ensures
            resolution == self.resolution_from(current),
    {
        let target = self.target(current);
        if target == current {
            Resolution::AlreadyThere(current)
        } else {
            Resolution::Move(target)
        }
    }
}

} // verus!
