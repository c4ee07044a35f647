//! Pan/tilt positions and the arithmetic of relative moves.

use vstd::prelude::*;

verus! {

/// The signed 16-bit value that is congruent to `x` modulo 65536: what a
/// 16-bit two's-complement register holds after `x` has been stored in it.
pub open spec fn wrap_i16(x: int) -> int {
    (x + 0x8000) % 0x1_0000 - 0x8000
}

/// An absolute position of the mount, in device units.
#[derive(Clone, Copy, Debug, PartialEq, Eq, Structural)]
pub struct PositionValue {
    pub pan: i16,
    pub tilt: i16,
}

/// A displacement, in device units, to be added to a position.
#[derive(Clone, Copy, Debug, PartialEq, Eq, Structural)]
pub struct PositionDelta {
    pub pan: i16,
    pub tilt: i16,
}

impl PositionValue {
    /// The position reached from `self` by `delta`, each axis wrapping round
    /// the 16-bit range independently.
    pub open spec fn shifted(self, delta: PositionDelta) -> PositionValue {
        PositionValue {
            pan: wrap_i16(self.pan + delta.pan) as i16,
            tilt: wrap_i16(self.tilt + delta.tilt) as i16,
        }
    }

    /// Adds `delta` to `self` axis by axis. Overflow wraps, as it does in the
    /// actuator's registers; it is neither clamped nor reported.
    pub fn offset(self, delta: PositionDelta) -> (moved: PositionValue)
        ensures
            moved == self.shifted(delta),
            moved.pan as int == wrap_i16(self.pan + delta.pan),
            moved.tilt as int == wrap_i16(self.tilt + delta.tilt),
    {
        PositionValue {
            pan: self.pan.wrapping_add(delta.pan),
            tilt: self.tilt.wrapping_add(delta.tilt),
        }
    }
}

/// Keeps the low 16 bits of `x`, read as a signed number.
pub fn narrow(x: i32) -> (low: i16)
    ensures
        low as int == wrap_i16(x as int),
{
    let low: i16 = #[verifier::truncate] (x as i16);
    assert((x as i16) as int == (x as int + 0x8000) % 0x1_0000 - 0x8000) by (bit_vector);
    low
}

} // verus!
