//! Exact rotation angles.
//!
//! Angles are measured in ticks, with `TURN` ticks to one full
//! revolution; the host layer converts an external radian offset to
//! ticks before it reaches the library.  Every sub-part of a shape
//! rotates by the shared phase `quarter turn / 2 + dtheta`, reduced
//! modulo one revolution, exactly as the frame descriptors state it.

use vstd::prelude::*;

verus! {

/// Ticks in one full revolution (2*pi radians).
pub const TURN: u64 = 0x1_0000_0000;

/// Ticks in one eighth of a revolution (pi/4 radians).
pub const EIGHTH_TURN: u64 = 0x2000_0000;

/// The rotation phase used by every shape: an eighth of a turn plus
/// the external offset, reduced modulo one revolution.
pub open spec fn phase_spec(dtheta: u64) -> nat {
    (((dtheta as nat) % (TURN as nat)) + (EIGHTH_TURN as nat)) % (TURN as nat)
}

/// The rotation phase for an external offset of `dtheta` ticks.
pub fn phase(dtheta: u64) -> (r: u64)
    ensures
        r == phase_spec(dtheta),
        r < TURN,
{
    (dtheta % TURN + EIGHTH_TURN) % TURN
}

/// Adding one full revolution to the offset leaves the phase
/// unchanged: rotation is periodic in `TURN` ticks.
pub proof fn lemma_phase_periodic(dtheta: u64)
    requires
        dtheta + TURN <= u64::MAX,
    ensures
        phase_spec((dtheta + TURN) as u64) == phase_spec(dtheta),
{
    let t = TURN as int;
    assert((dtheta + TURN) % t == (dtheta as int) % t) by {
        vstd::arithmetic::div_mod::lemma_mod_add_multiples_vanish(dtheta as int, t);
    }
}

} // verus!
