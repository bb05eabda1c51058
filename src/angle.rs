use vstd::arithmetic::div_mod::lemma_mod_multiples_vanish;
use vstd::prelude::*;

verus! {

/// Resolution of an [`Angle`]: one degree is this many units.
pub const MICRODEGREES_PER_DEGREE: i64 = 1_000_000;

/// One full turn (360 degrees) in units of [`Angle`].
pub const FULL_TURN: i64 = 360_000_000;

/// The number of units in one full turn, as a mathematical integer.
pub open spec fn turn() -> int {
    360 * MICRODEGREES_PER_DEGREE as int
}

/// `d` whole degrees, in units of [`Angle`].
pub open spec fn degrees(d: int) -> int {
    d * MICRODEGREES_PER_DEGREE as int
}

/// The canonical representative of `units` on the circle: the value in
/// `[0, turn())` that differs from `units` by a whole number of turns.
pub open spec fn normalized(units: int) -> int {
    units % turn()
}

/// A hinge angle in millionths of a degree. Any value is allowed: the
/// hardware may report angles outside `[0, 360)` degrees, or negative ones.
#[derive(Clone, Copy, Debug, PartialEq, Eq, Structural)]
pub struct Angle {
    pub microdegrees: i64,
}

impl Angle {
    /// The angle of `units` millionths of a degree.
    pub fn from_microdegrees(units: i64) -> (r: Angle)
        ensures
            r.microdegrees == units,
    {
        Angle { microdegrees: units }
    }

    /// The angle of `d` whole degrees.
    pub fn from_degrees(d: i32) -> (r: Angle)
        ensures
            r.microdegrees == degrees(d as int),
    {
        let units: i64 = (d as i64) * MICRODEGREES_PER_DEGREE;
        Angle { microdegrees: units }
    }

    /// The same direction reduced onto `[0, 360)` degrees, computed as
    /// `((a mod 360) + 360) mod 360` with a remainder that takes the sign of
    /// the dividend.
    pub fn normalize(self) -> (r: Angle)
        ensures
            r.microdegrees == normalized(self.microdegrees as int),
            0 <= r.microdegrees < turn(),
    {
        let rem: i64 = self.microdegrees % FULL_TURN;
        let shifted: i64 = rem + FULL_TURN;
        Angle { microdegrees: shifted % FULL_TURN }
    }
}

/// Normalization lands in `[0, 360)` degrees and does not see whole turns:
/// `a` and `a` plus any whole number of turns normalize alike.
pub proof fn lemma_normalize_periodic(units: int, turns: int)
    ensures
        0 <= normalized(units) < turn(),
        normalized(units + turns * turn()) == normalized(units),
{
    lemma_mod_multiples_vanish(turns, units, turn());
    assert(turn() * turns + units == units + turns * turn()) by (nonlinear_arith);
}

} // verus!
