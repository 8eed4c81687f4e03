//! Oscillation of an entity around its place.
//!
//! Vectors are pairs of hundred-millionths; the motion itself, a sine of the
//! entity's lifetime, is computed on the engine side.
use vstd::prelude::*;

verus! {

/// Oscillates an entity: per axis, `amplitude * sin(phase + rate * lifetime)`.
#[derive(Clone, Copy, PartialEq, Debug)]
pub struct Oscillate {
    pub amplitude: (i64, i64),
    pub phase: (i64, i64),
    pub rate: (i64, i64),
    /// The offset applied so far.
    pub applied: (i64, i64),
}

impl Oscillate {
    /// An oscillation that has not moved its entity yet.
    pub fn new(amplitude: (i64, i64), phase: (i64, i64), rate: (i64, i64)) -> (o: Self)
        ensures
            o.amplitude == amplitude,
            o.phase == phase,
            o.rate == rate,
            o.applied == (0i64, 0i64),
    {
        Self { amplitude, phase, rate, applied: (0, 0) }
    }

    /// Moves to the new `offset`: returns how far the entity moves, and remembers
    /// the offset.
    pub fn apply(&mut self, offset: (i64, i64)) -> (delta: (i64, i64))
        requires
            i64::MIN <= offset.0 - old(self).applied.0 <= i64::MAX,
            i64::MIN <= offset.1 - old(self).applied.1 <= i64::MAX,
        ensures
            delta == ((offset.0 - old(self).applied.0) as i64, (offset.1
                - old(self).applied.1) as i64),
            final(self).applied == offset,
            final(self).amplitude == old(self).amplitude,
            final(self).phase == old(self).phase,
            final(self).rate == old(self).rate,
    {
        let delta = (offset.0 - self.applied.0, offset.1 - self.applied.1);
        self.applied = offset;
        delta
    }
}

} // verus!
