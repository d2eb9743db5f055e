use vstd::prelude::*;

use crate::math::{div_round, round_div};

verus! {

/// Sizes of intervals are counted in units of a millionth of a cent.
pub const UNITS_PER_CENT: i64 = 1_000_000;

pub const UNITS_PER_SEMITONE: i64 = 100_000_000;

pub const UNITS_PER_OCTAVE: i64 = 1_200_000_000;

/// The largest size, in units, that an interval or a pitch may have in either direction.
pub const MAX_UNITS: i64 = 0x0fff_ffff_ffff_ffff;

/// An interval between two pitches, held as the base-2 logarithm of its frequency
/// ratio, counted in units (1200 * 10^6 units to the octave).
#[derive(Clone, Copy, Debug, PartialEq, Eq, Structural)]
pub struct Ratio {
    pub units: i64,
}

/// A pitch, held as the base-2 logarithm of its frequency in Hz, counted in units.
#[derive(Clone, Copy, Debug, PartialEq, Eq, Structural)]
pub struct Pitch {
    pub log_units: i64,
}

pub open spec fn in_range(x: int) -> bool {
    -MAX_UNITS <= x <= MAX_UNITS
}

impl Ratio {
    pub open spec fn wf(self) -> bool {
        in_range(self.units as int)
    }

    pub open spec fn inverse_spec(self) -> Ratio {
        Ratio { units: -self.units as i64 }
    }

    pub open spec fn repeated_spec(self, n: int) -> Ratio {
        Ratio { units: (self.units * n) as i64 }
    }

    pub fn from_units(units: i64) -> (r: Ratio)
        ensures
            r.units == units,
    {
        Ratio { units }
    }

    pub fn as_units(&self) -> (r: i64)
        ensures
            r == self.units,
    {
        self.units
    }

    /// The unison, 1/1.
    pub fn unison() -> (r: Ratio)
        ensures
            r.units == 0,
    {
        Ratio { units: 0 }
    }

    /// The octave, 2/1.
    pub fn octave() -> (r: Ratio)
        ensures
            r.units == UNITS_PER_OCTAVE,
    {
        Ratio { units: UNITS_PER_OCTAVE }
    }

    pub fn from_octaves(octaves: i16) -> (r: Ratio)
        ensures
            r.units == octaves * UNITS_PER_OCTAVE,
            r.wf(),
    {
        Ratio { units: octaves as i64 * UNITS_PER_OCTAVE }
    }

    pub fn from_semitones(semitones: i32) -> (r: Ratio)
        ensures
            r.units == semitones * UNITS_PER_SEMITONE,
            r.wf(),
    {
        Ratio { units: semitones as i64 * UNITS_PER_SEMITONE }
    }

    pub fn from_cents(cents: i32) -> (r: Ratio)
        ensures
            r.units == cents * UNITS_PER_CENT,
            r.wf(),
    {
        Ratio { units: cents as i64 * UNITS_PER_CENT }
    }

    /// The size in cents, rounded to the nearest cent (halves upwards).
    pub fn as_cents_rounded(&self) -> (r: i64)
        requires
            self.wf(),
        ensures
            r == round_div(self.units as int, UNITS_PER_CENT as int),
    {
        div_round(self.units, UNITS_PER_CENT)
    }

    /// The interval that leads from pitch `from` to pitch `to`.
    pub fn between_pitches(from: Pitch, to: Pitch) -> (r: Ratio)
        requires
            from.wf(),
            to.wf(),
        ensures
            r.units == to.log_units - from.log_units,
    {
        Ratio { units: to.log_units - from.log_units }
    }

    /// The interval taken `n` times.
    pub fn repeated(&self, n: i64) -> (r: Ratio)
        requires
            in_range(self.units * n),
        ensures
            r == self.repeated_spec(n as int),
            r.units == self.units * n,
            r.wf(),
    {
        Ratio { units: self.units * n }
    }

    /// The same interval downwards.
    pub fn inverse(&self) -> (r: Ratio)
        requires
            self.wf(),
        ensures
            r == self.inverse_spec(),
            r.units == -self.units,
            r.wf(),
    {
        Ratio { units: -self.units }
    }

    /// This interval followed by `other`.
    pub fn stretched_by(&self, other: Ratio) -> (r: Ratio)
        requires
            in_range(self.units + other.units),
        ensures
            r.units == self.units + other.units,
            r.wf(),
    {
        Ratio { units: self.units + other.units }
    }

    /// How far this interval lies above `reference`.
    pub fn deviation_from(&self, reference: Ratio) -> (r: Ratio)
        requires
            in_range(self.units - reference.units),
        ensures
            r.units == self.units - reference.units,
            r.wf(),
    {
        Ratio { units: self.units - reference.units }
    }

    /// One of `n` equal steps that make up this interval, rounded to the nearest unit.
    pub fn divided_into_equal_steps(&self, n: u16) -> (r: Ratio)
        requires
            self.wf(),
            n > 0,
        ensures
            r.units == round_div(self.units as int, n as int),
            r.wf(),
    {
        let r = div_round(self.units, n as i64);
        proof {
            lemma_round_div_bounded(self.units as int, n as int);
        }
        Ratio { units: r }
    }

    /// How many steps of `step` fit into this interval, rounded to the nearest integer.
    pub fn num_equal_steps_of_size(&self, step: Ratio) -> (r: i64)
        requires
            self.wf(),
            step.wf(),
            step.units > 0,
        ensures
            r == round_div(self.units as int, step.units as int),
    {
        div_round(self.units, step.units)
    }
}

/// Rounding a quotient by a positive divisor does not leave the bounded range.
pub proof fn lemma_round_div_bounded(a: int, b: int)
    requires
        in_range(a),
        b > 0,
    ensures
        in_range(round_div(a, b)),
{
    let q = round_div(a, b);
    vstd::arithmetic::div_mod::lemma_fundamental_div_mod(2 * a + b, 2 * b);
    let r = (2 * a + b) % (2 * b);
    assert(2 * a + b == 2 * b * q + r && 0 <= r < 2 * b);
    if q > MAX_UNITS {
        assert(2 * b * q >= 2 * b * (MAX_UNITS + 1)) by (nonlinear_arith)
            requires
                q >= MAX_UNITS + 1,
                b > 0,
        ;
        assert(2 * b * (MAX_UNITS + 1) >= 2 * (MAX_UNITS + 1)) by (nonlinear_arith)
            requires
                b >= 1,
        ;
    }
    if q < -MAX_UNITS {
        assert(2 * b * q <= 2 * b * (-MAX_UNITS - 1)) by (nonlinear_arith)
            requires
                q <= -MAX_UNITS - 1,
                b > 0,
        ;
        assert(2 * b * (-MAX_UNITS - 1) <= 2 * (-MAX_UNITS - 1) * b) by (nonlinear_arith);
    }
}

/// Taking the inverse twice gives the interval back; repeating it once leaves it as
/// it is; and repeating `a` times, then `b` times, is repeating `a * b` times.
pub proof fn lemma_inverse_and_repeated(r: Ratio, a: int, b: int)
    requires
        r.wf(),
        in_range(r.units * a),
        in_range(r.units * a * b),
    ensures
        r.inverse_spec().inverse_spec() == r,
        r.repeated_spec(1) == r,
        r.repeated_spec(a).repeated_spec(b) == r.repeated_spec(a * b),
{
    assert((r.units * a) * b == r.units * (a * b)) by (nonlinear_arith);
}

impl Pitch {
    pub open spec fn wf(self) -> bool {
        in_range(self.log_units as int)
    }

    pub fn from_log_units(log_units: i64) -> (r: Pitch)
        ensures
            r.log_units == log_units,
    {
        Pitch { log_units }
    }

    pub fn as_log_units(&self) -> (r: i64)
        ensures
            r == self.log_units,
    {
        self.log_units
    }

    /// The pitch an interval of `ratio` away.
    pub fn times(&self, ratio: Ratio) -> (r: Pitch)
        requires
            in_range(self.log_units + ratio.units),
        ensures
            r.log_units == self.log_units + ratio.units,
            r.wf(),
    {
        Pitch { log_units: self.log_units + ratio.units }
    }
}

} // verus!
