use vstd::prelude::*;

use crate::math::{div_floor, rem_floor, round_div};
use crate::ratio::{in_range, Pitch, Ratio, MAX_UNITS};

verus! {

/// The largest number of intervals a scale, or entries a key mapping, may hold.
pub const MAX_SCALE_SIZE: usize = 65535;

/// The largest scale degree, in either direction, whose pitch is looked up.
pub const MAX_DEGREE: i64 = 0x1_0000_0000_0000;

#[derive(Clone, Copy, Debug, PartialEq, Eq, Structural)]
pub enum ConfigError {
    EmptyScale,
    TooManySteps,
    IntervalOutOfRange,
    NonPositivePeriod,
    FormalOctaveOutOfRange,
}

/// A scale: the intervals of its degrees 1 to n above the root, the last of which
/// is the period after which the scale repeats.
#[derive(Clone, Debug)]
pub struct Scl {
    pitch_values: Vec<Ratio>,
}

/// The interval of scale degree `degree` above the root, for a scale with the
/// given intervals: `degree = q * n + r` with `0 <= r < n`, and the result is the
/// period `q` times followed by the interval of degree `r` (unison for 0).
pub open spec fn relative_pitch_spec(values: Seq<Ratio>, degree: int) -> int {
    let n = values.len() as int;
    let q = degree / n;
    let r = degree % n;
    q * values[n - 1].units + if r == 0 {
        0
    } else {
        values[r - 1].units as int
    }
}

pub open spec fn scale_values_valid(values: Seq<Ratio>) -> bool {
    &&& 0 < values.len() <= MAX_SCALE_SIZE
    &&& forall|i: int| 0 <= i < values.len() ==> (#[trigger] values[i]).wf()
    &&& values[values.len() - 1].units > 0
}

impl Scl {
    pub closed spec fn values(&self) -> Seq<Ratio> {
        self.pitch_values@
    }

    pub open spec fn wf(&self) -> bool {
        scale_values_valid(self.values())
    }

    /// A scale from the intervals of its degrees. Fails on an empty list, on more
    /// than `MAX_SCALE_SIZE` intervals, on an interval out of range, and on a
    /// period (the last interval) that is not positive.
    pub fn new(pitch_values: Vec<Ratio>) -> (r: Result<Scl, ConfigError>)
        ensures
            pitch_values@.len() == 0 ==> r == Err::<Scl, _>(ConfigError::EmptyScale),
            pitch_values@.len() > MAX_SCALE_SIZE ==> r == Err::<Scl, _>(
                ConfigError::TooManySteps,
            ),
            0 < pitch_values@.len() <= MAX_SCALE_SIZE ==> {
                &&& (exists|i: int|
                    0 <= i < pitch_values@.len() && !(#[trigger] pitch_values@[i]).wf()) ==> r
                    == Err::<Scl, _>(ConfigError::IntervalOutOfRange)
                &&& (forall|i: int|
                    0 <= i < pitch_values@.len() ==> (#[trigger] pitch_values@[i]).wf()) ==> {
                    &&& pitch_values@[pitch_values@.len() - 1].units <= 0 ==> r == Err::<
                        Scl,
                        _,
                    >(ConfigError::NonPositivePeriod)
                    &&& pitch_values@[pitch_values@.len() - 1].units > 0 ==> r is Ok
                        && r->Ok_0.values() == pitch_values@
                }
            },
            r is Ok ==> r->Ok_0.wf(),
    {
        let n = pitch_values.len();
        if n == 0 {
            return Err(ConfigError::EmptyScale);
        }
        if n > MAX_SCALE_SIZE {
            return Err(ConfigError::TooManySteps);
        }
        let mut i: usize = 0;
        while i < n
            invariant
                n == pitch_values@.len(),
                0 < n <= MAX_SCALE_SIZE,
                i <= n,
                forall|j: int| 0 <= j < i ==> (#[trigger] pitch_values@[j]).wf(),
            decreases n - i,
        {
            let u = pitch_values[i].units;
            if u < -MAX_UNITS || u > MAX_UNITS {
                return Err(ConfigError::IntervalOutOfRange);
            }
            i = i + 1;
        }
        if pitch_values[n - 1].units <= 0 {
            return Err(ConfigError::NonPositivePeriod);
        }
        Ok(Scl { pitch_values })
    }

    /// The scale of one equal step, repeating at that step.
    pub fn equal_temperament(step: Ratio) -> (r: Result<Scl, ConfigError>)
        ensures
            !step.wf() ==> r == Err::<Scl, _>(ConfigError::IntervalOutOfRange),
            step.wf() && step.units <= 0 ==> r == Err::<Scl, _>(ConfigError::NonPositivePeriod),
            step.wf() && step.units > 0 ==> r is Ok && r->Ok_0.values() == seq![step],
            r is Ok ==> r->Ok_0.wf(),
    {
        let v = vec![step];
        proof {
            if !step.wf() {
                assert(!v@[0].wf());
            }
        }
        Scl::new(v)
    }

    /// The scale of `num_steps` equal steps to `period`: degree `k` lies `k / num_steps`
    /// of the period up, rounded to the nearest unit, so that the last degree is the
    /// period itself.
    pub fn equal_division(num_steps: u16, period: Ratio) -> (r: Result<Scl, ConfigError>)
        ensures
            num_steps == 0 ==> r == Err::<Scl, _>(ConfigError::EmptyScale),
            num_steps > 0 && !period.wf() ==> r == Err::<Scl, _>(ConfigError::IntervalOutOfRange),
            num_steps > 0 && period.wf() && period.units <= 0 ==> r == Err::<Scl, _>(
                ConfigError::NonPositivePeriod,
            ),
            num_steps > 0 && period.wf() && period.units > 0 ==> {
                &&& r is Ok
                &&& r->Ok_0.wf()
                &&& r->Ok_0.values().len() == num_steps
                &&& forall|k: int|
                    0 <= k < num_steps ==> (#[trigger] r->Ok_0.values()[k]).units == round_div(
                        (k + 1) * period.units,
                        num_steps as int,
                    )
            },
    {
        if num_steps == 0 {
            return Err(ConfigError::EmptyScale);
        }
        if period.units < -MAX_UNITS || period.units > MAX_UNITS {
            return Err(ConfigError::IntervalOutOfRange);
        }
        if period.units <= 0 {
            return Err(ConfigError::NonPositivePeriod);
        }
        let n = num_steps as i128;
        let p = period.units as i128;
        let mut values: Vec<Ratio> = Vec::new();
        let mut k: i128 = 1;
        while k <= n
            invariant
                1 <= k <= n + 1,
                n == num_steps,
                n > 0,
                0 < p <= MAX_UNITS,
                p == period.units,
                values@.len() == k - 1,
                forall|j: int|
                    0 <= j < k - 1 ==> (#[trigger] values@[j]).units == round_div(
                        (j + 1) * p,
                        n as int,
                    ) && 0 <= values@[j].units <= p,
            decreases n + 1 - k,
        {
            proof {
                assert(0 <= k * p <= n * p && n * p <= 65535 * MAX_UNITS) by (nonlinear_arith)
                    requires
                        1 <= k <= n,
                        n <= 65535,
                        0 < p <= MAX_UNITS,
                ;
            }
            let u = crate::math::div_round_wide(k * p, n);
            proof {
                crate::math::lemma_round_div_monotone(k * p, n * p, n as int);
                crate::math::lemma_round_div_nonneg(k * p, n as int);
                assert(2 * (n * p) + n == p * (2 * n) + n) by (nonlinear_arith);
                vstd::arithmetic::div_mod::lemma_fundamental_div_mod_converse(
                    2 * (n * p) + n,
                    2 * n,
                    p as int,
                    n as int,
                );
            }
            values.push(Ratio::from_units(u as i64));
            k = k + 1;
        }
        proof {
            assert(values@[n - 1].units == p) by {
                assert(2 * (n * p) + n == p * (2 * n) + n) by (nonlinear_arith);
                vstd::arithmetic::div_mod::lemma_fundamental_div_mod_converse(
                    2 * (n * p) + n,
                    2 * n,
                    p as int,
                    n as int,
                );
            }
        }
        let r = Scl { pitch_values: values };
        proof {
            assert forall|j: int| 0 <= j < r.values().len() implies (#[trigger] r.values()[j]).wf() by {
                assert(0 <= values@[j].units <= p);
            }
        }
        Ok(r)
    }

    /// The number of degrees in one period.
    pub fn size(&self) -> (r: usize)
        ensures
            r == self.values().len(),
    {
        self.pitch_values.len()
    }

    /// The interval after which the scale repeats.
    pub fn period(&self) -> (r: Ratio)
        requires
            self.wf(),
        ensures
            r == self.values()[self.values().len() - 1],
    {
        self.pitch_values[self.pitch_values.len() - 1]
    }

    /// The interval of scale degree `degree` above the root; `None` where it does
    /// not fit the range of intervals.
    pub fn relative_pitch_of(&self, degree: i64) -> (r: Option<Ratio>)
        requires
            self.wf(),
            -MAX_DEGREE <= degree <= MAX_DEGREE,
        ensures
            in_range(relative_pitch_spec(self.values(), degree as int)) ==> r == Some(
                Ratio { units: relative_pitch_spec(self.values(), degree as int) as i64 },
            ),
            !in_range(relative_pitch_spec(self.values(), degree as int)) ==> r.is_none(),
    {
        let n = self.pitch_values.len() as i64;
        let q = div_floor(degree, n);
        let r = rem_floor(degree, n);
        let period = self.pitch_values[self.pitch_values.len() - 1].units;
        let base: i64 = if r == 0 {
            0
        } else {
            self.pitch_values[(r - 1) as usize].units
        };
        proof {
            assert(self.values()[n - 1].wf());
            let (di, ni, qi) = (degree as int, n as int, q as int);
            vstd::arithmetic::div_mod::lemma_fundamental_div_mod(di, ni);
            assert(-MAX_DEGREE <= qi <= MAX_DEGREE) by (nonlinear_arith)
                requires
                    di == ni * qi + di % ni,
                    0 <= di % ni < ni,
                    ni >= 1,
                    -MAX_DEGREE <= di <= MAX_DEGREE,
            {
                if qi > MAX_DEGREE {
                    assert(ni * qi >= qi);
                }
                if qi < -MAX_DEGREE {
                    assert(ni * qi <= qi);
                }
            }
            assert(-MAX_DEGREE * MAX_UNITS <= qi * period <= MAX_DEGREE * MAX_UNITS)
                by (nonlinear_arith)
                requires
                    -MAX_DEGREE <= qi <= MAX_DEGREE,
                    0 < period <= MAX_UNITS,
            ;
            if r != 0 {
                assert(self.values()[r - 1].wf());
            }
        }
        let total: i128 = q as i128 * period as i128 + base as i128;
        if total < -(MAX_UNITS as i128) || total > MAX_UNITS as i128 {
            None
        } else {
            Some(Ratio { units: total as i64 })
        }
    }
}

/// A keyboard mapping: the root key, which plays scale degree 0 at `root_pitch`,
/// and, where `mapping` is not empty, a pattern that repeats every `mapping.len()`
/// keys and gives for each key of the pattern its scale degree, the pattern being
/// shifted by `formal_octave` degrees each time it repeats. An empty pattern maps
/// the keys linearly: each key one degree above the one below it.
#[derive(Clone, Debug)]
pub struct Kbm {
    pub root_key: i32,
    pub root_pitch: Pitch,
    pub mapping: Vec<i32>,
    pub formal_octave: i32,
}

/// The largest size of a pattern entry or of the formal octave, in degrees.
pub const MAX_MAPPED_DEGREE: i32 = 0x1000;

/// The scale degree of a key.
pub open spec fn degree_spec(root: int, mapping: Seq<i32>, formal_octave: int, key: int) -> int {
    if mapping.len() == 0 {
        key - root
    } else {
        let m = mapping.len() as int;
        let q = (key - root) / m;
        let r = (key - root) % m;
        mapping[r] + q * formal_octave
    }
}

impl Kbm {
    pub open spec fn wf(&self) -> bool {
        &&& self.root_pitch.wf()
        &&& self.mapping@.len() <= MAX_SCALE_SIZE
        &&& forall|i: int|
            0 <= i < self.mapping@.len() ==> -MAX_MAPPED_DEGREE <= #[trigger] self.mapping@[i]
                <= MAX_MAPPED_DEGREE
        &&& -MAX_MAPPED_DEGREE <= self.formal_octave as int <= MAX_MAPPED_DEGREE
    }

    /// The scale degree of `key`.
    pub open spec fn degree_of(&self, key: int) -> int {
        degree_spec(self.root_key as int, self.mapping@, self.formal_octave as int, key)
    }

    /// Keys mapped one to one onto consecutive degrees, `root_key` to degree 0.
    pub fn root_at(root_key: i32, root_pitch: Pitch) -> (r: Kbm)
        requires
            root_pitch.wf(),
        ensures
            r.wf(),
            r.root_key == root_key,
            r.root_pitch == root_pitch,
            r.mapping@.len() == 0,
    {
        Kbm { root_key, root_pitch, mapping: Vec::new(), formal_octave: 0 }
    }

    /// Keys mapped through a repeating pattern of degrees. Fails where an entry of
    /// the pattern or the formal octave lies out of range, or the pattern is too long.
    pub fn with_mapping(root_key: i32, root_pitch: Pitch, mapping: Vec<i32>, formal_octave: i32) -> (r:
        Result<Kbm, ConfigError>)
        requires
            root_pitch.wf(),
        ensures
            r is Ok <==> (mapping@.len() <= MAX_SCALE_SIZE && (forall|i: int|
                0 <= i < mapping@.len() ==> -MAX_MAPPED_DEGREE <= #[trigger] mapping@[i]
                    <= MAX_MAPPED_DEGREE) && -MAX_MAPPED_DEGREE <= formal_octave
                <= MAX_MAPPED_DEGREE),
            r is Ok ==> {
                let k = r->Ok_0;
                &&& k.wf()
                &&& k.root_key == root_key
                &&& k.root_pitch == root_pitch
                &&& k.mapping@ == mapping@
                &&& k.formal_octave == formal_octave
            },
    {
        if mapping.len() > MAX_SCALE_SIZE || formal_octave < -MAX_MAPPED_DEGREE || formal_octave
            > MAX_MAPPED_DEGREE {
            return Err(ConfigError::FormalOctaveOutOfRange);
        }
        let mut i: usize = 0;
        while i < mapping.len()
            invariant
                i <= mapping@.len(),
                forall|j: int|
                    0 <= j < i ==> -MAX_MAPPED_DEGREE <= #[trigger] mapping@[j] <= MAX_MAPPED_DEGREE,
            decreases mapping.len() - i,
        {
            if mapping[i] < -MAX_MAPPED_DEGREE || mapping[i] > MAX_MAPPED_DEGREE {
                return Err(ConfigError::FormalOctaveOutOfRange);
            }
            i = i + 1;
        }
        Ok(Kbm { root_key, root_pitch, mapping, formal_octave })
    }

    /// The scale degree that `key` plays.
    pub fn degree_of_key(&self, key: i32) -> (r: i64)
        requires
            self.wf(),
        ensures
            r == self.degree_of(key as int),
            -MAX_DEGREE <= r <= MAX_DEGREE,
    {
        let offset = key as i64 - self.root_key as i64;
        if self.mapping.len() == 0 {
            return offset;
        }
        let m = self.mapping.len() as i64;
        let q = div_floor(offset, m);
        let r = rem_floor(offset, m);
        proof {
            let (oi, mi, qi) = (offset as int, m as int, q as int);
            vstd::arithmetic::div_mod::lemma_fundamental_div_mod(oi, mi);
            assert(-0x1_0000_0000 <= qi <= 0x1_0000_0000) by (nonlinear_arith)
                requires
                    oi == mi * qi + oi % mi,
                    0 <= oi % mi < mi,
                    mi >= 1,
                    -0x1_0000_0000 <= oi <= 0x1_0000_0000,
            {
                if qi > 0x1_0000_0000 {
                    assert(mi * qi >= qi);
                }
                if qi < -0x1_0000_0000 {
                    assert(mi * qi <= qi);
                }
            }
            assert(self.mapping@[r as int] == self.mapping@[r as int]);
            let fo = self.formal_octave as int;
            assert(-0x1_0000_0000 * 0x1000 <= qi * fo <= 0x1_0000_0000 * 0x1000) by (nonlinear_arith)
                requires
                    -0x1_0000_0000 <= qi <= 0x1_0000_0000,
                    -0x1000 <= fo <= 0x1000,
            ;
        }
        let d = self.mapping[r as usize] as i64 + q * self.formal_octave as i64;
        d
    }
}

} // verus!
