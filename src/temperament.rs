use vstd::prelude::*;

use crate::generators::{gcd_spec, HeptatonicName, NoteFormatter, NoteOrder, PerGen};
use crate::math::round_div;
use crate::primes::{prime_log_spec, FINE_PER_UNIT};
use crate::ratio::{in_range, Ratio, UNITS_PER_OCTAVE};

verus! {

/// The largest number of steps to the octave that the temperaments here handle:
/// every step count derived from it fits an `i16`.
pub const MAX_STEPS_PER_OCTAVE: u16 = 6000;

/// The step counts of a temperament with `n` steps to the octave and `f` to the fifth
/// stay in range.
pub open spec fn steps_fit(n: int, f: int) -> bool {
    0 < n <= MAX_STEPS_PER_OCTAVE && 0 <= f <= n
}

#[derive(Clone, Copy, Debug, PartialEq, Eq, Structural)]
pub enum TemperamentType {
    /// Octave-reduced temperament treating 4 fifths to be equal to one major third.
    /// Its primary step is half a major third; its notes are named along the chain
    /// of fifths.
    Meantone,
    /// Octave-reduced temperament treating 3 major thirds to be equal to 5 fifths.
    /// Three primary steps form a fourth; its notes are named along the chain of
    /// primary steps.
    Porcupine,
}

impl TemperamentType {
    /// The name of the temperament type.
    pub fn name(&self) -> (r: &'static str)
        ensures
            *self == TemperamentType::Meantone ==> r == "Meantone",
            *self == TemperamentType::Porcupine ==> r == "Porcupine",
    {
        match self {
            TemperamentType::Meantone => "Meantone",
            TemperamentType::Porcupine => "Porcupine",
        }
    }
}

#[derive(Clone, Copy, Debug, PartialEq, Eq, Structural)]
pub enum TemperamentPreference {
    /// Always choose meantone even if it will have bad qualities e.g. `secondary_step < 0`.
    Meantone,
    /// Try to fall back to porcupine when meantone would have bad qualities.
    PorcupineWhenMeantoneIsBad,
    /// Use porcupine whenever possible.
    Porcupine,
}

/// An equal division of the octave (or of another period), read as a meantone or a
/// porcupine temperament.
#[derive(Clone, Copy, Debug)]
pub struct EqualTemperament {
    pub temperament_type: TemperamentType,
    pub primary_step: i16,
    pub secondary_step: i16,
    pub num_steps_per_fifth: u16,
    pub size_of_octave: Ratio,
    pub per_gen: PerGen,
    pub formatter: NoteFormatter,
}

/// The size of a just fifth, 3/2, in units.
pub const JUST_FIFTH_UNITS: i64 = 701_955_001;

/// The size of a just fifth, 3/2: that of 3 less that of 2, rounded to a unit.
pub open spec fn just_fifth_units() -> int {
    round_div(prime_log_spec(1) - prime_log_spec(0), FINE_PER_UNIT as int)
}

pub proof fn lemma_just_fifth()
    ensures
        just_fifth_units() == JUST_FIFTH_UNITS,
{
    vstd::arithmetic::div_mod::lemma_fundamental_div_mod_converse(
        2 * 701_955_000_865int + 1000,
        2000int,
        701_955_001int,
        730int,
    );
}

/// `x` fits an `i16`.
pub open spec fn fits_i16(x: int) -> bool {
    i16::MIN <= x <= i16::MAX
}

/// Meantone with `n` steps and `f` to the fifth, and its porcupine reading where the
/// fourth splits in three, have their steps in range, with a fifth no larger than
/// the octave.
pub open spec fn finder_fits(n: int, f: int) -> bool {
    &&& 0 <= f <= n
    &&& meantone_fits(n, f)
    &&& (n - f) % 3 == 0 ==> porcupine_fits(n, (n - f) / 3)
}

/// Meantone with `n` steps and `f` to the fifth has its primary and secondary steps
/// and its sharp in range.
pub open spec fn meantone_fits(n: int, f: int) -> bool {
    &&& n > 0
    &&& fits_i16(2 * f - n)
    &&& fits_i16(3 * n - 5 * f)
    &&& fits_i16((2 * f - n) - (3 * n - 5 * f))
}

/// Porcupine with `n` steps and a primary step of `p` has a fifth that is not
/// negative, and its steps and its sharp in range.
pub open spec fn porcupine_fits(n: int, p: int) -> bool {
    &&& n > 0
    &&& 3 * p <= n
    &&& fits_i16(p)
    &&& fits_i16(n - 6 * p)
    &&& fits_i16((n - 6 * p) - p)
}

/// `t` is meantone with `n` steps and `f` to the fifth, in every field but the
/// size of its period.
pub open spec fn is_meantone(t: EqualTemperament, n: int, f: int) -> bool {
    &&& t.temperament_type == TemperamentType::Meantone
    &&& t.primary_step == 2 * f - n
    &&& t.secondary_step == 3 * n - 5 * f
    &&& t.num_steps_per_fifth == f
    &&& t.per_gen.period == n
    &&& t.per_gen.generator == f
    &&& t.per_gen.num_cycles == gcd_spec(n as nat, f as nat)
    &&& t.formatter.letters@ == seq!['F', 'C', 'G', 'D', 'A', 'E', 'B']
    &&& t.formatter.genchain_origin == 3
    &&& t.formatter.sharpness == t.primary_step - t.secondary_step
    &&& t.formatter.note_order == NoteOrder::Normal
}

/// `t` is porcupine with `n` steps and a primary step of `p`, in every field but the
/// size of its period.
pub open spec fn is_porcupine(t: EqualTemperament, n: int, p: int) -> bool {
    &&& t.temperament_type == TemperamentType::Porcupine
    &&& t.primary_step == p
    &&& t.secondary_step == n - 6 * p
    &&& t.num_steps_per_fifth == n - 3 * p
    &&& t.per_gen.period == n
    &&& t.per_gen.generator == p
    &&& t.per_gen.num_cycles == gcd_spec(n as nat, p as nat)
    &&& t.formatter.letters@ == seq!['A', 'B', 'C', 'D', 'E', 'F', 'G']
    &&& t.formatter.genchain_origin == 3
    &&& t.formatter.sharpness == t.secondary_step - t.primary_step
    &&& t.formatter.note_order == NoteOrder::Reversed
}

impl EqualTemperament {
    pub open spec fn wf(&self) -> bool {
        &&& self.per_gen.wf()
        &&& 0 <= self.formatter.genchain_origin < 7
        &&& self.size_of_octave.wf()
    }

    /// Meantone with `num_steps_per_octave` steps, `num_steps_per_fifth` of them to
    /// the fifth: the primary step is two fifths less an octave, the secondary step
    /// three octaves less five fifths, and one sharp is their difference.
    pub fn meantone(num_steps_per_octave: u16, num_steps_per_fifth: u16) -> (r: Self)
        requires
            meantone_fits(num_steps_per_octave as int, num_steps_per_fifth as int),
        ensures
            r.wf(),
            is_meantone(r, num_steps_per_octave as int, num_steps_per_fifth as int),
            r.size_of_octave.units == UNITS_PER_OCTAVE,
    {
        let n = num_steps_per_octave as i32;
        let f = num_steps_per_fifth as i32;
        let primary_step = (2 * f - n) as i16;
        let secondary_step = (3 * n - 5 * f) as i16;
        let sharpness = (2 * f - n - (3 * n - 5 * f)) as i16;
        let per_gen = PerGen::new(num_steps_per_octave, num_steps_per_fifth);
        proof {
            crate::generators::lemma_gcd_bounds(
                num_steps_per_octave as nat,
                num_steps_per_fifth as nat,
            );
        }
        let letters = ['F', 'C', 'G', 'D', 'A', 'E', 'B'];
        assert(letters@ =~= seq!['F', 'C', 'G', 'D', 'A', 'E', 'B']);
        Self {
            temperament_type: TemperamentType::Meantone,
            primary_step,
            secondary_step,
            num_steps_per_fifth,
            size_of_octave: Ratio::octave(),
            per_gen,
            formatter: NoteFormatter {
                letters,
                genchain_origin: 3,
                sharpness,
                note_order: NoteOrder::Normal,
            },
        }
    }

    /// Porcupine with `num_steps_per_octave` steps and a primary step of
    /// `primary_step`: three primary steps make a fourth, the secondary step is an
    /// octave less six primary steps, and one sharp is the secondary step less the
    /// primary step.
    pub fn porcupine(num_steps_per_octave: u16, primary_step: u16) -> (r: EqualTemperament)
        requires
            porcupine_fits(num_steps_per_octave as int, primary_step as int),
        ensures
            r.wf(),
            is_porcupine(r, num_steps_per_octave as int, primary_step as int),
            r.size_of_octave.units == UNITS_PER_OCTAVE,
    {
        let n = num_steps_per_octave as i32;
        let p = primary_step as i32;
        let secondary_step = (n - 6 * p) as i16;
        let sharpness = (n - 6 * p - p) as i16;
        let per_gen = PerGen::new(num_steps_per_octave, primary_step);
        proof {
            crate::generators::lemma_gcd_bounds(num_steps_per_octave as nat, primary_step as nat);
        }
        let letters = ['A', 'B', 'C', 'D', 'E', 'F', 'G'];
        assert(letters@ =~= seq!['A', 'B', 'C', 'D', 'E', 'F', 'G']);
        EqualTemperament {
            temperament_type: TemperamentType::Porcupine,
            primary_step: p as i16,
            secondary_step,
            num_steps_per_fifth: num_steps_per_octave - 3 * primary_step,
            size_of_octave: Ratio::octave(),
            per_gen,
            formatter: NoteFormatter {
                letters,
                genchain_origin: 3,
                sharpness,
                note_order: NoteOrder::Reversed,
            },
        }
    }

    /// The same temperament with another size of its period.
    pub fn with_size_of_octave(self, size_of_octave: Ratio) -> (r: Self)
        requires
            self.wf(),
            size_of_octave.wf(),
        ensures
            r.wf(),
            r.size_of_octave == size_of_octave,
            r.temperament_type == self.temperament_type,
            r.primary_step == self.primary_step,
            r.secondary_step == self.secondary_step,
            r.num_steps_per_fifth == self.num_steps_per_fifth,
            r.per_gen == self.per_gen,
            r.formatter == self.formatter,
    {
        let mut r = self;
        r.size_of_octave = size_of_octave;
        r
    }

    /// A finder that allows the second best fifth and prefers porcupine when
    /// meantone is bad.
    pub fn find() -> (r: TemperamentFinder)
        ensures
            r.second_best_fifth_allowed,
            r.preference == TemperamentPreference::PorcupineWhenMeantoneIsBad,
    {
        TemperamentFinder {
            second_best_fifth_allowed: true,
            preference: TemperamentPreference::PorcupineWhenMeantoneIsBad,
        }
    }

    /// The porcupine reading of the same division, where the fourth splits into
    /// three equal primary steps.
    pub fn as_porcupine(&self) -> (r: Option<EqualTemperament>)
        requires
            self.wf(),
            self.num_steps_per_fifth <= self.per_gen.period,
            (self.per_gen.period - self.num_steps_per_fifth) % 3 == 0 ==> porcupine_fits(
                self.per_gen.period as int,
                (self.per_gen.period - self.num_steps_per_fifth) / 3,
            ),
        ensures
            ({
                let n = self.per_gen.period as int;
                let fourth = n - self.num_steps_per_fifth;
                &&& fourth % 3 != 0 ==> r.is_none()
                &&& fourth % 3 == 0 ==> r is Some && r->Some_0.wf() && is_porcupine(
                    r->Some_0,
                    n,
                    fourth / 3,
                ) && r->Some_0.size_of_octave.units == UNITS_PER_OCTAVE
            }),
    {
        let num_steps_of_fourth = self.num_steps_per_octave() - self.num_steps_per_fifth();
        if num_steps_of_fourth % 3 == 0 {
            Some(Self::porcupine(self.num_steps_per_octave(), num_steps_of_fourth / 3))
        } else {
            None
        }
    }

    pub fn temperament_type(&self) -> (r: TemperamentType)
        ensures
            r == self.temperament_type,
    {
        self.temperament_type
    }

    pub fn primary_step(&self) -> (r: i16)
        ensures
            r == self.primary_step,
    {
        self.primary_step
    }

    pub fn secondary_step(&self) -> (r: i16)
        ensures
            r == self.secondary_step,
    {
        self.secondary_step
    }

    /// The number of steps of one sharp.
    pub fn sharpness(&self) -> (r: i16)
        ensures
            r == self.formatter.sharpness,
    {
        self.formatter.sharpness
    }

    pub fn num_steps_per_octave(&self) -> (r: u16)
        ensures
            r == self.per_gen.period,
    {
        self.per_gen.period()
    }

    pub fn size_of_octave(&self) -> (r: Ratio)
        ensures
            r == self.size_of_octave,
    {
        self.size_of_octave
    }

    pub fn num_steps_per_fifth(&self) -> (r: u16)
        ensures
            r == self.num_steps_per_fifth,
    {
        self.num_steps_per_fifth
    }

    /// The fifth: one step (the period divided evenly, rounded to the unit) taken
    /// as many times as the fifth has steps.
    pub fn size_of_fifth(&self) -> (r: Ratio)
        requires
            self.wf(),
            in_range(
                round_div(self.size_of_octave.units as int, self.per_gen.period as int)
                    * self.num_steps_per_fifth,
            ),
        ensures
            r.units == round_div(self.size_of_octave.units as int, self.per_gen.period as int)
                * self.num_steps_per_fifth,
    {
        self.size_of_octave.divided_into_equal_steps(self.num_steps_per_octave()).repeated(
            self.num_steps_per_fifth() as i64,
        )
    }

    /// The number of separate chains of generators that the steps fall into.
    pub fn num_cycles(&self) -> (r: u16)
        ensures
            r == self.per_gen.num_cycles,
    {
        self.per_gen.num_cycles()
    }

    /// The seven-letter name of step `index`.
    pub fn get_heptatonic_name(&self, index: i32) -> (r: Option<HeptatonicName>)
        requires
            self.wf(),
        ensures
            ({
                let gen = self.per_gen.get_generation_spec(index);
                match gen.degree {
                    None => r.is_none(),
                    Some(d) => {
                        let rp = (self.per_gen.period / self.per_gen.num_cycles) as int;
                        let p = crate::generators::oriented(
                            d as int,
                            rp,
                            self.formatter.note_order,
                        );
                        let pos = self.formatter.genchain_origin + p;
                        &&& r is Some
                        &&& r->Some_0.letter == self.formatter.letters@[pos % 7]
                        &&& r->Some_0.accidentals == pos / 7
                        &&& r->Some_0.cycle == gen.cycle
                    },
                }
            }),
    {
        self.formatter.get_name_by_step(&self.per_gen, index)
    }
}

/// The number of fifths from C to the note on key `class` (0 for C to 11 for B) of
/// the twelve-tone keyboard, read from E flat (-3) to G sharp (8).
pub open spec fn fifths_of_class(class: int) -> int {
    (7 * class + 3) % 12 - 3
}

/// The step of the temperament with `n` steps and `f` to the fifth that key `class`
/// plays: its number of fifths, reduced to the octave.
pub open spec fn meantone_degree(n: int, f: int, class: int) -> int {
    (fifths_of_class(class) * f) % n
}

impl EqualTemperament {
    /// The steps that the twelve keys of an octave (C first) play when the keyboard
    /// is laid out along the chain of fifths: each key plays the note of its name,
    /// from E flat to G sharp. With the number of steps to the octave as the formal
    /// octave, this is a key mapping for `Kbm::with_mapping`.
    pub fn meantone_key_mapping(&self) -> (r: Vec<i32>)
        requires
            self.wf(),
            steps_fit(self.per_gen.period as int, self.num_steps_per_fifth as int),
        ensures
            r@.len() == 12,
            forall|c: int|
                0 <= c < 12 ==> (#[trigger] r@[c]) == meantone_degree(
                    self.per_gen.period as int,
                    self.num_steps_per_fifth as int,
                    c,
                ),
            forall|c: int| 0 <= c < 12 ==> 0 <= #[trigger] r@[c] < self.per_gen.period,
    {
        let n = self.per_gen.period as i64;
        let f = self.num_steps_per_fifth as i64;
        let mut r: Vec<i32> = Vec::new();
        let mut c: i64 = 0;
        while c < 12
            invariant
                0 <= c <= 12,
                0 < n <= MAX_STEPS_PER_OCTAVE,
                0 <= f <= n,
                r@.len() == c,
                forall|c2: int| 0 <= c2 < c ==> (#[trigger] r@[c2]) == meantone_degree(n as int, f as int, c2),
                forall|c2: int| 0 <= c2 < c ==> 0 <= #[trigger] r@[c2] < n,
            decreases 12 - c,
        {
            let k = (7 * c + 3) % 12 - 3;
            proof {
                assert(-3 <= k <= 8);
                assert(-3 * 6000 <= k * f <= 8 * 6000) by (nonlinear_arith)
                    requires
                        -3 <= k <= 8,
                        0 <= f <= 6000,
                ;
            }
            let d = crate::math::rem_floor(k * f, n);
            r.push(d as i32);
            c = c + 1;
        }
        r
    }
}

/// The key of row `row` (0 or 1), position `k`, of claviature `index`: `k` primary
/// steps, plus a secondary step on the second row, shifted by `index` times seven
/// fifths (a sharp less a secondary step), reduced to the octave.
pub open spec fn claviature_key(
    n: int,
    primary: int,
    secondary: int,
    sharpness: int,
    index: int,
    row: int,
    k: int,
) -> int {
    (k * primary + row * secondary + index * (sharpness - secondary)) % n
}

/// The number of twelve-key claviatures that `n` steps fill: `n / 12`, rounded up.
pub open spec fn num_claviatures_spec(n: int) -> int {
    (n + 11) / 12
}

impl EqualTemperament {
    /// The number of twelve-key claviatures that the steps of the octave fill.
    pub fn num_claviatures(&self) -> (r: u16)
        requires
            self.wf(),
        ensures
            r == num_claviatures_spec(self.per_gen.period as int),
    {
        ((self.per_gen.period as u32 + 11) / 12) as u16
    }

    /// The two rows of six keys of claviature `index`, as in `claviature_key`.
    pub fn claviature_rows(&self, index: u16) -> (r: (Vec<u16>, Vec<u16>))
        requires
            self.wf(),
        ensures
            r.0@.len() == 6,
            r.1@.len() == 6,
            forall|k: int|
                0 <= k < 6 ==> (#[trigger] r.0@[k]) == claviature_key(
                    self.per_gen.period as int,
                    self.primary_step as int,
                    self.secondary_step as int,
                    self.formatter.sharpness as int,
                    index as int,
                    0,
                    k,
                ),
            forall|k: int|
                0 <= k < 6 ==> (#[trigger] r.1@[k]) == claviature_key(
                    self.per_gen.period as int,
                    self.primary_step as int,
                    self.secondary_step as int,
                    self.formatter.sharpness as int,
                    index as int,
                    1,
                    k,
                ),
    {
        let n = self.per_gen.period as i64;
        let p = self.primary_step as i64;
        let s = self.secondary_step as i64;
        let seven_fifths = self.formatter.sharpness as i64 - s;
        proof {
            assert(-65536 * 65536 <= index as int * seven_fifths <= 65536 * 65536) by (nonlinear_arith)
                requires
                    0 <= index <= 65535,
                    -65536 <= seven_fifths <= 65536,
            ;
        }
        let offset = index as i64 * seven_fifths;
        let mut first: Vec<u16> = Vec::new();
        let mut second: Vec<u16> = Vec::new();
        let mut k: i64 = 0;
        while k < 6
            invariant
                0 <= k <= 6,
                n == self.per_gen.period,
                0 < n <= 65535,
                -32768 <= p <= 32767,
                -32768 <= s <= 32767,
                p == self.primary_step,
                s == self.secondary_step,
                offset == index as int * (self.formatter.sharpness as int - s),
                -65536 * 65536 <= offset <= 65536 * 65536,
                first@.len() == k,
                second@.len() == k,
                forall|j: int|
                    0 <= j < k ==> (#[trigger] first@[j]) == claviature_key(n as int, p as int, s as int, self.formatter.sharpness as int, index as int, 0, j),
                forall|j: int|
                    0 <= j < k ==> (#[trigger] second@[j]) == claviature_key(n as int, p as int, s as int, self.formatter.sharpness as int, index as int, 1, j),
            decreases 6 - k,
        {
            proof {
                assert(-6 * 32768 <= k * p <= 6 * 32768) by (nonlinear_arith)
                    requires
                        0 <= k < 6,
                        -32768 <= p <= 32767,
                ;
            }
            let a = crate::math::rem_floor(k * p + offset, n);
            let b = crate::math::rem_floor(k * p + s + offset, n);
            proof {
                assert(k * p + 0 * s + offset == k * p + offset);
                assert(k * p + 1 * s + offset == k * p + s + offset);
            }
            first.push(a as u16);
            second.push(b as u16);
            k = k + 1;
        }
        (first, second)
    }
}

/// Chooses the temperament for a division of the octave.
pub struct TemperamentFinder {
    pub second_best_fifth_allowed: bool,
    pub preference: TemperamentPreference,
}

/// Meantone with these steps is acceptable: a positive primary step and a secondary
/// step that is not negative.
pub open spec fn meantone_acceptable(n: int, f: int) -> bool {
    2 * f - n > 0 && 3 * n - 5 * f >= 0
}

impl TemperamentFinder {
    /// Whether porcupine is tried for meantone with `n` and `f` steps.
    pub open spec fn tries_porcupine(&self, n: int, f: int) -> bool {
        match self.preference {
            TemperamentPreference::Meantone => false,
            TemperamentPreference::PorcupineWhenMeantoneIsBad => !meantone_acceptable(n, f) || (2
                * f - n) - (3 * n - 5 * f) < 0,
            TemperamentPreference::Porcupine => true,
        }
    }

    /// The porcupine reading of meantone with `n` and `f` steps is taken: porcupine
    /// is tried, the fourth splits in three, and the secondary step is not negative.
    pub open spec fn porcupine_taken(&self, n: int, f: int) -> bool {
        &&& self.tries_porcupine(n, f)
        &&& (n - f) % 3 == 0
        &&& n - 2 * (n - f) >= 0
    }

    /// The rating of meantone with `n` and `f` steps: acceptable if porcupine is
    /// taken or meantone is acceptable.
    pub open spec fn rated_acceptable(&self, n: int, f: int) -> bool {
        self.porcupine_taken(n, f) || meantone_acceptable(n, f)
    }

    /// `t` is the temperament rated for `n` and `f` steps: the porcupine reading
    /// where it is taken, else meantone, with their step counts.
    pub open spec fn rated_temperament(&self, n: int, f: int, t: EqualTemperament) -> bool {
        &&& t.per_gen.period == n
        &&& t.num_steps_per_fifth == f
        &&& if self.porcupine_taken(n, f) {
            is_porcupine(t, n, (n - f) / 3)
        } else {
            is_meantone(t, n, f)
        }
    }

    pub fn with_second_best_fifth_allowed(self, flat_fifth_allowed: bool) -> (r: Self)
        ensures
            r.second_best_fifth_allowed == flat_fifth_allowed,
            r.preference == self.preference,
    {
        let mut r = self;
        r.second_best_fifth_allowed = flat_fifth_allowed;
        r
    }

    pub fn with_preference(self, preference: TemperamentPreference) -> (r: Self)
        ensures
            r.preference == preference,
            r.second_best_fifth_allowed == self.second_best_fifth_allowed,
    {
        let mut r = self;
        r.preference = preference;
        r
    }

    /// The temperament of `num_steps_per_octave` equal steps to the octave: the
    /// fifth is the number of steps nearest to a just fifth, tried as described at
    /// `from_starting_point`.
    pub fn by_edo(&self, num_steps_per_octave: u16) -> (r: EqualTemperament)
        requires
            0 < num_steps_per_octave <= MAX_STEPS_PER_OCTAVE,
        ensures
            r.wf(),
            r.per_gen.period == num_steps_per_octave,
            r.size_of_octave.units == UNITS_PER_OCTAVE,
            ({
                let n = num_steps_per_octave as int;
                let f = round_div(n * just_fifth_units(), UNITS_PER_OCTAVE as int);
                let second = self.second_best_fifth_allowed && f > 0 && !self.rated_acceptable(
                    n,
                    f,
                ) && self.rated_acceptable(n, f - 1);
                &&& second ==> r.num_steps_per_fifth == f - 1
                &&& !second ==> r.num_steps_per_fifth == f
            }),
            self.rated_temperament(num_steps_per_octave as int, r.num_steps_per_fifth as int, r),
            steps_fit(num_steps_per_octave as int, r.num_steps_per_fifth as int),
    {
        let n = num_steps_per_octave as i64;
        let fifth = JUST_FIFTH_UNITS;
        proof {
            lemma_just_fifth();
            assert(n * fifth <= n * UNITS_PER_OCTAVE) by (nonlinear_arith)
                requires
                    0 < n,
                    fifth <= UNITS_PER_OCTAVE,
            ;
            crate::math::lemma_round_div_monotone(
                n * fifth,
                n * UNITS_PER_OCTAVE,
                UNITS_PER_OCTAVE as int,
            );
            vstd::arithmetic::div_mod::lemma_fundamental_div_mod_converse(
                2 * n * UNITS_PER_OCTAVE + UNITS_PER_OCTAVE,
                2 * UNITS_PER_OCTAVE,
                n as int,
                UNITS_PER_OCTAVE as int,
            );
            assert(n * fifth >= 0) by (nonlinear_arith)
                requires
                    0 < n,
                    fifth > 0,
            ;
            crate::math::lemma_round_div_nonneg(n * fifth, UNITS_PER_OCTAVE as int);
        }
        let best_fifth = crate::math::div_round(n * fifth, UNITS_PER_OCTAVE);
        self.from_starting_point(num_steps_per_octave, best_fifth as u16)
    }

    /// The temperament whose step is closest to `step_size`: the number of steps to
    /// the octave and to a just fifth, each rounded, are tried as described at
    /// `from_starting_point`, and the period becomes the step repeated that many
    /// times.
    pub fn by_step_size(&self, step_size: Ratio) -> (r: EqualTemperament)
        requires
            step_size.wf(),
            step_size.units > 0,
            1 <= round_div(UNITS_PER_OCTAVE as int, step_size.units as int)
                <= MAX_STEPS_PER_OCTAVE,
        ensures
            r.wf(),
            r.per_gen.period == round_div(UNITS_PER_OCTAVE as int, step_size.units as int),
            r.size_of_octave.units == step_size.units * r.per_gen.period,
            ({
                let n = round_div(UNITS_PER_OCTAVE as int, step_size.units as int);
                let f = round_div(just_fifth_units(), step_size.units as int);
                let second = self.second_best_fifth_allowed && f > 0 && !self.rated_acceptable(
                    n,
                    f,
                ) && self.rated_acceptable(n, f - 1);
                &&& second ==> r.num_steps_per_fifth == f - 1
                &&& !second ==> r.num_steps_per_fifth == f
                &&& self.rated_temperament(n, r.num_steps_per_fifth as int, r)
                &&& steps_fit(n, r.num_steps_per_fifth as int)
            }),
    {
        let octave = Ratio::octave();
        let num_steps_per_octave = octave.num_equal_steps_of_size(step_size);
        let fifth = Ratio::from_units(JUST_FIFTH_UNITS);
        let best_fifth = fifth.num_equal_steps_of_size(step_size);
        proof {
            lemma_just_fifth();
            crate::math::lemma_round_div_monotone(
                just_fifth_units(),
                UNITS_PER_OCTAVE as int,
                step_size.units as int,
            );
            crate::math::lemma_round_div_nonneg(just_fifth_units(), step_size.units as int);
        }
        let t = self.from_starting_point(num_steps_per_octave as u16, best_fifth as u16);
        proof {
            let (s, n, o) = (step_size.units as int, num_steps_per_octave as int, UNITS_PER_OCTAVE as int);
            vstd::arithmetic::div_mod::lemma_fundamental_div_mod(2 * o + s, 2 * s);
            let rem = (2 * o + s) % (2 * s);
            assert(s * n <= 2 * o) by (nonlinear_arith)
                requires
                    2 * o + s == 2 * s * n + rem,
                    0 <= rem,
                    n >= 1,
                    s > 0,
            ;
        }
        t.with_size_of_octave(step_size.repeated(num_steps_per_octave))
    }

    /// Rates meantone with the best fifth; if that is not acceptable and the second
    /// best (one step flatter) is allowed and acceptable, takes that one; otherwise
    /// keeps the first.
    pub fn from_starting_point(&self, num_steps_per_octave: u16, best_fifth: u16) -> (r:
        EqualTemperament)
        requires
            finder_fits(num_steps_per_octave as int, best_fifth as int),
            best_fifth > 0 ==> finder_fits(num_steps_per_octave as int, best_fifth - 1),
        ensures
            r.wf(),
            r.per_gen.period == num_steps_per_octave,
            r.size_of_octave.units == UNITS_PER_OCTAVE,
            ({
                let (n, f) = (num_steps_per_octave as int, best_fifth as int);
                let second = self.second_best_fifth_allowed && f > 0 && !self.rated_acceptable(
                    n,
                    f,
                ) && self.rated_acceptable(n, f - 1);
                &&& second ==> r.num_steps_per_fifth == f - 1
                &&& !second ==> r.num_steps_per_fifth == f
            }),
            self.rated_temperament(num_steps_per_octave as int, r.num_steps_per_fifth as int, r),
            r.num_steps_per_fifth <= num_steps_per_octave,
    {
        let (best_fifth_temperament, has_acceptable_qualities) = self.create_and_rate_temperament(
            num_steps_per_octave,
            best_fifth,
        );
        if has_acceptable_qualities {
            return best_fifth_temperament;
        }
        if self.second_best_fifth_allowed && best_fifth > 0 {
            let (flat_fifth_temperament, has_acceptable_qualities) =
                self.create_and_rate_temperament(num_steps_per_octave, best_fifth - 1);
            if has_acceptable_qualities {
                return flat_fifth_temperament;
            }
        }
        best_fifth_temperament
    }

    /// Meantone with the given steps, or its porcupine reading where the preference
    /// asks for porcupine and porcupine has a secondary step that is not negative;
    /// with whether the result is acceptable.
    pub fn create_and_rate_temperament(
        &self,
        num_steps_per_octave: u16,
        num_steps_per_fifth: u16,
    ) -> (r: (EqualTemperament, bool))
        requires
            finder_fits(num_steps_per_octave as int, num_steps_per_fifth as int),
        ensures
            r.0.wf(),
            r.0.per_gen.period == num_steps_per_octave,
            r.0.num_steps_per_fifth == num_steps_per_fifth,
            r.0.size_of_octave.units == UNITS_PER_OCTAVE,
            r.1 == self.rated_acceptable(num_steps_per_octave as int, num_steps_per_fifth as int),
            self.rated_temperament(num_steps_per_octave as int, num_steps_per_fifth as int, r.0),
    {
        let temperament = EqualTemperament::meantone(num_steps_per_octave, num_steps_per_fifth);
        let has_acceptable_qualities = temperament.primary_step() > 0
            && temperament.secondary_step() >= 0;
        let try_porcupine = match self.preference {
            TemperamentPreference::Meantone => false,
            TemperamentPreference::PorcupineWhenMeantoneIsBad => {
                !has_acceptable_qualities || temperament.sharpness() < 0
            },
            TemperamentPreference::Porcupine => true,
        };
        if try_porcupine {
            if let Some(porcupine) = temperament.as_porcupine() {
                if porcupine.secondary_step() >= 0 {
                    return (porcupine, true);
                }
            }
        }
        (temperament, has_acceptable_qualities)
    }
}

} // verus!
