use vstd::prelude::*;

use crate::math::rem_floor;

verus! {

/// The greatest common divisor, by Euclid's algorithm.
pub open spec fn gcd_spec(a: nat, b: nat) -> nat
    decreases b,
{
    if b == 0 {
        a
    } else {
        gcd_spec(b, a % b)
    }
}

/// The greatest common divisor divides both numbers.
pub proof fn lemma_gcd_divides(a: nat, b: nat)
    requires
        a > 0 || b > 0,
    ensures
        gcd_spec(a, b) > 0,
        a % gcd_spec(a, b) == 0,
        b % gcd_spec(a, b) == 0,
    decreases b,
{
    if b == 0 {
        vstd::arithmetic::div_mod::lemma_mod_self_0(a as int);
        vstd::arithmetic::div_mod::lemma_small_mod(0, a);
    } else {
        lemma_gcd_divides(b, a % b);
        let g = gcd_spec(a, b);
        let (q, r) = (a / b, a % b);
        vstd::arithmetic::div_mod::lemma_fundamental_div_mod(a as int, b as int);
        let (kb, kr) = (b / g, r / g);
        vstd::arithmetic::div_mod::lemma_fundamental_div_mod(b as int, g as int);
        vstd::arithmetic::div_mod::lemma_fundamental_div_mod(r as int, g as int);
        assert(a == (q * kb + kr) * g) by (nonlinear_arith)
            requires
                a == b * q + r,
                b == g * kb,
                r == g * kr,
        ;
        vstd::arithmetic::div_mod::lemma_mod_multiples_basic((q * kb + kr) as int, g as int);
    }
}

/// The greatest common divisor of a positive number and another is positive and no
/// larger than the first.
pub proof fn lemma_gcd_bounds(a: nat, b: nat)
    requires
        a > 0,
    ensures
        0 < gcd_spec(a, b) <= a,
{
    lemma_gcd_divides(a, b);
    if gcd_spec(a, b) > a {
        vstd::arithmetic::div_mod::lemma_small_mod(a, gcd_spec(a, b));
    }
}

pub fn gcd(a: u16, b: u16) -> (r: u16)
    ensures
        r == gcd_spec(a as nat, b as nat),
{
    let mut x = a;
    let mut y = b;
    while y != 0
        invariant
            gcd_spec(x as nat, y as nat) == gcd_spec(a as nat, b as nat),
        decreases y,
    {
        let t = x % y;
        x = y;
        y = t;
    }
    x
}

/// Where a step of an equal temperament sits on the chain of generators: the
/// cycle it belongs to, and how many generators from the start of that cycle.
#[derive(Clone, Copy, Debug, PartialEq, Eq, Structural)]
pub struct Generation {
    pub cycle: u16,
    pub degree: Option<u16>,
}

/// A period (the number of steps to the octave) and a generator (a number of steps)
/// that walks through the steps; when the two share a divisor, the steps fall into
/// that many separate cycles.
#[derive(Clone, Copy, Debug, PartialEq, Eq, Structural)]
pub struct PerGen {
    pub period: u16,
    pub generator: u16,
    pub num_cycles: u16,
}

/// `d` generators of `g` steps land on `target` modulo `m`.
pub open spec fn lands_on(d: int, g: int, m: int, target: int) -> bool {
    (d * g) % m == target
}

impl PerGen {
    pub open spec fn wf(&self) -> bool {
        &&& self.period > 0
        &&& self.num_cycles as nat == gcd_spec(self.period as nat, self.generator as nat)
        &&& 0 < self.num_cycles <= self.period
    }

    pub fn new(period: u16, generator: u16) -> (r: PerGen)
        requires
            period > 0,
        ensures
            r.period == period,
            r.generator == generator,
            r.num_cycles == gcd_spec(period as nat, generator as nat),
    {
        PerGen { period, generator, num_cycles: gcd(period, generator) }
    }

    pub fn period(&self) -> (r: u16)
        ensures
            r == self.period,
    {
        self.period
    }

    pub fn generator(&self) -> (r: u16)
        ensures
            r == self.generator,
    {
        self.generator
    }

    pub fn num_cycles(&self) -> (r: u16)
        ensures
            r == self.num_cycles,
    {
        self.num_cycles
    }

    /// The number of steps in each cycle.
    pub fn reduced_period(&self) -> (r: u16)
        requires
            self.num_cycles > 0,
        ensures
            r == self.period / self.num_cycles,
    {
        self.period / self.num_cycles
    }

    /// The cycle of step `index`, and the fewest generators (within the cycle) that
    /// reach it; no degree where none does.
    pub fn get_generation(&self, index: i32) -> (r: Generation)
        requires
            self.num_cycles > 0,
            self.num_cycles <= self.period,
        ensures
            r.cycle == (index as int) % (self.num_cycles as int),
            ({
                let rp = (self.period / self.num_cycles) as int;
                let g = (self.generator / self.num_cycles) as int;
                let target = ((index as int) / (self.num_cycles as int)) % rp;
                match r.degree {
                    Some(d) => d < rp && lands_on(d as int, g, rp, target) && forall|e: int|
                        0 <= e < d ==> !lands_on(e, g, rp, target),
                    None => forall|e: int| 0 <= e < rp ==> !lands_on(e, g, rp, target),
                }
            }),
    {
        let nc = self.num_cycles as i64;
        let cycle = rem_floor(index as i64, nc);
        let rp = (self.period / self.num_cycles) as i64;
        let g = (self.generator / self.num_cycles) as i64;
        let reduced_index = crate::math::div_floor(index as i64, nc);
        proof {
            assert(rp >= 1) by (nonlinear_arith)
                requires
                    rp == self.period as int / self.num_cycles as int,
                    0 < self.num_cycles <= self.period,
            {
                vstd::arithmetic::div_mod::lemma_div_is_ordered(
                    self.num_cycles as int,
                    self.period as int,
                    self.num_cycles as int,
                );
                vstd::arithmetic::div_mod::lemma_div_basics(self.num_cycles as int);
            }
            assert(rp <= 65535) by {
                vstd::arithmetic::div_mod::lemma_div_is_ordered_by_denominator(
                    self.period as int,
                    1,
                    self.num_cycles as int,
                );
            }
            assert(g <= 65535) by {
                vstd::arithmetic::div_mod::lemma_div_is_ordered_by_denominator(
                    self.generator as int,
                    1,
                    self.num_cycles as int,
                );
            }
            assert(0int * g == 0);
            let (ii, ni, qi) = (index as int, nc as int, reduced_index as int);
            vstd::arithmetic::div_mod::lemma_fundamental_div_mod(ii, ni);
            assert(qi >= -0x1_0000_0000) by (nonlinear_arith)
                requires
                    ii == ni * qi + ii % ni,
                    0 <= ii % ni < ni,
                    ni >= 1,
                    ii >= -0x8000_0000,
            {
                if qi < -0x1_0000_0000 {
                    assert(ni * qi <= qi);
                }
            }
        }
        let target = rem_floor(reduced_index, rp);
        let mut d: i64 = 0;
        let mut acc: i64 = 0;
        while d < rp
            invariant
                cycle == (index as int) % (self.num_cycles as int),
                0 <= cycle < self.num_cycles,
                rp == self.period / self.num_cycles,
                g == self.generator / self.num_cycles,
                target == ((index as int) / (self.num_cycles as int)) % (rp as int),
                0 < rp <= 65535,
                0 <= g <= 65535,
                0 <= d <= rp,
                0 <= target < rp,
                0 <= acc < rp,
                acc as int == (d as int * g as int) % (rp as int),
                forall|e: int| 0 <= e < d ==> !lands_on(e, g as int, rp as int, target as int),
            decreases rp - d,
        {
            if acc == target {
                return Generation { cycle: cycle as u16, degree: Some(d as u16) };
            }
            let next = rem_floor(acc + g, rp);
            proof {
                let (di, gi, ri) = (d as int, g as int, rp as int);
                vstd::arithmetic::div_mod::lemma_add_mod_noop_right(gi, di * gi, ri);
                assert((di + 1) * gi == di * gi + gi) by (nonlinear_arith);
                assert(next as int == ((di * gi) % ri + gi) % ri);
            }
            acc = next;
            d = d + 1;
        }
        Generation { cycle: cycle as u16, degree: None }
    }
}

/// Whether note names run with the chain of generators or against it.
#[derive(Clone, Copy, Debug, PartialEq, Eq, Structural)]
pub enum NoteOrder {
    Normal,
    Reversed,
}

/// A note name of a seven-letter (heptatonic) notation: a letter, a number of
/// accidentals (positive for sharps, negative for flats) and, where the steps fall
/// into several cycles, the cycle.
#[derive(Clone, Copy, Debug, PartialEq, Eq, Structural)]
pub struct HeptatonicName {
    pub letter: char,
    pub accidentals: i32,
    pub cycle: u16,
}

/// How generator positions become note names: seven letters in genchain order, the
/// position of the chain's origin among them, the number of steps of one sharp,
/// and the direction in which the names run.
#[derive(Clone, Copy, Debug)]
pub struct NoteFormatter {
    pub letters: [char; 7],
    pub genchain_origin: i16,
    pub sharpness: i16,
    pub note_order: NoteOrder,
}

/// The position on the chain of the name of a step `degree` generators from the
/// origin, in the direction of the names.
pub open spec fn oriented(degree: int, rp: int, order: NoteOrder) -> int {
    match order {
        NoteOrder::Normal => centered(degree, rp),
        NoteOrder::Reversed => -centered(degree, rp),
    }
}

/// The position on the chain of generators, taken as close to the origin as
/// possible: degrees past half the cycle count downwards.
pub open spec fn centered(degree: int, rp: int) -> int {
    if 2 * degree <= rp {
        degree
    } else {
        degree - rp
    }
}

impl NoteFormatter {
    /// The name of the step `index` of the temperament described by `per_gen`: the
    /// letter reached by walking the chain from the origin, and one accidental for
    /// each time the walk wraps around the seven letters. `None` where no number of
    /// generators reaches the step.
    pub fn get_name_by_step(&self, per_gen: &PerGen, index: i32) -> (r: Option<HeptatonicName>)
        requires
            per_gen.num_cycles > 0,
            per_gen.num_cycles <= per_gen.period,
            0 <= self.genchain_origin < 7,
        ensures
            ({
                let gen = per_gen.get_generation_spec(index);
                match gen.degree {
                    None => r.is_none(),
                    Some(d) => {
                        let rp = (per_gen.period / per_gen.num_cycles) as int;
                        let p = oriented(d as int, rp, self.note_order);
                        let pos = self.genchain_origin + p;
                        &&& r is Some
                        &&& r->Some_0.letter == self.letters@[pos % 7]
                        &&& r->Some_0.accidentals == pos / 7
                        &&& r->Some_0.cycle == gen.cycle
                    },
                }
            }),
    {
        let generation = per_gen.get_generation(index);
        proof {
            per_gen.lemma_generation_unique(index, generation);
        }
        match generation.degree {
            None => None,
            Some(d) => {
                let rp = (per_gen.period / per_gen.num_cycles) as i64;
                let c: i64 = if 2 * (d as i64) <= rp {
                    d as i64
                } else {
                    d as i64 - rp
                };
                let p: i64 = match self.note_order {
                    NoteOrder::Normal => c,
                    NoteOrder::Reversed => -c,
                };
                let pos = self.genchain_origin as i64 + p;
                let letter_index = rem_floor(pos, 7);
                let accidentals = crate::math::div_floor(pos, 7);
                Some(
                    HeptatonicName {
                        letter: self.letters[letter_index as usize],
                        accidentals: accidentals as i32,
                        cycle: generation.cycle,
                    },
                )
            },
        }
    }
}

impl PerGen {
    /// The generation that `get_generation` returns, as a function of the index.
    pub open spec fn get_generation_spec(&self, index: i32) -> Generation {
        let rp = (self.period / self.num_cycles) as int;
        let g = (self.generator / self.num_cycles) as int;
        let target = ((index as int) / (self.num_cycles as int)) % rp;
        Generation {
            cycle: ((index as int) % (self.num_cycles as int)) as u16,
            degree: if exists|e: int| 0 <= e < rp && lands_on(e, g, rp, target) {
                Some(
                    (choose|d: int|
                        0 <= d < rp && lands_on(d, g, rp, target) && forall|e: int|
                            0 <= e < d ==> !lands_on(e, g, rp, target)) as u16,
                )
            } else {
                None
            },
        }
    }

    proof fn lemma_generation_unique(&self, index: i32, gen: Generation)
        requires
            self.num_cycles > 0,
            self.num_cycles <= self.period,
            gen.cycle == (index as int) % (self.num_cycles as int),
            ({
                let rp = (self.period / self.num_cycles) as int;
                let g = (self.generator / self.num_cycles) as int;
                let target = ((index as int) / (self.num_cycles as int)) % rp;
                match gen.degree {
                    Some(d) => d < rp && lands_on(d as int, g, rp, target) && forall|e: int|
                        0 <= e < d ==> !lands_on(e, g, rp, target),
                    None => forall|e: int| 0 <= e < rp ==> !lands_on(e, g, rp, target),
                }
            }),
        ensures
            gen == self.get_generation_spec(index),
    {
        let rp = (self.period / self.num_cycles) as int;
        let g = (self.generator / self.num_cycles) as int;
        let target = ((index as int) / (self.num_cycles as int)) % rp;
        match gen.degree {
            Some(d) => {
                assert(0 <= d < rp && lands_on(d as int, g, rp, target));
                let c = choose|c: int|
                    0 <= c < rp && lands_on(c, g, rp, target) && forall|e: int|
                        0 <= e < c ==> !lands_on(e, g, rp, target);
                assert(c == d as int) by {
                    if c < d {
                        assert(!lands_on(c, g, rp, target));
                    }
                    if d < c {
                        assert(!lands_on(d as int, g, rp, target));
                    }
                }
            },
            None => {},
        }
    }
}

} // verus!
