use vstd::prelude::*;

use crate::primes::{
    lemma_power_grows, lemma_prime_bounds, power, prime, prime_log, prime_log_spec, prime_spec,
    FINE_PER_UNIT, NUM_PRIMES,
};
use crate::math::{div_round_wide, lemma_round_div_monotone, round_div};
use crate::ratio::Ratio;

verus! {

/// A small interval given by its prime factorisation (its monzo): the `i`-th entry
/// is the power of the `i`-th prime, starting with 2.
pub struct Comma {
    description: &'static str,
    monzo: &'static [i16],
}

/// The size of the first `n` factors of a monzo, in fine units.
pub open spec fn monzo_log(m: Seq<i16>, n: int) -> int
    decreases n,
{
    if n <= 0 {
        0
    } else {
        monzo_log(m, n - 1) + m[n - 1] * prime_log_spec(n - 1)
    }
}

/// The factor that entry `i` adds to the numerator (positive powers).
pub open spec fn numer_factor(m: Seq<i16>, i: int) -> int {
    if m[i] >= 0 {
        power(prime_spec(i), m[i] as nat)
    } else {
        1
    }
}

/// The factor that entry `i` adds to the denominator (negative powers).
pub open spec fn denom_factor(m: Seq<i16>, i: int) -> int {
    if m[i] < 0 {
        power(prime_spec(i), (-m[i]) as nat)
    } else {
        1
    }
}

/// The numerator of the first `n` factors of a monzo.
pub open spec fn monzo_numer(m: Seq<i16>, n: int) -> int
    decreases n,
{
    if n <= 0 {
        1
    } else {
        monzo_numer(m, n - 1) * numer_factor(m, n - 1)
    }
}

/// The denominator of the first `n` factors of a monzo.
pub open spec fn monzo_denom(m: Seq<i16>, n: int) -> int
    decreases n,
{
    if n <= 0 {
        1
    } else {
        monzo_denom(m, n - 1) * denom_factor(m, n - 1)
    }
}

proof fn lemma_factors_positive(m: Seq<i16>, i: int)
    requires
        0 <= i < m.len(),
        m.len() <= NUM_PRIMES,
    ensures
        numer_factor(m, i) >= 1,
        denom_factor(m, i) >= 1,
{
    lemma_prime_bounds(i);
    lemma_power_grows(prime_spec(i), 0, m[i] as nat);
    lemma_power_grows(prime_spec(i), 0, (-m[i]) as nat);
}

proof fn lemma_fraction_grows(m: Seq<i16>, a: int, b: int)
    requires
        0 <= a <= b <= m.len(),
        m.len() <= NUM_PRIMES,
    ensures
        1 <= monzo_numer(m, a) <= monzo_numer(m, b),
        1 <= monzo_denom(m, a) <= monzo_denom(m, b),
    decreases b,
{
    if a < b {
        lemma_fraction_grows(m, a, b - 1);
        lemma_factors_positive(m, b - 1);
        let (n, d) = (monzo_numer(m, b - 1), monzo_denom(m, b - 1));
        let (fn_, fd) = (numer_factor(m, b - 1), denom_factor(m, b - 1));
        assert(n <= n * fn_ && d <= d * fd) by (nonlinear_arith)
            requires
                n >= 1,
                d >= 1,
                fn_ >= 1,
                fd >= 1,
        ;
    } else if a > 0 {
        lemma_fraction_grows(m, a - 1, a - 1);
        lemma_factors_positive(m, a - 1);
        let (n, d) = (monzo_numer(m, a - 1), monzo_denom(m, a - 1));
        let (fn_, fd) = (numer_factor(m, a - 1), denom_factor(m, a - 1));
        assert(n * fn_ >= 1 && d * fd >= 1) by (nonlinear_arith)
            requires
                n >= 1,
                d >= 1,
                fn_ >= 1,
                fd >= 1,
        ;
    }
}

/// Multiplies `acc` by `p` to the power `e`, where the result is known to fit.
fn times_power(acc: u64, p: u64, e: u16, Ghost(bound): Ghost<int>) -> (r: u64)
    requires
        acc >= 1,
        p >= 1,
        acc * power(p as int, e as nat) <= bound,
        bound <= u64::MAX,
    ensures
        r == acc * power(p as int, e as nat),
{
    let mut r = acc;
    let mut k: u16 = 0;
    while k < e
        invariant
            k <= e,
            acc >= 1,
            p >= 1,
            r == acc * power(p as int, k as nat),
            acc * power(p as int, e as nat) <= bound,
            bound <= u64::MAX,
        decreases e - k,
    {
        proof {
            lemma_power_grows(p as int, (k + 1) as nat, e as nat);
            assert(power(p as int, (k + 1) as nat) == p * power(p as int, k as nat));
            assert(acc * power(p as int, (k + 1) as nat) <= acc * power(p as int, e as nat))
                by (nonlinear_arith)
                requires
                    power(p as int, (k + 1) as nat) <= power(p as int, e as nat),
                    acc >= 1,
            ;
            assert(r * p == acc * power(p as int, (k + 1) as nat)) by (nonlinear_arith)
                requires
                    r == acc * power(p as int, k as nat),
                    power(p as int, (k + 1) as nat) == p * power(p as int, k as nat),
            ;
        }
        r = r * p;
        k = k + 1;
    }
    r
}

impl Comma {
    pub closed spec fn monzo_spec(&self) -> Seq<i16> {
        self.monzo@
    }

    pub closed spec fn description_spec(&self) -> &'static str {
        self.description
    }

    pub fn from_monzo(description: &'static str, monzo: &'static [i16]) -> (r: Self)
        ensures
            r.monzo_spec() == monzo@,
            r.description_spec() == description,
    {
        Self { description, monzo }
    }

    pub fn description(&self) -> (r: &str)
        ensures
            r == self.description_spec(),
    {
        self.description
    }

    /// The prime factor representation.
    pub fn monzo(&self) -> (r: &'static [i16])
        ensures
            r@ == self.monzo_spec(),
    {
        self.monzo
    }

    /// The size of the comma: the sum of each power times the size of its prime,
    /// taken in fine units and rounded once to the nearest unit.
    pub fn as_ratio(&self) -> (r: Ratio)
        requires
            self.monzo_spec().len() <= NUM_PRIMES,
        ensures
            r.units == round_div(
                monzo_log(self.monzo_spec(), self.monzo_spec().len() as int),
                FINE_PER_UNIT as int,
            ),
            r.wf(),
    {
        let m = self.monzo;
        let mut fine: i128 = 0;
        let mut i: usize = 0;
        while i < m.len()
            invariant
                m@ == self.monzo_spec(),
                m.len() <= NUM_PRIMES,
                i <= m.len(),
                fine == monzo_log(m@, i as int),
                -(i as int) * 315_000_000_000_000_000 <= fine <= (i as int)
                    * 315_000_000_000_000_000,
            decreases m.len() - i,
        {
            let power = m[i];
            let log = prime_log(i);
            proof {
                lemma_prime_bounds(i as int);
                assert(-315_000_000_000_000_000 <= power * log <= 315_000_000_000_000_000)
                    by (nonlinear_arith)
                    requires
                        -32768 <= power <= 32767,
                        0 < log <= 9_600_000_000_000,
                ;
            }
            fine = fine + power as i128 * log as i128;
            i = i + 1;
        }
        let units = div_round_wide(fine, FINE_PER_UNIT as i128);
        proof {
            let bound: int = 17_100_000_000_000_000_000;
            assert((i as int) * 315_000_000_000_000_000 <= 54 * 315_000_000_000_000_000)
                by (nonlinear_arith)
                requires
                    0 <= i <= 54,
            ;
            assert(-bound <= fine <= bound);
            lemma_round_div_monotone(-bound, fine as int, 1000);
            lemma_round_div_monotone(fine as int, bound, 1000);
            vstd::arithmetic::div_mod::lemma_fundamental_div_mod_converse(
                -2 * bound + 1000,
                2000,
                -bound / 1000,
                1000,
            );
            vstd::arithmetic::div_mod::lemma_fundamental_div_mod_converse(
                2 * bound + 1000,
                2000,
                bound / 1000,
                1000,
            );
        }
        Ratio::from_units(units as i64)
    }

    /// The numerator and the denominator: the product of the primes with positive
    /// powers, and that of those with negative powers.
    pub fn as_fraction(&self) -> (r: (u64, u64))
        requires
            self.monzo_spec().len() <= NUM_PRIMES,
            monzo_numer(self.monzo_spec(), self.monzo_spec().len() as int) <= u64::MAX,
            monzo_denom(self.monzo_spec(), self.monzo_spec().len() as int) <= u64::MAX,
        ensures
            r.0 == monzo_numer(self.monzo_spec(), self.monzo_spec().len() as int),
            r.1 == monzo_denom(self.monzo_spec(), self.monzo_spec().len() as int),
    {
        let m = self.monzo;
        let ghost len = m@.len() as int;
        let mut numer: u64 = 1;
        let mut denom: u64 = 1;
        let mut i: usize = 0;
        while i < m.len()
            invariant
                m@ == self.monzo_spec(),
                len == m@.len(),
                m.len() <= NUM_PRIMES,
                i <= m.len(),
                numer == monzo_numer(m@, i as int),
                denom == monzo_denom(m@, i as int),
                monzo_numer(m@, len) <= u64::MAX,
                monzo_denom(m@, len) <= u64::MAX,
            decreases m.len() - i,
        {
            let power = m[i];
            let p = prime(i);
            proof {
                lemma_prime_bounds(i as int);
                lemma_fraction_grows(m@, i as int, len);
                lemma_fraction_grows(m@, (i + 1) as int, len);
                lemma_fraction_grows(m@, i as int, i as int);
            }
            if power >= 0 {
                numer = times_power(numer, p, power as u16, Ghost(monzo_numer(m@, len)));
            } else {
                denom = times_power(denom, p, (-(power as i32)) as u16, Ghost(monzo_denom(m@, len)));
            }
            i = i + 1;
        }
        (numer, denom)
    }
}

} // verus!
