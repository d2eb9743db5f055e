use vstd::prelude::*;

use crate::math::{div_round, lemma_round_div_monotone, round_div};
use crate::primes::{
    power,
    lemma_prime_bounds, prime, prime_log, prime_log_spec, prime_spec, FINE_PER_UNIT, NUM_PRIMES,
};
use crate::ratio::{Ratio, MAX_UNITS};

verus! {

/// The number of trial-division steps allowed when factoring: enough for any `u64`
/// (at most 64 divisions and one step past each of the 54 primes).
pub const FACTOR_STEPS: u64 = 120;

/// Trial division of `n` by the primes of index `i` up to (not including)
/// `max_index`, within `steps` steps: the size (base-2 logarithm, in fine units) of `n`
/// as the sum of the sizes of its prime factors, or `None` where a factor is left
/// that is not among those primes.
pub open spec fn factor_log(n: int, i: int, max_index: int, steps: nat) -> Option<int>
    decreases steps,
{
    if steps == 0 {
        None
    } else if n == 1 {
        Some(0)
    } else if n <= 0 || i >= max_index || i >= NUM_PRIMES {
        None
    } else if n % prime_spec(i) == 0 {
        match factor_log(n / prime_spec(i), i, max_index, (steps - 1) as nat) {
            Some(x) => Some(x + prime_log_spec(i)),
            None => None,
        }
    } else {
        factor_log(n, i + 1, max_index, (steps - 1) as nat)
    }
}

/// A lower bound on the size, in fine units, that each bit of a number adds: no
/// prime `p` of the table exceeds 2 to the power `size(p) / FINE_PER_BIT`.
pub const FINE_PER_BIT: i64 = 928_000_000_000;

pub proof fn lemma_power_add(b: int, e1: nat, e2: nat)
    ensures
        power(b, e1) * power(b, e2) == power(b, e1 + e2),
    decreases e1,
{
    if e1 > 0 {
        lemma_power_add(b, (e1 - 1) as nat, e2);
        assert(power(b, e1) * power(b, e2) == b * (power(b, (e1 - 1) as nat) * power(b, e2)))
            by (nonlinear_arith)
            requires
                power(b, e1) == b * power(b, (e1 - 1) as nat),
        ;
        assert((e1 - 1) as nat + e2 == (e1 + e2 - 1) as nat);
    }
}

/// Each prime of the table is at most 2 to the power of its size over `FINE_PER_BIT`.
pub proof fn lemma_prime_within_bits(i: int)
    requires
        0 <= i < NUM_PRIMES,
    ensures
        prime_spec(i) <= power(2, (prime_log_spec(i) / FINE_PER_BIT as int) as nat),
{
    reveal_with_fuel(power, 11);
}

/// A number that factors over the table is at most 2 to the power of its size over
/// `FINE_PER_BIT`.
pub proof fn lemma_size_bounds_number(n: int, i: int, max_index: int, steps: nat)
    requires
        0 <= i,
        factor_log(n, i, max_index, steps) is Some,
    ensures
        factor_log(n, i, max_index, steps)->Some_0 >= 0,
        1 <= n <= power(2, (factor_log(n, i, max_index, steps)->Some_0 / FINE_PER_BIT as int) as nat),
    decreases steps,
{
    let c = FINE_PER_BIT as int;
    if n == 1 {
        assert(power(2, 0) == 1) by {
            reveal_with_fuel(power, 1);
        }
    } else if n % prime_spec(i) == 0 {
        let p = prime_spec(i);
        let m = n / p;
        lemma_size_bounds_number(m, i, max_index, (steps - 1) as nat);
        let xm = factor_log(m, i, max_index, (steps - 1) as nat)->Some_0;
        let l = prime_log_spec(i);
        lemma_prime_bounds(i);
        lemma_prime_within_bits(i);
        let (a, b) = ((l / c) as nat, (xm / c) as nat);
        lemma_power_add(2, a, b);
        vstd::arithmetic::div_mod::lemma_fundamental_div_mod(n, p);
        assert(n == p * m);
        crate::primes::lemma_power_grows(2, 0, a);
        crate::primes::lemma_power_grows(2, 0, b);
        assert(n <= power(2, a) * power(2, b)) by (nonlinear_arith)
            requires
                n == p * m,
                1 <= p <= power(2, a),
                1 <= m <= power(2, b),
        ;
        vstd::arithmetic::div_mod::lemma_fundamental_div_mod(l, c);
        vstd::arithmetic::div_mod::lemma_fundamental_div_mod(xm, c);
        vstd::arithmetic::div_mod::lemma_fundamental_div_mod(xm + l, c);
        assert(a + b <= (xm + l) / c) by (nonlinear_arith)
            requires
                l == c * (l / c) + l % c,
                xm == c * (xm / c) + xm % c,
                xm + l == c * ((xm + l) / c) + (xm + l) % c,
                0 <= l % c < c,
                0 <= xm % c < c,
                0 <= (xm + l) % c < c,
                a == l / c,
                b == xm / c,
                c > 0,
        ;
        crate::primes::lemma_power_grows(2, a + b, ((xm + l) / c) as nat);
        assert(n >= 1) by (nonlinear_arith)
            requires
                n == p * m,
                p >= 2,
                m >= 1,
        ;
    } else {
        lemma_size_bounds_number(n, i + 1, max_index, (steps - 1) as nat);
    }
}

/// The size of `n` where all its prime factors lie among the first `max_index` primes.
pub open spec fn smooth_log(n: int, max_index: int) -> Option<int> {
    factor_log(n, 0, max_index, FACTOR_STEPS as nat)
}

/// The number of primes of the table, from index `i` on, that do not exceed `limit`
/// (counted up to the first one that does), plus `i`.
pub open spec fn primes_up_to_from(limit: int, i: int) -> int
    decreases NUM_PRIMES - i,
{
    if i >= NUM_PRIMES || prime_spec(i) > limit {
        i
    } else {
        primes_up_to_from(limit, i + 1)
    }
}

/// The number of primes in the table that do not exceed `limit`.
pub open spec fn primes_up_to(limit: int) -> int {
    primes_up_to_from(limit, 0)
}

fn primes_up_to_exec(limit: u8) -> (r: usize)
    ensures
        r == primes_up_to(limit as int),
        r <= NUM_PRIMES,
{
    let mut i: usize = 0;
    while i < NUM_PRIMES
        invariant
            i <= NUM_PRIMES,
            primes_up_to(limit as int) == primes_up_to_from(limit as int, i as int),
        decreases NUM_PRIMES - i,
    {
        if prime(i) > limit as u64 {
            return i;
        }
        i = i + 1;
    }
    i
}

/// The size of `n` by trial division, as `smooth_log` says.
pub fn smooth_log_exec(n: u64, max_index: usize) -> (r: Option<i64>)
    requires
        max_index <= NUM_PRIMES,
    ensures
        match smooth_log(n as int, max_index as int) {
            Some(x) => r == Some(x as i64) && 0 <= x <= 1_200_000_000_000_000,
            None => r.is_none(),
        },
        r is Some ==> 0 <= r->Some_0 <= 1_200_000_000_000_000,
{
    let mut m = n;
    let mut i: usize = 0;
    let mut steps: u64 = FACTOR_STEPS;
    let mut acc: i64 = 0;
    while steps > 0
        invariant
            max_index <= NUM_PRIMES,
            steps <= FACTOR_STEPS,
            0 <= acc <= (FACTOR_STEPS - steps) * 10_000_000_000_000,
            match factor_log(m as int, i as int, max_index as int, steps as nat) {
                Some(x) => smooth_log(n as int, max_index as int) == Some(x + acc),
                None => smooth_log(n as int, max_index as int).is_none(),
            },
        decreases steps,
    {
        if m == 1 {
            return Some(acc);
        }
        if m == 0 || i >= max_index {
            return None;
        }
        let p = prime(i);
        proof {
            lemma_prime_bounds(i as int);
        }
        if m % p == 0 {
            m = m / p;
            acc = acc + prime_log(i);
        } else {
            i = i + 1;
        }
        steps = steps - 1;
    }
    None
}

/// A fraction `numer / denom` near an interval, and how far the interval lies above it.
#[derive(Clone, Copy, Debug, PartialEq, Eq, Structural)]
pub struct NearestFraction {
    pub numer: u64,
    pub denom: u16,
    pub deviation: Ratio,
}

/// The largest numerator considered: 2^62, the numerators that a `u64` search can
/// reach.
pub const MAX_NUMERATOR: u64 = 0x4000_0000_0000_0000;

/// `|x|`.
pub open spec fn abs(x: int) -> int {
    if x < 0 {
        -x
    } else {
        x
    }
}

/// `q` lies in `1..=max_denom`, `p` is positive and at most `MAX_NUMERATOR`, and all
/// their prime factors lie in the first `max_index` primes.
pub open spec fn admissible(p: int, q: int, max_index: int, max_denom: int) -> bool {
    &&& 1 <= p <= MAX_NUMERATOR
    &&& 1 <= q <= max_denom
    &&& smooth_log(p, max_index) is Some
    &&& smooth_log(q, max_index) is Some
}

/// How far `target` lies above the fraction `p / q`.
pub open spec fn deviation_from_fraction(target: int, p: int, q: int, max_index: int) -> int {
    target - round_div(
        smooth_log(p, max_index)->Some_0 - smooth_log(q, max_index)->Some_0,
        FINE_PER_UNIT as int,
    )
}

/// A numerator above `2^m`, where `m` bits of size outweigh the size of the
/// denominator and twice the target, gives a fraction farther from the target than
/// the unison is.
proof fn lemma_far_numerators_lose(t: int, p: int, q_log: int, mi: int, m: nat)
    requires
        p > power(2, m),
        smooth_log(p, mi) is Some,
        FINE_PER_BIT * (m + 1) > q_log + 2000 * abs(t) + 2000,
    ensures
        abs(t - round_div(smooth_log(p, mi)->Some_0 - q_log, FINE_PER_UNIT as int)) > abs(t),
{
    let c = FINE_PER_BIT as int;
    lemma_size_bounds_number(p, 0, mi, FACTOR_STEPS as nat);
    let x = smooth_log(p, mi)->Some_0;
    if x / c <= m {
        crate::primes::lemma_power_grows(2, (x / c) as nat, m);
    }
    assert(x / c >= m + 1);
    vstd::arithmetic::div_mod::lemma_fundamental_div_mod(x, c);
    assert(x >= c * (m + 1)) by (nonlinear_arith)
        requires
            x == c * (x / c) + x % c,
            x % c >= 0,
            x / c >= m + 1,
            c > 0,
    ;
    let a = x - q_log;
    let rd = round_div(a, 1000);
    vstd::arithmetic::div_mod::lemma_fundamental_div_mod(2 * a + 1000, 2000);
    assert(1000 * rd > a - 1000) by (nonlinear_arith)
        requires
            2 * a + 1000 == 2000 * rd + (2 * a + 1000) % 2000,
            (2 * a + 1000) % 2000 < 2000,
    ;
}

/// Searches all fractions `p / q` with `q` in `1..=max_denom`, any numerator up to
/// `MAX_NUMERATOR`, and prime factors no larger than `prime_limit`, for the one
/// nearest to `target` (the size of each fraction taken in fine units and rounded
/// once); of equally near ones, the first by denominator and then numerator. The
/// prime 2 is always allowed. For each denominator only the numerators up to a
/// power of two are tried beyond which, by the sizes of the primes, no fraction can
/// come nearer than the unison does.
pub fn nearest_fraction(target: Ratio, prime_limit: u8, max_denom: u16) -> (r: NearestFraction)
    requires
        target.wf(),
        max_denom >= 1,
    ensures
        ({
            let mi = primes_up_to(if prime_limit < 2 {
                2
            } else {
                prime_limit as int
            });
            &&& admissible(r.numer as int, r.denom as int, mi, max_denom as int)
            &&& r.deviation.units == deviation_from_fraction(
                target.units as int,
                r.numer as int,
                r.denom as int,
                mi,
            )
            &&& forall|p: int, q: int|
                admissible(p, q, mi, max_denom as int) ==> abs(r.deviation.units as int) <= abs(
                    #[trigger] deviation_from_fraction(target.units as int, p, q, mi),
                )
        }),
{
    let limit: u8 = if prime_limit < 2 {
        2
    } else {
        prime_limit
    };
    let mi = primes_up_to_exec(limit);
    let ghost mig = mi as int;
    let t = target.units;
    let abs_t: i64 = if t < 0 {
        -t
    } else {
        t
    };
    proof {
        assert(factor_log(1, 0, mig, FACTOR_STEPS as nat) == Some(0int));
        vstd::arithmetic::div_mod::lemma_fundamental_div_mod_converse(1000, 2000, 0, 1000);
        assert(round_div(0, 1000) == 0);
        assert(1 <= MAX_NUMERATOR);
    }
    let mut best = NearestFraction { numer: 1, denom: 1, deviation: target };
    let mut q: u32 = 1;
    while q <= max_denom as u32
        invariant
            1 <= q,
            q as int <= max_denom as int + 1,
            mi <= NUM_PRIMES,
            mig == mi,
            target.wf(),
            t == target.units,
            abs_t == abs(t as int),
            admissible(best.numer as int, best.denom as int, mi as int, max_denom as int),
            abs(best.deviation.units as int) <= abs_t,
            best.deviation.units == deviation_from_fraction(
                t as int,
                best.numer as int,
                best.denom as int,
                mi as int,
            ),
            forall|p: int, q2: int|
                admissible(p, q2, mi as int, max_denom as int) && q2 < q ==> abs(
                    best.deviation.units as int,
                ) <= abs(#[trigger] deviation_from_fraction(t as int, p, q2, mi as int)),
        decreases max_denom as int + 1 - q,
    {
        let ghost kq = q as int;
        if let Some(lq) = smooth_log_exec(q as u64, mi) {
            let bound: i128 = lq as i128 + 2000 * abs_t as i128 + 2000;
            let m: i128 = bound / (FINE_PER_BIT as i128);
            let cap: u32 = if m > 62 {
                62
            } else {
                m as u32
            };
            let mut top: u64 = 1;
            let mut e: u32 = 0;
            while e < cap
                invariant
                    e <= cap <= 62,
                    top == power(2, e as nat),
                    top <= 0x4000_0000_0000_0000,
                decreases cap - e,
            {
                proof {
                    crate::primes::lemma_power_grows(2, (e + 1) as nat, 62);
                    assert(power(2, 62) == 0x4000_0000_0000_0000) by {
                        reveal_with_fuel(power, 63);
                    }
                }
                top = top * 2;
                e = e + 1;
            }
            let mut p: u64 = 1;
            while p <= top
                invariant
                    1 <= p <= top + 1,
                    top == power(2, cap as nat),
                    top <= 0x4000_0000_0000_0000,
                    cap <= 62,
                    cap < 62 ==> cap == m,
                    m == bound / (FINE_PER_BIT as i128),
                    bound == lq + 2000 * abs_t + 2000,
                    smooth_log(kq, mi as int) == Some(lq as int),
                    0 <= lq <= 1_200_000_000_000_000,
                    1 <= kq <= max_denom,
                    kq == q,
                    mi <= NUM_PRIMES,
                    mig == mi,
                    target.wf(),
                    t == target.units,
                    abs_t == abs(t as int),
                    admissible(best.numer as int, best.denom as int, mi as int, max_denom as int),
                    abs(best.deviation.units as int) <= abs_t,
                    best.deviation.units == deviation_from_fraction(
                        t as int,
                        best.numer as int,
                        best.denom as int,
                        mi as int,
                    ),
                    forall|p2: int, q2: int|
                        admissible(p2, q2, mi as int, max_denom as int) && (q2 < q || (q2 == q
                            && p2 < p)) ==> abs(best.deviation.units as int) <= abs(
                            #[trigger] deviation_from_fraction(t as int, p2, q2, mi as int),
                        ),
                decreases top + 1 - p,
            {
                let ghost kp = p as int;
                if let Some(lp) = smooth_log_exec(p, mi) {
                    let d = t - div_round(lp - lq, FINE_PER_UNIT);
                    proof {
                        lemma_round_div_monotone(
                            -1_200_000_000_000_000,
                            (lp - lq) as int,
                            FINE_PER_UNIT as int,
                        );
                        lemma_round_div_monotone(
                            (lp - lq) as int,
                            1_200_000_000_000_000,
                            FINE_PER_UNIT as int,
                        );
                        vstd::arithmetic::div_mod::lemma_fundamental_div_mod_converse(
                            -2_400_000_000_000_000 + 1000,
                            2000,
                            -1_200_000_000_000,
                            1000,
                        );
                        vstd::arithmetic::div_mod::lemma_fundamental_div_mod_converse(
                            2_400_000_000_000_000int + 1000,
                            2000int,
                            1_200_000_000_000int,
                            1000int,
                        );
                        assert(d == deviation_from_fraction(t as int, kp, kq, mi as int));
                    }
                    let ad = if d < 0 {
                        -d
                    } else {
                        d
                    };
                    let bd = if best.deviation.units < 0 {
                        -best.deviation.units
                    } else {
                        best.deviation.units
                    };
                    if ad < bd {
                        best = NearestFraction { numer: p, denom: q as u16, deviation: Ratio { units: d } };
                    }
                }
                p = p + 1;
            }
            proof {
                assert forall|p2: int, q2: int|
                    admissible(p2, q2, mi as int, max_denom as int) && q2 <= q implies abs(
                    best.deviation.units as int,
                ) <= abs(#[trigger] deviation_from_fraction(t as int, p2, q2, mi as int)) by {
                    if q2 == q && p2 > top {
                        if cap == 62 {
                            assert(power(2, 62) == 0x4000_0000_0000_0000) by {
                                reveal_with_fuel(power, 63);
                            }
                        } else {
                            vstd::arithmetic::div_mod::lemma_fundamental_div_mod(
                                bound as int,
                                FINE_PER_BIT as int,
                            );
                            let (bi, mi2, ci) = (bound as int, m as int, FINE_PER_BIT as int);
                            assert(ci * (cap + 1) > bi) by (nonlinear_arith)
                                requires
                                    bi == ci * mi2 + bi % ci,
                                    bi % ci < ci,
                                    cap == mi2,
                            ;
                            lemma_far_numerators_lose(t as int, p2, lq as int, mi as int, cap as nat);
                        }
                    }
                }
            }
        }
        q = q + 1;
    }
    best
}

} // verus!
