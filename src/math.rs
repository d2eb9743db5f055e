use vstd::prelude::*;

verus! {

/// Floor division: the quotient rounded towards minus infinity.
pub fn div_floor(a: i64, b: i64) -> (q: i64)
    requires
        b > 0,
    ensures
        q == a / b,
{
    if a >= 0 {
        ((a as u64) / (b as u64)) as i64
    } else {
        let na: u64 = (-(a + 1)) as u64;
        let t: u64 = na / (b as u64);
        let q = -(t as i64) - 1;
        proof {
            let (ai, bi, ti, qi) = (a as int, b as int, t as int, q as int);
            vstd::arithmetic::div_mod::lemma_fundamental_div_mod(na as int, bi);
            assert(ti * bi <= na && na < ti * bi + bi);
            assert(qi * bi <= ai && ai < qi * bi + bi) by (nonlinear_arith)
                requires
                    ti * bi <= -(ai + 1) < ti * bi + bi,
                    qi == -ti - 1,
            ;
            vstd::arithmetic::div_mod::lemma_fundamental_div_mod_converse(ai, bi, qi, ai - qi * bi);
        }
        q
    }
}

/// The remainder that goes with `div_floor`: always in `[0, b)`.
pub fn rem_floor(a: i64, b: i64) -> (r: i64)
    requires
        b > 0,
        -0x4000_0000_0000_0000 <= a,
        b <= 0x4000_0000_0000_0000,
    ensures
        r == a % b,
        0 <= r < b,
{
    let q = div_floor(a, b);
    proof {
        vstd::arithmetic::div_mod::lemma_fundamental_div_mod(a as int, b as int);
        assert(0 <= a - q * b < b);
    }
    let qb = q * b;
    a - qb
}

/// The integer nearest to `a / b`, halves rounded up.
pub open spec fn round_div(a: int, b: int) -> int {
    (2 * a + b) / (2 * b)
}

pub proof fn lemma_round_div_monotone(a: int, b: int, d: int)
    requires
        a <= b,
        d > 0,
    ensures
        round_div(a, d) <= round_div(b, d),
{
    vstd::arithmetic::div_mod::lemma_div_is_ordered(2 * a + d, 2 * b + d, 2 * d);
}

pub proof fn lemma_round_div_nonneg(a: int, d: int)
    requires
        a >= 0,
        d > 0,
    ensures
        round_div(a, d) >= 0,
{
    vstd::arithmetic::div_mod::lemma_div_pos_is_pos(2 * a + d, 2 * d);
}

/// Rounds `a / b` to the nearest integer, halves rounded up.
pub fn div_round(a: i64, b: i64) -> (q: i64)
    requires
        b > 0,
        -0x1fff_ffff_ffff_ffff <= a <= 0x1fff_ffff_ffff_ffff,
        b <= 0x1fff_ffff_ffff_ffff,
    ensures
        q == round_div(a as int, b as int),
{
    div_floor(2 * a + b, 2 * b)
}

/// Floor division on wide integers.
pub fn div_floor_wide(a: i128, b: i128) -> (q: i128)
    requires
        b > 0,
        -0x1000_0000_0000_0000_0000_0000_0000_0000 <= a <= 0x1000_0000_0000_0000_0000_0000_0000_0000,
    ensures
        q == a / b,
{
    if a >= 0 {
        ((a as u128) / (b as u128)) as i128
    } else {
        let na: u128 = (-(a + 1)) as u128;
        let t: u128 = na / (b as u128);
        let q = -(t as i128) - 1;
        proof {
            let (ai, bi, ti, qi) = (a as int, b as int, t as int, q as int);
            vstd::arithmetic::div_mod::lemma_fundamental_div_mod(na as int, bi);
            assert(ti * bi <= na && na < ti * bi + bi);
            assert(qi * bi <= ai && ai < qi * bi + bi) by (nonlinear_arith)
                requires
                    ti * bi <= -(ai + 1) < ti * bi + bi,
                    qi == -ti - 1,
            ;
            vstd::arithmetic::div_mod::lemma_fundamental_div_mod_converse(ai, bi, qi, ai - qi * bi);
        }
        q
    }
}

/// Rounds `a / b` to the nearest integer, halves rounded up, on wide integers.
pub fn div_round_wide(a: i128, b: i128) -> (q: i128)
    requires
        b > 0,
        -0x0100_0000_0000_0000_0000_0000_0000_0000 <= a <= 0x0100_0000_0000_0000_0000_0000_0000_0000,
        b <= 0x0100_0000_0000_0000_0000_0000_0000_0000,
    ensures
        q == round_div(a as int, b as int),
{
    div_floor_wide(2 * a + b, 2 * b)
}

} // verus!
