use vstd::prelude::*;

verus! {

/// The number of primes in the table below: 2 up to 251.
pub const NUM_PRIMES: usize = 54;

/// The number of fine units in one unit of interval size: prime sizes are held a
/// thousand times finer than intervals, so that sums of many of them stay exact to
/// well below a unit until they are rounded once.
pub const FINE_PER_UNIT: i64 = 1000;

/// The `i`-th prime, counting 2 as the zeroth.
pub open spec fn prime_spec(i: int) -> int {
    if i == 0 {
        2
    } else if i == 1 {
        3
    } else if i == 2 {
        5
    } else if i == 3 {
        7
    } else if i == 4 {
        11
    } else if i == 5 {
        13
    } else if i == 6 {
        17
    } else if i == 7 {
        19
    } else if i == 8 {
        23
    } else if i == 9 {
        29
    } else if i == 10 {
        31
    } else if i == 11 {
        37
    } else if i == 12 {
        41
    } else if i == 13 {
        43
    } else if i == 14 {
        47
    } else if i == 15 {
        53
    } else if i == 16 {
        59
    } else if i == 17 {
        61
    } else if i == 18 {
        67
    } else if i == 19 {
        71
    } else if i == 20 {
        73
    } else if i == 21 {
        79
    } else if i == 22 {
        83
    } else if i == 23 {
        89
    } else if i == 24 {
        97
    } else if i == 25 {
        101
    } else if i == 26 {
        103
    } else if i == 27 {
        107
    } else if i == 28 {
        109
    } else if i == 29 {
        113
    } else if i == 30 {
        127
    } else if i == 31 {
        131
    } else if i == 32 {
        137
    } else if i == 33 {
        139
    } else if i == 34 {
        149
    } else if i == 35 {
        151
    } else if i == 36 {
        157
    } else if i == 37 {
        163
    } else if i == 38 {
        167
    } else if i == 39 {
        173
    } else if i == 40 {
        179
    } else if i == 41 {
        181
    } else if i == 42 {
        191
    } else if i == 43 {
        193
    } else if i == 44 {
        197
    } else if i == 45 {
        199
    } else if i == 46 {
        211
    } else if i == 47 {
        223
    } else if i == 48 {
        227
    } else if i == 49 {
        229
    } else if i == 50 {
        233
    } else if i == 51 {
        239
    } else if i == 52 {
        241
    } else if i == 53 {
        251
    } else {
        1
    }
}

/// The size of the `i`-th prime as an interval over 1/1: its base-2 logarithm in
/// fine units (1200 * 10^9 to the octave), rounded to the nearest fine unit.
pub open spec fn prime_log_spec(i: int) -> int {
    if i == 0 {
        1_200_000_000_000
    } else if i == 1 {
        1_901_955_000_865
    } else if i == 2 {
        2_786_313_713_865
    } else if i == 3 {
        3_368_825_906_469
    } else if i == 4 {
        4_151_317_942_365
    } else if i == 5 {
        4_440_527_661_769
    } else if i == 6 {
        4_904_955_409_500
    } else if i == 7 {
        5_097_513_016_132
    } else if i == 8 {
        5_428_274_347_268
    } else if i == 9 {
        5_829_577_194_153
    } else if i == 10 {
        5_945_035_572_464
    } else if i == 11 {
        6_251_344_038_755
    } else if i == 12 {
        6_429_062_405_542
    } else if i == 13 {
        6_511_517_705_643
    } else if i == 14 {
        6_665_506_622_013
    } else if i == 15 {
        6_873_504_545_476
    } else if i == 16 {
        7_059_171_659_234
    } else if i == 17 {
        7_116_884_805_075
    } else if i == 18 {
        7_279_307_028_549
    } else if i == 19 {
        7_379_696_543_406
    } else if i == 20 {
        7_427_789_470_656
    } else if i == 21 {
        7_564_536_897_813
    } else if i == 22 {
        7_650_047_317_616
    } else if i == 23 {
        7_770_880_117_160
    } else if i == 24 {
        7_919_895_410_625
    } else if i == 25 {
        7_989_853_779_302
    } else if i == 26 {
        8_023_800_632_620
    } else if i == 27 {
        8_089_760_383_681
    } else if i == 28 {
        8_121_821_189_732
    } else if i == 29 {
        8_184_214_754_898
    } else if i == 30 {
        8_386_421_624_127
    } else if i == 31 {
        8_440_107_601_845
    } else if i == 32 {
        8_517_638_499_553
    } else if i == 33 {
        8_542_729_287_268
    } else if i == 34 {
        8_663_002_224_555
    } else if i == 35 {
        8_686_085_687_190
    } else if i == 36 {
        8_753_544_898_670
    } else if i == 37 {
        8_818_473_785_077
    } else if i == 38 {
        8_860_445_150_969
    } else if i == 39 {
        8_921_553_873_164
    } else if i == 40 {
        8_980_578_932_717
    } else if i == 41 {
        8_999_815_064_500
    } else if i == 42 {
        9_092_914_593_643
    } else if i == 43 {
        9_110_948_444_722
    } else if i == 44 {
        9_146_462_183_348
    } else if i == 45 {
        9_163_949_544_652
    } else if i == 46 {
        9_265_319_026_449
    } else if i == 47 {
        9_361_079_879_904
    } else if i == 48 {
        9_391_858_184_749
    } else if i == 49 {
        9_407_044_545_716
    } else if i == 50 {
        9_437_023_373_585
    } else if i == 51 {
        9_481_040_169_577
    } else if i == 52 {
        9_495_467_203_476
    } else if i == 53 {
        9_565_852_264_741
    } else {
        0
    }
}

pub proof fn lemma_prime_bounds(i: int)
    requires
        0 <= i < NUM_PRIMES,
    ensures
        2 <= prime_spec(i) <= 251,
        0 < prime_log_spec(i) <= 9_600_000_000_000,
{
}

pub fn prime(i: usize) -> (r: u64)
    requires
        i < NUM_PRIMES,
    ensures
        r == prime_spec(i as int),
{
    match i {
        0 => 2,
        1 => 3,
        2 => 5,
        3 => 7,
        4 => 11,
        5 => 13,
        6 => 17,
        7 => 19,
        8 => 23,
        9 => 29,
        10 => 31,
        11 => 37,
        12 => 41,
        13 => 43,
        14 => 47,
        15 => 53,
        16 => 59,
        17 => 61,
        18 => 67,
        19 => 71,
        20 => 73,
        21 => 79,
        22 => 83,
        23 => 89,
        24 => 97,
        25 => 101,
        26 => 103,
        27 => 107,
        28 => 109,
        29 => 113,
        30 => 127,
        31 => 131,
        32 => 137,
        33 => 139,
        34 => 149,
        35 => 151,
        36 => 157,
        37 => 163,
        38 => 167,
        39 => 173,
        40 => 179,
        41 => 181,
        42 => 191,
        43 => 193,
        44 => 197,
        45 => 199,
        46 => 211,
        47 => 223,
        48 => 227,
        49 => 229,
        50 => 233,
        51 => 239,
        52 => 241,
        _ => 251,
    }
}

pub fn prime_log(i: usize) -> (r: i64)
    requires
        i < NUM_PRIMES,
    ensures
        r == prime_log_spec(i as int),
{
    match i {
        0 => 1_200_000_000_000,
        1 => 1_901_955_000_865,
        2 => 2_786_313_713_865,
        3 => 3_368_825_906_469,
        4 => 4_151_317_942_365,
        5 => 4_440_527_661_769,
        6 => 4_904_955_409_500,
        7 => 5_097_513_016_132,
        8 => 5_428_274_347_268,
        9 => 5_829_577_194_153,
        10 => 5_945_035_572_464,
        11 => 6_251_344_038_755,
        12 => 6_429_062_405_542,
        13 => 6_511_517_705_643,
        14 => 6_665_506_622_013,
        15 => 6_873_504_545_476,
        16 => 7_059_171_659_234,
        17 => 7_116_884_805_075,
        18 => 7_279_307_028_549,
        19 => 7_379_696_543_406,
        20 => 7_427_789_470_656,
        21 => 7_564_536_897_813,
        22 => 7_650_047_317_616,
        23 => 7_770_880_117_160,
        24 => 7_919_895_410_625,
        25 => 7_989_853_779_302,
        26 => 8_023_800_632_620,
        27 => 8_089_760_383_681,
        28 => 8_121_821_189_732,
        29 => 8_184_214_754_898,
        30 => 8_386_421_624_127,
        31 => 8_440_107_601_845,
        32 => 8_517_638_499_553,
        33 => 8_542_729_287_268,
        34 => 8_663_002_224_555,
        35 => 8_686_085_687_190,
        36 => 8_753_544_898_670,
        37 => 8_818_473_785_077,
        38 => 8_860_445_150_969,
        39 => 8_921_553_873_164,
        40 => 8_980_578_932_717,
        41 => 8_999_815_064_500,
        42 => 9_092_914_593_643,
        43 => 9_110_948_444_722,
        44 => 9_146_462_183_348,
        45 => 9_163_949_544_652,
        46 => 9_265_319_026_449,
        47 => 9_361_079_879_904,
        48 => 9_391_858_184_749,
        49 => 9_407_044_545_716,
        50 => 9_437_023_373_585,
        51 => 9_481_040_169_577,
        52 => 9_495_467_203_476,
        _ => 9_565_852_264_741,
    }
}

/// `b` to the power `e`.
pub open spec fn power(b: int, e: nat) -> int
    decreases e,
{
    if e == 0 {
        1
    } else {
        b * power(b, (e - 1) as nat)
    }
}

pub proof fn lemma_power_grows(b: int, e1: nat, e2: nat)
    requires
        b >= 1,
        e1 <= e2,
    ensures
        1 <= power(b, e1) <= power(b, e2),
    decreases e2,
{
    if e2 > e1 {
        lemma_power_grows(b, e1, (e2 - 1) as nat);
        assert(power(b, (e2 - 1) as nat) <= b * power(b, (e2 - 1) as nat)) by (nonlinear_arith)
            requires
                b >= 1,
                power(b, (e2 - 1) as nat) >= 1,
        ;
    } else if e1 > 0 {
        lemma_power_grows(b, (e1 - 1) as nat, (e1 - 1) as nat);
        assert(b * power(b, (e1 - 1) as nat) >= 1) by (nonlinear_arith)
            requires
                b >= 1,
                power(b, (e1 - 1) as nat) >= 1,
        ;
    }
}

} // verus!
