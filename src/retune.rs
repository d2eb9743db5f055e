use vstd::prelude::*;

use crate::math::round_div;
use crate::mts::{
    detune_byte, message_spec, Channels, ScaleOctaveTuning,
    ScaleOctaveTuningError, ScaleOctaveTuningMessage, ALL_CHANNELS_MASK,
};
use crate::ratio::{Ratio, UNITS_PER_OCTAVE, UNITS_PER_SEMITONE};
use crate::temperament::{
    just_fifth_units, meantone_acceptable, EqualTemperament, TemperamentPreference,
    MAX_STEPS_PER_OCTAVE,
};

verus! {

/// The device id that addresses every device.
pub const ALL_DEVICES: u8 = 0x7f;

/// The number of steps to the fifth of the meantone reading of `n` equal steps:
/// the nearest to a just fifth, or one step flatter where only that one gives a
/// positive primary step and a secondary step that is not negative.
pub open spec fn meantone_fifth(n: int) -> int {
    let f = round_div(n * just_fifth_units(), UNITS_PER_OCTAVE as int);
    if f > 0 && !meantone_acceptable(n, f) && meantone_acceptable(n, f - 1) {
        f - 1
    } else {
        f
    }
}

/// The steps that key `i` (0 for the root up to 11) of the first claviature plays:
/// `i / 2` primary steps and `i % 2` secondary steps.
pub open spec fn claviature_steps(primary: int, secondary: int, i: int) -> int {
    (i / 2) * primary + (i % 2) * secondary
}

/// How far key `i` of the first claviature is detuned from twelve-tone equal
/// temperament, in units, before the tuning is shifted.
pub open spec fn claviature_detune(primary: int, secondary: int, step: int, i: int) -> int {
    claviature_steps(primary, secondary, i) * step - i * UNITS_PER_SEMITONE
}

/// The detuning bytes of the first claviature of `n` equal steps: each key's
/// detuning less that of D, so that D stays in tune.
pub open spec fn claviature_values(n: int) -> Seq<u8> {
    let f = meantone_fifth(n);
    let (p, s) = (2 * f - n, 3 * n - 5 * f);
    let step = round_div(UNITS_PER_OCTAVE as int, n);
    Seq::new(
        12,
        |i: int|
            detune_byte(claviature_detune(p, s, step, i) - claviature_detune(p, s, step, 2)) as u8,
    )
}

/// Every detuning of the first claviature fits a byte of the message.
pub open spec fn claviature_encodable(n: int) -> bool {
    let f = meantone_fifth(n);
    let (p, s) = (2 * f - n, 3 * n - 5 * f);
    let step = round_div(UNITS_PER_OCTAVE as int, n);
    forall|i: int|
        0 <= i < 12 ==> 0 <= #[trigger] detune_byte(
            claviature_detune(p, s, step, i) - claviature_detune(p, s, step, 2),
        ) <= 127
}

/// The scale/octave tuning message (for all channels and devices) that retunes
/// the twelve keys of an octave to the first claviature of `n` equal steps: the
/// keys from the root up go by alternating secondary and primary steps of the
/// meantone reading of the division, and the whole tuning is shifted so that D
/// keeps its pitch. Fails where a detuning does not fit the message.
pub fn octave_scale_retune(num_divisions_per_octave: u16) -> (r: Result<
    ScaleOctaveTuningMessage,
    ScaleOctaveTuningError,
>)
    requires
        0 < num_divisions_per_octave <= MAX_STEPS_PER_OCTAVE,
    ensures
        claviature_encodable(num_divisions_per_octave as int) ==> r is Ok && r->Ok_0.bytes()
            == message_spec(
            ALL_DEVICES,
            ALL_CHANNELS_MASK,
            claviature_values(num_divisions_per_octave as int),
        ),
        !claviature_encodable(num_divisions_per_octave as int) ==> r == Err::<
            ScaleOctaveTuningMessage,
            _,
        >(ScaleOctaveTuningError::DetuningOutOfRange),
{
    let n = num_divisions_per_octave;
    let temperament = EqualTemperament::find().with_preference(TemperamentPreference::Meantone).by_edo(
        n,
    );
    let p = temperament.primary_step() as i64;
    let s = temperament.secondary_step() as i64;
    let step = Ratio::octave().divided_into_equal_steps(n).as_units();
    let ghost ng = n as int;
    proof {
        assert(temperament.num_steps_per_fifth == meantone_fifth(ng));
        assert(0 < step <= UNITS_PER_OCTAVE) by {
            crate::math::lemma_round_div_monotone(
                UNITS_PER_OCTAVE as int,
                UNITS_PER_OCTAVE as int * ng,
                ng,
            );
            vstd::arithmetic::div_mod::lemma_fundamental_div_mod_converse(
                2 * UNITS_PER_OCTAVE * ng + ng,
                2 * ng,
                UNITS_PER_OCTAVE as int,
                ng,
            );
            assert(2 * UNITS_PER_OCTAVE * ng + ng == 2 * ng * UNITS_PER_OCTAVE + ng) by (nonlinear_arith);
            crate::math::lemma_round_div_nonneg(UNITS_PER_OCTAVE as int, ng);
            assert(UNITS_PER_OCTAVE * 2 + ng >= 2 * ng);
            vstd::arithmetic::div_mod::lemma_div_is_ordered(2 * ng, 2 * UNITS_PER_OCTAVE + ng, 2 * ng);
            vstd::arithmetic::div_mod::lemma_div_basics(2 * ng);
        }
    }
    let mut detunes: Vec<i64> = Vec::new();
    let mut i: i64 = 0;
    while i < 12
        invariant
            0 <= i <= 12,
            -18000 <= p <= 18000,
            -18000 <= s <= 18000,
            0 < step <= UNITS_PER_OCTAVE,
            detunes@.len() == i,
            forall|j: int|
                0 <= j < i ==> (#[trigger] detunes@[j]) == claviature_detune(
                    p as int,
                    s as int,
                    step as int,
                    j,
                ),
            forall|j: int|
                0 <= j < i ==> -200_000_000_000_000 <= #[trigger] detunes@[j] <= 200_000_000_000_000,
        decreases 12 - i,
    {
        proof {
            assert(-120000 <= (i / 2) * p <= 120000) by (nonlinear_arith)
                requires
                    0 <= i < 12,
                    -18000 <= p <= 18000,
            ;
            assert(-18000 <= (i % 2) * s <= 18000) by (nonlinear_arith)
                requires
                    0 <= i < 12,
                    -18000 <= s <= 18000,
            ;
        }
        let k = (i / 2) * p + (i % 2) * s;
        proof {
            assert(-140000 <= k <= 140000);
            assert(-140000 * UNITS_PER_OCTAVE <= k * step <= 140000 * UNITS_PER_OCTAVE)
                by (nonlinear_arith)
                requires
                    -140000 <= k <= 140000,
                    0 < step <= UNITS_PER_OCTAVE,
            ;
        }
        detunes.push(k * step - i * UNITS_PER_SEMITONE);
        i = i + 1;
    }
    let baseline = detunes[2];
    let mut tuning = ScaleOctaveTuning::new();
    let mut c: usize = 0;
    while c < 12
        invariant
            c <= 12,
            detunes@.len() == 12,
            baseline == detunes@[2],
            forall|j: int|
                0 <= j < 12 ==> -200_000_000_000_000 <= #[trigger] detunes@[j] <= 200_000_000_000_000,
            tuning.wf(),
            forall|j: int|
                0 <= j < c ==> (#[trigger] tuning.deviations@[j]).units == detunes@[j] - baseline,
        decreases 12 - c,
    {
        tuning.set(c as u8, Ratio::from_units(detunes[c] - baseline));
        c = c + 1;
    }
    proof {
        let f = meantone_fifth(ng);
        let (ps, ss) = (2 * f - ng, 3 * ng - 5 * f);
        assert(p == ps && s == ss);
        assert(step == round_div(UNITS_PER_OCTAVE as int, ng));
        assert forall|j: int| 0 <= j < 12 implies (#[trigger] tuning.deviations@[j]).units
            == claviature_detune(ps, ss, step as int, j) - claviature_detune(ps, ss, step as int, 2) by {
            assert(detunes@[j] == claviature_detune(p as int, s as int, step as int, j));
            assert(detunes@[2] == claviature_detune(p as int, s as int, step as int, 2));
        }
        assert(ScaleOctaveTuningMessage::values_of(&tuning) =~= claviature_values(ng));
        if claviature_encodable(ng) {
            assert forall|j: int| 0 <= j < 12 implies 0 <= #[trigger] detune_byte(
                tuning.deviations@[j].units as int,
            ) <= 127 by {
                assert(0 <= detune_byte(
                    claviature_detune(ps, ss, step as int, j) - claviature_detune(ps, ss, step as int, 2),
                ) <= 127);
            }
        } else {
            let j = choose|j: int|
                0 <= j < 12 && !(0 <= #[trigger] detune_byte(
                    claviature_detune(ps, ss, step as int, j) - claviature_detune(ps, ss, step as int, 2),
                ) <= 127);
            assert(!(0 <= detune_byte(tuning.deviations@[j].units as int) <= 127));
        }
    }
    ScaleOctaveTuningMessage::from_scale_octave_tuning(&tuning, Channels::All, ALL_DEVICES)
}

} // verus!
