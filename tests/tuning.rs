use microtune::live::{AheadOfTime, JustInTime, LiveError, MonophonicPitchBend};
use microtune::mts::{
    decode_scale_octave_tuning, Channels, MtsFormatError, ScaleOctaveTuning,
    ScaleOctaveTuningError, ScaleOctaveTuningMessage,
};
use microtune::note::{ConcertPitch, Note};
use microtune::ratio::{Ratio, UNITS_PER_CENT};
use microtune::scale::{ConfigError, Kbm, Scl};
use microtune::temperament::EqualTemperament;
use microtune::tuner::{approximate, collect_targets, ChannelTuner, ScaleMapping, TunerError};

fn edo_mapping(steps: u16, root_key: i32) -> ScaleMapping {
    let step = Ratio::octave().divided_into_equal_steps(steps);
    let scl = Scl::equal_temperament(step).unwrap();
    let root_pitch = Note::from_midi_number(root_key).pitch(ConcertPitch::standard());
    ScaleMapping {
        scl,
        kbm: Kbm::root_at(root_key, root_pitch),
    }
}

fn nineteen_edo() -> Scl {
    Scl::equal_division(19, Ratio::octave()).unwrap()
}

fn meantone_19_mapping() -> ScaleMapping {
    let temperament = EqualTemperament::meantone(19, 11);
    let mapping = temperament.meantone_key_mapping();
    assert_eq!(mapping, vec![0, 1, 3, 5, 6, 8, 9, 11, 12, 14, 16, 17]);
    let scl = nineteen_edo();
    let root_pitch = Note::from_midi_number(60).pitch(ConcertPitch::standard());
    ScaleMapping {
        scl,
        kbm: Kbm::with_mapping(60, root_pitch, mapping, 19).unwrap(),
    }
}

#[test]
fn scale_configuration_errors() {
    assert_eq!(Scl::new(vec![]).unwrap_err(), ConfigError::EmptyScale);
    assert_eq!(
        Scl::new(vec![Ratio::from_cents(100), Ratio::from_cents(-5)]).unwrap_err(),
        ConfigError::NonPositivePeriod
    );
    assert_eq!(
        Scl::new(vec![Ratio::from_units(i64::MAX)]).unwrap_err(),
        ConfigError::IntervalOutOfRange
    );
    let scl = Scl::new(vec![Ratio::from_cents(200), Ratio::from_cents(1200)]).unwrap();
    assert_eq!(scl.size(), 2);
    assert_eq!(scl.period(), Ratio::octave());
    assert_eq!(scl.relative_pitch_of(0), Some(Ratio::unison()));
    assert_eq!(scl.relative_pitch_of(1), Some(Ratio::from_cents(200)));
    assert_eq!(scl.relative_pitch_of(3), Some(Ratio::from_cents(1400)));
    assert_eq!(scl.relative_pitch_of(-1), Some(Ratio::from_cents(-1000)));
}

#[test]
fn twelve_edo_needs_one_channel_and_no_detuning() {
    let mapping = edo_mapping(12, 69);
    let targets = collect_targets(&mapping, ConcertPitch::standard(), 0, 128);
    assert_eq!(targets.len(), 128);
    for (i, t) in targets.iter().enumerate() {
        assert_eq!(t.key, i as i32);
        assert_eq!(t.note, i as u8);
        assert_eq!(t.deviation, Ratio::unison());
    }
    let tuner = ChannelTuner::allocate(&targets, 16).unwrap();
    assert_eq!(tuner.num_channels(), 1);
    let tunings = tuner.tunings();
    assert_eq!(tunings.len(), 1);
    assert!(tunings[0].deviations.iter().all(|d| d.as_units() == 0));
    assert_eq!(tuner.lookup(60), Some((0, 60)));
    assert_eq!(tuner.lookup(200), None);
}

#[test]
fn nineteen_edo_on_a_meantone_layout_needs_one_channel() {
    let mapping = meantone_19_mapping();
    let targets = collect_targets(&mapping, ConcertPitch::standard(), 0, 128);
    assert_eq!(targets.len(), 128);
    let tuner = ChannelTuner::allocate(&targets, 16).unwrap();
    assert_eq!(tuner.num_channels(), 1);
    let tuning = &tuner.tunings()[0];
    let mut non_zero = 0;
    for d in &tuning.deviations {
        assert!(d.as_units().abs() < 50 * UNITS_PER_CENT);
        if d.as_units() != 0 {
            non_zero += 1;
        }
    }
    // C, the root of the layout, is in tune; the eleven other classes are not.
    assert_eq!(tuning.deviations[0].as_units(), 0);
    assert_eq!(non_zero, 11);
    // G sharp is 12 steps of 19-EDO: 757.9 cents, 42.1 cents below 800.
    assert!((tuning.deviations[8].as_units() + 42_105_263).abs() < 100);
}

#[test]
fn quarter_tones_need_two_channels() {
    let mapping = edo_mapping(24, 69);
    let targets = collect_targets(&mapping, ConcertPitch::standard(), 60, 84);
    let tuner = ChannelTuner::allocate(&targets, 16).unwrap();
    assert_eq!(tuner.num_channels(), 2);
    assert_eq!(
        ChannelTuner::allocate(&targets, 1).unwrap_err(),
        TunerError::ChannelsExhausted
    );
}

#[test]
fn approximation_of_a_quarter_tone() {
    let a5 = ConcertPitch::standard();
    let p = a5.a5_pitch().times(Ratio::from_cents(50));
    let (note, dev) = approximate(p, a5).unwrap();
    assert_eq!(note, 70);
    assert_eq!(dev, Ratio::from_cents(-50));
    let p = a5.a5_pitch().times(Ratio::from_cents(49));
    assert_eq!(approximate(p, a5), Some((69, Ratio::from_cents(49))));
    let far = a5.a5_pitch().times(Ratio::from_semitones(100));
    assert_eq!(approximate(far, a5), None);
}

#[test]
fn equal_division_of_the_octave() {
    let scl = Scl::equal_division(19, Ratio::octave()).unwrap();
    assert_eq!(scl.size(), 19);
    assert_eq!(scl.period(), Ratio::octave());
    assert_eq!(scl.relative_pitch_of(1), Some(Ratio::from_units(63_157_895)));
    assert_eq!(scl.relative_pitch_of(19), Some(Ratio::octave()));
    assert_eq!(Scl::equal_division(0, Ratio::octave()).unwrap_err(), ConfigError::EmptyScale);
    assert_eq!(
        Scl::equal_division(12, Ratio::from_cents(-1200)).unwrap_err(),
        ConfigError::NonPositivePeriod
    );
}

#[test]
fn scale_octave_tuning_round_trip() {
    let mut tuning = ScaleOctaveTuning::new();
    tuning.set(1, Ratio::from_cents(25));
    tuning.set(11, Ratio::from_cents(-50));
    let message =
        ScaleOctaveTuningMessage::from_scale_octave_tuning(&tuning, Channels::Single(3), 0x7f)
            .unwrap();
    let bytes = message.sysex_bytes().to_vec();
    assert_eq!(bytes.len(), 22);
    assert_eq!(&bytes[0..8], &[0xf0, 0x7e, 0x7f, 0x08, 0x08, 0x00, 0x00, 0x08]);
    assert_eq!(bytes[8], 64);
    assert_eq!(bytes[9], 64 + 16);
    assert_eq!(bytes[19], 64 - 32);
    assert_eq!(bytes[21], 0xf7);
    let decoded = decode_scale_octave_tuning(&bytes).unwrap();
    assert_eq!(decoded.device_id, 0x7f);
    assert_eq!(decoded.channel_mask, 1 << 3);
    for i in 0..12 {
        assert_eq!(decoded.tuning.deviations[i], tuning.deviations[i]);
    }
}

#[test]
fn all_channels_mask() {
    let tuning = ScaleOctaveTuning::new();
    let message =
        ScaleOctaveTuningMessage::from_scale_octave_tuning(&tuning, Channels::All, 0).unwrap();
    let bytes = message.sysex_bytes();
    assert_eq!(&bytes[5..8], &[0x03, 0x7f, 0x7f]);
    assert_eq!(decode_scale_octave_tuning(bytes).unwrap().channel_mask, 0xffff);
}

#[test]
fn scale_octave_tuning_errors() {
    let mut tuning = ScaleOctaveTuning::new();
    assert_eq!(
        ScaleOctaveTuningMessage::from_scale_octave_tuning(&tuning, Channels::All, 128)
            .unwrap_err(),
        ScaleOctaveTuningError::DeviceIdOutOfRange
    );
    assert_eq!(
        ScaleOctaveTuningMessage::from_scale_octave_tuning(&tuning, Channels::Single(16), 0)
            .unwrap_err(),
        ScaleOctaveTuningError::ChannelOutOfRange
    );
    tuning.set(4, Ratio::from_cents(101));
    assert_eq!(
        ScaleOctaveTuningMessage::from_scale_octave_tuning(&tuning, Channels::All, 0)
            .unwrap_err(),
        ScaleOctaveTuningError::DetuningOutOfRange
    );
}

#[test]
fn malformed_tuning_messages() {
    let tuning = ScaleOctaveTuning::new();
    let message =
        ScaleOctaveTuningMessage::from_scale_octave_tuning(&tuning, Channels::All, 0).unwrap();
    let bytes = message.sysex_bytes().to_vec();
    assert_eq!(
        decode_scale_octave_tuning(&bytes[..21]).unwrap_err(),
        MtsFormatError::WrongLength
    );
    let mut bad = bytes.clone();
    bad[1] = 0x7f;
    assert_eq!(
        decode_scale_octave_tuning(&bad).unwrap_err(),
        MtsFormatError::WrongHeader
    );
    let mut bad = bytes.clone();
    bad[20] ^= 1;
    assert_eq!(
        decode_scale_octave_tuning(&bad).unwrap_err(),
        MtsFormatError::WrongChecksum
    );
    let mut bad = bytes.clone();
    bad[10] = 0x80;
    assert_eq!(
        decode_scale_octave_tuning(&bad).unwrap_err(),
        MtsFormatError::ValueOutOfRange
    );
}

#[test]
fn just_in_time_sends_a_tuning_message_before_a_detuned_note() {
    let mut jit = JustInTime::new(meantone_19_mapping(), ConcertPitch::standard(), 0x7f).unwrap();
    // C is in tune: the note goes out alone.
    let out = jit.handle(&[0x92, 60, 100]);
    assert_eq!(out, vec![vec![0x92, 60, 100]]);
    // G sharp needs a detuning: a tuning message for channel 2 comes first.
    let out = jit.handle(&[0x92, 68, 100]);
    assert_eq!(out.len(), 2);
    assert_eq!(out[0].len(), 22);
    assert_eq!(&out[0][5..8], &[0x00, 0x00, 0x04]);
    assert_eq!(out[1], vec![0x92, 68, 100]);
    // The same pitch class again needs no new message.
    let out = jit.handle(&[0x92, 56, 100]);
    assert_eq!(out, vec![vec![0x92, 56, 100]]);
    // Other messages pass through.
    assert_eq!(jit.handle(&[0xB2, 64, 127]), vec![vec![0xB2, 64, 127]]);
    assert!(jit.handle(&[0xF8]).is_empty());
    assert!(JustInTime::new(meantone_19_mapping(), ConcertPitch::standard(), 128).is_none());
}

#[test]
fn ahead_of_time_fails_before_sending_when_channels_are_short() {
    let mapping = edo_mapping(24, 69);
    let targets = collect_targets(&mapping, ConcertPitch::standard(), 60, 84);
    let err = AheadOfTime::start(&targets, 0, 3, 4, 0x7f, false).err().unwrap();
    assert_eq!(
        err,
        LiveError::ChannelsInsufficient {
            required: 2,
            available: 1
        }
    );
    assert_eq!(
        AheadOfTime::start(&targets, 0, 0, 16, 200, false).err().unwrap(),
        LiveError::DeviceIdOutOfRange
    );
}

#[test]
fn ahead_of_time_redirects_keys_to_their_channels() {
    let mapping = edo_mapping(24, 69);
    let targets = collect_targets(&mapping, ConcertPitch::standard(), 60, 84);
    let (session, startup) = AheadOfTime::start(&targets, 0, 3, 16, 0x7f, false).ok().unwrap();
    assert_eq!(startup.len(), 2);
    assert_eq!(&startup[0][5..8], &[0x00, 0x00, 0x08]);
    assert_eq!(&startup[1][5..8], &[0x00, 0x00, 0x10]);
    // Key 60 comes first and lies a quarter tone off: the first channel holds the
    // detuned classes, the second those in tune. Key 69 is A at 440 Hz.
    assert_eq!(session.handle(&[0x90, 69, 90]), vec![vec![0x94, 69, 90]]);
    // Key 70 is a quarter tone above A: key 70 at -50 cents, on the first channel.
    assert_eq!(session.handle(&[0x80, 70, 0]), vec![vec![0x83, 70, 0]]);
    // Controllers go to every channel; other input channels and unknown keys are dropped.
    assert_eq!(
        session.handle(&[0xB0, 64, 127]),
        vec![vec![0xB3, 64, 127], vec![0xB4, 64, 127]]
    );
    assert!(session.handle(&[0x91, 69, 90]).is_empty());
    assert!(session.handle(&[0x90, 20, 90]).is_empty());
    let (forwarding, _) = AheadOfTime::start(&targets, 0, 3, 16, 0x7f, true).ok().unwrap();
    assert_eq!(forwarding.handle(&[0x91, 69, 90]), vec![vec![0x91, 69, 90]]);
}

#[test]
fn monophonic_pitch_bend_precedes_the_note() {
    let mpb = MonophonicPitchBend {
        mapping: edo_mapping(24, 69),
        concert_pitch: ConcertPitch::standard(),
        forward_unmapped: false,
    };
    // A quarter tone above A: key 70 bent down by half a semitone (8192 - 4096).
    let out = mpb.handle(&[0x95, 70, 100]);
    assert_eq!(out, vec![vec![0xE5, 0, 32], vec![0x95, 70, 100]]);
    // In tune: centered bend.
    let out = mpb.handle(&[0x95, 69, 100]);
    assert_eq!(out, vec![vec![0xE5, 0, 64], vec![0x95, 69, 100]]);
    // Note-off goes to the mapped key without a bend.
    assert_eq!(mpb.handle(&[0x85, 70, 0]), vec![vec![0x85, 70, 0]]);
    // In 4-EDO (steps of 300 cents) key 127 lies far beyond the MIDI range: it is
    // dropped unless forwarded.
    let wide = MonophonicPitchBend {
        mapping: edo_mapping(4, 69),
        concert_pitch: ConcertPitch::standard(),
        forward_unmapped: false,
    };
    assert!(wide.handle(&[0x95, 127, 100]).is_empty());
    let forwarding = MonophonicPitchBend {
        forward_unmapped: true,
        ..wide
    };
    assert_eq!(forwarding.handle(&[0x95, 127, 100]), vec![vec![0x95, 127, 100]]);
}

#[test]
fn octave_tuning() {
    let message = microtune::retune::octave_scale_retune(22).unwrap();
    let bytes = message.sysex_bytes();
    assert_eq!(bytes.len(), 22);
    // D keeps its pitch; C# lies 63.6 cents below it in the first claviature.
    assert_eq!(bytes[8 + 2], 64);
    assert!(bytes[8..20].iter().all(|&b| b < 128));
}

#[test]
fn first_claviature_of_twelve_edo_is_untuned() {
    let message = microtune::retune::octave_scale_retune(12).unwrap();
    let bytes = message.sysex_bytes();
    assert_eq!(&bytes[0..8], &[0xf0, 0x7e, 0x7f, 0x08, 0x08, 0x03, 0x7f, 0x7f]);
    assert!(bytes[8..20].iter().all(|&b| b == 64));
}

#[test]
fn first_claviature_of_nineteen_and_twenty_two_edo() {
    let message = microtune::retune::octave_scale_retune(19).unwrap();
    let bytes = message.sysex_bytes();
    // D keeps its pitch; C lies 10.5 cents (7 steps of 1/64 semitone) above.
    assert_eq!(bytes[8 + 2], 64);
    assert_eq!(bytes[8], 71);
    let message = microtune::retune::octave_scale_retune(22).unwrap();
    assert_eq!(message.sysex_bytes()[8 + 2], 64);
    assert_eq!(decode_scale_octave_tuning(message.sysex_bytes()).unwrap().device_id, 0x7f);
}
