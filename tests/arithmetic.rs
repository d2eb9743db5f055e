use microtune::commas::{comma_41, comma_pythagorean, comma_syntonic, comma_ume};
use microtune::comma::Comma;
use microtune::fraction::nearest_fraction;
use microtune::note::{ConcertPitch, Note, A5_440_HZ_LOG_UNITS};
use microtune::ratio::{Pitch, Ratio, UNITS_PER_OCTAVE, UNITS_PER_SEMITONE};

#[test]
fn pythagorean_comma_is_about_23_46_cents() {
    let comma = Comma::from_monzo("Pythagorean comma", &[-19, 12]);
    let units = comma.as_ratio().as_units();
    // 3^12 / 2^19 is 23.4600104 cents.
    assert_eq!(units, 23_460_010);
    assert_eq!(comma.as_ratio().as_cents_rounded(), 23);
    assert_eq!(comma.as_fraction(), (531441, 524288));
    assert_eq!(comma.description(), "Pythagorean comma");
    assert_eq!(comma.monzo(), &[-19, 12]);
}

#[test]
fn syntonic_comma_is_about_21_51_cents() {
    let comma = Comma::from_monzo("syntonic / Didymos / meantone comma", &[-4, 4, -1]);
    // 81 / 80 is 21.5062896 cents.
    assert_eq!(comma.as_ratio().as_units(), 21_506_290);
    assert_eq!(comma.as_ratio().as_cents_rounded(), 22);
    assert_eq!(comma.as_fraction(), (81, 80));
}

#[test]
fn septimal_comma_fraction() {
    let comma = Comma::from_monzo("septimal comma", &[6, -2, 0, -1]);
    assert_eq!(comma.as_fraction(), (64, 63));
    assert_eq!(comma.as_ratio().as_units(), 27_264_092);
}

#[test]
fn comma_over_a_large_prime() {
    // 251/250 = 251 / (2 * 5^3): the last prime of the table.
    let mut monzo = [0i16; 54];
    monzo[0] = -1;
    monzo[2] = -3;
    monzo[53] = 1;
    let monzo: &'static [i16] = Box::leak(Box::new(monzo));
    let comma = Comma::from_monzo("251/250", monzo);
    assert_eq!(comma.as_fraction(), (251, 250));
    assert_eq!(comma.as_ratio().as_units(), 6_911_123);
    let inverse: &'static [i16] = Box::leak(monzo.iter().map(|e| -e).collect::<Vec<i16>>().into_boxed_slice());
    let inverse = Comma::from_monzo("250/251", inverse);
    assert_eq!(inverse.as_ratio(), comma.as_ratio().inverse());
}

#[test]
fn inverse_and_repeated() {
    let r = Ratio::from_cents(701);
    assert_eq!(r.inverse().inverse(), r);
    assert_eq!(r.inverse().as_units(), -701_000_000);
    assert_eq!(r.repeated(1), r);
    assert_eq!(r.repeated(3).repeated(4), r.repeated(12));
    assert_eq!(r.repeated(-2).repeated(5), r.repeated(-10));
    assert_eq!(r.repeated(0), Ratio::unison());
}

#[test]
fn pitch_arithmetic() {
    let a = Pitch::from_log_units(1_000);
    let b = a.times(Ratio::from_semitones(7));
    assert_eq!(b.as_log_units(), 1_000 + 7 * UNITS_PER_SEMITONE);
    assert_eq!(Ratio::between_pitches(a, b), Ratio::from_semitones(7));
    assert_eq!(Ratio::between_pitches(b, a), Ratio::from_semitones(-7));
    assert_eq!(
        Ratio::from_cents(100).stretched_by(Ratio::from_cents(50)),
        Ratio::from_cents(150)
    );
    assert_eq!(
        Ratio::from_cents(100).deviation_from(Ratio::from_cents(150)),
        Ratio::from_cents(-50)
    );
}

#[test]
fn equal_steps() {
    assert_eq!(
        Ratio::octave().divided_into_equal_steps(12),
        Ratio::from_semitones(1)
    );
    assert_eq!(
        Ratio::octave().divided_into_equal_steps(19).as_units(),
        63_157_895
    );
    assert_eq!(Ratio::octave().num_equal_steps_of_size(Ratio::from_cents(100)), 12);
    assert_eq!(Ratio::octave().num_equal_steps_of_size(Ratio::from_cents(160)), 8);
    assert_eq!(Ratio::from_octaves(-2).as_units(), -2 * UNITS_PER_OCTAVE);
}

#[test]
fn notes_and_their_pitches() {
    let c = Note::from_midi_number(60);
    let a = Note::from_midi_number(69);
    assert_eq!(c.midi_number(), 60);
    assert_eq!(c.steps_to(a), 9);
    assert_eq!(a.steps_to(c), -9);
    assert_eq!(c.pitch_class(), 0);
    assert_eq!(c.octave(), 4);
    assert_eq!(Note::from_midi_number(-1).pitch_class(), 11);
    assert_eq!(Note::from_midi_number(-1).octave(), -2);
    assert_eq!(c.plus_semitones(13).midi_number(), 73);
    let concert = ConcertPitch::standard();
    assert_eq!(a.pitch(concert).as_log_units(), A5_440_HZ_LOG_UNITS);
    assert_eq!(
        c.pitch(concert).as_log_units(),
        A5_440_HZ_LOG_UNITS - 9 * UNITS_PER_SEMITONE
    );
}

#[test]
fn nearest_fraction_of_a_fifth() {
    let fifth = Ratio::from_cents(702);
    let f = nearest_fraction(fifth, 5, 16);
    assert_eq!((f.numer, f.denom), (3, 2));
    assert!(f.deviation.as_units().abs() < 100_000);
}

#[test]
fn nearest_fraction_respects_the_prime_limit() {
    // 7/4 is 968.8 cents; with primes up to 5 only, 16/9 (996.1 cents) is nearest
    // among terms up to 16.
    let seventh = Ratio::from_cents(969);
    let seven_limit = nearest_fraction(seventh, 7, 16);
    assert_eq!((seven_limit.numer, seven_limit.denom), (7, 4));
    let five_limit = nearest_fraction(seventh, 5, 16);
    assert_ne!((five_limit.numer, five_limit.denom), (7, 4));
    assert!(five_limit.numer % 7 != 0 && five_limit.denom % 7 != 0);
    assert_eq!((five_limit.numer, five_limit.denom), (16, 9));
}

#[test]
fn nearest_fraction_with_a_large_prime_limit() {
    let target = Ratio::from_units(251_344_039);
    let f = nearest_fraction(target, 37, 40);
    assert_eq!((f.numer, f.denom, f.deviation.as_units()), (37, 32, 0));
    let f = nearest_fraction(target, 31, 40);
    assert!(f.numer % 37 != 0 && f.denom % 37 != 0);
}

#[test]
fn nearest_fraction_numerator_is_not_bounded_by_the_denominator() {
    // 9/1 is 3803.91 cents; with denominators up to 1 it is still found.
    let f = nearest_fraction(Ratio::from_units(3_803_910_002), 3, 1);
    assert_eq!((f.numer, f.denom, f.deviation.as_units()), (9, 1, 0));
    let f = nearest_fraction(Ratio::from_cents(-1200), 3, 4);
    assert_eq!((f.numer, f.denom), (1, 2));
}

#[test]
fn nearest_fraction_of_unison_and_octave() {
    let f = nearest_fraction(Ratio::unison(), 3, 10);
    assert_eq!((f.numer, f.denom, f.deviation.as_units()), (1, 1, 0));
    let f = nearest_fraction(Ratio::octave(), 3, 10);
    assert_eq!((f.numer, f.denom, f.deviation.as_units()), (2, 1, 0));
}

#[test]
fn note_letters_and_octaves() {
    assert_eq!(Note::from_midi_number(61).letter_and_octave(), ("C#/Db", 4));
    assert_eq!(Note::from_midi_number(69).letter_and_octave(), ("A", 4));
    assert_eq!(Note::from_midi_number(0).letter_and_octave(), ("C", -1));
    assert_eq!(Note::from_midi_number(-1).letter_and_octave(), ("B", -2));
}

#[test]
fn named_commas() {
    assert_eq!(comma_pythagorean().as_ratio().as_units(), 23_460_010);
    assert_eq!(comma_syntonic().as_fraction(), (81, 80));
    assert_eq!(comma_syntonic().description(), "syntonic / Didymos / meantone comma");
    assert_eq!(comma_41().monzo(), &[65, 41]);
    assert_eq!(comma_ume().monzo().len(), 8);
}
