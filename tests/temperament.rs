use microtune::generators::{gcd, PerGen};
use microtune::ratio::Ratio;
use microtune::temperament::{EqualTemperament, TemperamentPreference, TemperamentType};

#[test]
fn twelve_edo_meantone() {
    let t = EqualTemperament::meantone(12, 7);
    assert_eq!(t.temperament_type(), TemperamentType::Meantone);
    assert_eq!(t.temperament_type().name(), "Meantone");
    assert_eq!(TemperamentType::Porcupine.name(), "Porcupine");
    assert_eq!(t.primary_step(), 2);
    assert_eq!(t.secondary_step(), 1);
    assert_eq!(t.sharpness(), 1);
    assert_eq!(t.num_steps_per_octave(), 12);
    assert_eq!(t.num_steps_per_fifth(), 7);
    assert_eq!(t.num_cycles(), 1);
    assert_eq!(t.size_of_octave(), Ratio::octave());
    assert_eq!(t.size_of_fifth(), Ratio::from_cents(700));
}

#[test]
fn nineteen_edo_meantone() {
    let t = EqualTemperament::meantone(19, 11);
    assert_eq!((t.primary_step(), t.secondary_step(), t.sharpness()), (3, 2, 1));
    assert!(t.as_porcupine().is_none());
}

#[test]
fn porcupine_of_twenty_two() {
    let t = EqualTemperament::porcupine(22, 3);
    assert_eq!(t.temperament_type(), TemperamentType::Porcupine);
    assert_eq!((t.primary_step(), t.secondary_step(), t.sharpness()), (3, 4, 1));
    assert_eq!(t.num_steps_per_fifth(), 13);
    let m = EqualTemperament::meantone(22, 13);
    let p = m.as_porcupine().unwrap();
    assert_eq!((p.primary_step(), p.secondary_step()), (3, 4));
}

#[test]
fn large_and_unusual_divisions() {
    let t = EqualTemperament::meantone(8000, 4700);
    assert_eq!((t.primary_step(), t.secondary_step(), t.sharpness()), (1400, 500, 900));
    let t = EqualTemperament::meantone(12, 13);
    assert_eq!((t.primary_step(), t.secondary_step(), t.sharpness()), (14, -29, 43));
    let finder = EqualTemperament::find().with_preference(TemperamentPreference::Meantone);
    let (t, ok) = finder.create_and_rate_temperament(8000, 4700);
    assert!(ok);
    assert_eq!((t.primary_step(), t.sharpness()), (1400, 900));
    let t = EqualTemperament::porcupine(40000, 7000);
    assert_eq!((t.secondary_step(), t.num_steps_per_fifth()), (-2000, 19000));
}

#[test]
fn finder_by_edo() {
    let t = EqualTemperament::find().by_edo(12);
    assert_eq!((t.num_steps_per_octave(), t.num_steps_per_fifth()), (12, 7));
    let t = EqualTemperament::find().by_edo(19);
    assert_eq!((t.primary_step(), t.secondary_step()), (3, 2));
    let t = EqualTemperament::find().by_edo(8);
    assert_eq!(t.temperament_type(), TemperamentType::Porcupine);
}

#[test]
fn finder_by_step_size() {
    let t = EqualTemperament::find().by_step_size(Ratio::from_cents(100));
    assert_eq!(t.temperament_type(), TemperamentType::Meantone);
    assert_eq!((t.primary_step(), t.secondary_step(), t.sharpness()), (2, 1, 1));
    assert_eq!((t.num_steps_per_octave(), t.num_steps_per_fifth()), (12, 7));
    assert_eq!(t.size_of_octave(), Ratio::octave());

    let step = Ratio::octave().divided_into_equal_steps(22);
    let t = EqualTemperament::find()
        .with_preference(TemperamentPreference::Porcupine)
        .by_step_size(step);
    assert_eq!(t.temperament_type(), TemperamentType::Porcupine);
    assert_eq!(t.num_steps_per_octave(), 22);
    assert_eq!(t.size_of_octave().as_units(), step.as_units() * 22);

    let t = EqualTemperament::find()
        .with_preference(TemperamentPreference::Meantone)
        .with_second_best_fifth_allowed(false)
        .by_step_size(step);
    assert_eq!(t.temperament_type(), TemperamentType::Meantone);
    assert_eq!(t.num_steps_per_fifth(), 13);
}

#[test]
fn second_best_fifth_for_a_bad_meantone() {
    // 8-EDO: the best fifth (5 steps) gives a primary step of 2 but a negative
    // secondary step; the flatter fifth (4 steps) does no better, so 5 stays.
    let finder = EqualTemperament::find().with_preference(TemperamentPreference::Meantone);
    let (t, ok) = finder.create_and_rate_temperament(8, 5);
    assert!(!ok);
    assert_eq!(t.secondary_step(), -1);
    let t = finder.from_starting_point(8, 5);
    assert_eq!(t.num_steps_per_fifth(), 5);
}

#[test]
fn heptatonic_names_of_twelve_edo() {
    let t = EqualTemperament::meantone(12, 7);
    let d = t.get_heptatonic_name(0).unwrap();
    assert_eq!((d.letter, d.accidentals), ('D', 0));
    let e = t.get_heptatonic_name(2).unwrap();
    assert_eq!((e.letter, e.accidentals), ('E', 0));
    let e_flat = t.get_heptatonic_name(1).unwrap();
    assert_eq!((e_flat.letter, e_flat.accidentals), ('E', -1));
    let c = t.get_heptatonic_name(-2).unwrap();
    assert_eq!((c.letter, c.accidentals), ('C', 0));
    let g_sharp = t.get_heptatonic_name(6).unwrap();
    assert_eq!(g_sharp.accidentals.abs(), 1);
}

#[test]
fn cycles_of_a_shared_divisor() {
    assert_eq!(gcd(24, 14), 2);
    assert_eq!(gcd(19, 11), 1);
    assert_eq!(gcd(7, 0), 7);
    let t = EqualTemperament::meantone(24, 14);
    assert_eq!(t.num_cycles(), 2);
    let per_gen = PerGen::new(24, 14);
    assert_eq!(per_gen.reduced_period(), 12);
    let g = per_gen.get_generation(3);
    assert_eq!(g.cycle, 1);
    assert_eq!(g.degree, Some(7));
    let name = t.get_heptatonic_name(3).unwrap();
    assert_eq!(name.cycle, 1);
}

#[test]
fn claviatures_of_23_edo() {
    let t = EqualTemperament::find()
        .with_second_best_fifth_allowed(false)
        .with_preference(TemperamentPreference::Meantone)
        .by_edo(23);
    assert_eq!(t.num_cycles(), 1);
    assert_eq!((t.primary_step(), t.secondary_step(), t.sharpness()), (3, 4, -1));
    assert_eq!(t.num_claviatures(), 2);
    let (first, second) = t.claviature_rows(0);
    assert_eq!(first, vec![0, 3, 6, 9, 12, 15]);
    assert_eq!(second, vec![4, 7, 10, 13, 16, 19]);
    let (first, second) = t.claviature_rows(1);
    assert_eq!(first, vec![18, 21, 1, 4, 7, 10]);
    assert_eq!(second, vec![22, 2, 5, 8, 11, 14]);
}
