use vstd::prelude::*;

use crate::math::{div_floor, rem_floor};
use crate::ratio::{in_range, Pitch, Ratio, UNITS_PER_SEMITONE};

verus! {

/// The MIDI number of A5 (A above middle C, 440 Hz in standard tuning).
pub const A5_MIDI_NUMBER: i32 = 69;

/// log2(440) in units: 440 Hz is 2^3 * 5 * 11.
pub const A5_440_HZ_LOG_UNITS: i64 = 10_537_631_656;

/// The pitch that A5 is tuned to.
#[derive(Clone, Copy, Debug, PartialEq, Eq, Structural)]
pub struct ConcertPitch {
    pub a5: Pitch,
}

impl ConcertPitch {
    pub fn from_a5_pitch(a5: Pitch) -> (r: ConcertPitch)
        ensures
            r.a5 == a5,
    {
        ConcertPitch { a5 }
    }

    /// A5 at 440 Hz.
    pub fn standard() -> (r: ConcertPitch)
        ensures
            r.a5.log_units == A5_440_HZ_LOG_UNITS,
    {
        ConcertPitch { a5: Pitch::from_log_units(A5_440_HZ_LOG_UNITS) }
    }

    pub fn a5_pitch(&self) -> (r: Pitch)
        ensures
            r == self.a5,
    {
        self.a5
    }
}

/// The name of a pitch class, 0 for C up to 11 for B.
pub open spec fn pitch_class_name(class: int) -> &'static str {
    if class == 0 {
        "C"
    } else if class == 1 {
        "C#/Db"
    } else if class == 2 {
        "D"
    } else if class == 3 {
        "D#/Eb"
    } else if class == 4 {
        "E"
    } else if class == 5 {
        "F"
    } else if class == 6 {
        "F#/Gb"
    } else if class == 7 {
        "G"
    } else if class == 8 {
        "G#/Ab"
    } else if class == 9 {
        "A"
    } else if class == 10 {
        "A#/Bb"
    } else {
        "B"
    }
}

/// A key of the twelve-tone keyboard, by its MIDI number.
#[derive(Clone, Copy, Debug, PartialEq, Eq, Structural)]
pub struct Note {
    midi_number: i32,
}

impl Note {
    pub closed spec fn number(self) -> int {
        self.midi_number as int
    }

    pub fn from_midi_number(midi_number: i32) -> (r: Self)
        ensures
            r.number() == midi_number,
    {
        Self { midi_number }
    }

    pub fn midi_number(self) -> (r: i32)
        ensures
            r == self.number(),
    {
        self.midi_number
    }

    /// The number of semitones from this note up to `other`.
    pub fn steps_to(self, other: Note) -> (r: i32)
        requires
            i32::MIN <= other.number() - self.number() <= i32::MAX,
        ensures
            r == other.number() - self.number(),
    {
        other.midi_number - self.midi_number
    }

    /// The note `n` semitones higher.
    pub fn plus_semitones(self, n: i32) -> (r: Note)
        requires
            i32::MIN <= self.number() + n <= i32::MAX,
        ensures
            r.number() == self.number() + n,
    {
        Note { midi_number: self.midi_number + n }
    }

    /// The pitch class, 0 for C up to 11 for B.
    pub fn pitch_class(self) -> (r: u8)
        ensures
            r == self.number() % 12,
            r < 12,
    {
        rem_floor(self.midi_number as i64, 12) as u8
    }

    /// The octave, counted so that MIDI number 0 lies in octave -1 and middle C
    /// (60) in octave 4.
    pub fn octave(self) -> (r: i32)
        ensures
            r == self.number() / 12 - 1,
    {
        (div_floor(self.midi_number as i64, 12) - 1) as i32
    }

    /// The name of the pitch class and the octave, as in "C#/Db 4".
    pub fn letter_and_octave(self) -> (r: (&'static str, i32))
        ensures
            r.0 == pitch_class_name(self.number() % 12),
            r.1 == self.number() / 12 - 1,
    {
        let name = match self.pitch_class() {
            0 => "C",
            1 => "C#/Db",
            2 => "D",
            3 => "D#/Eb",
            4 => "E",
            5 => "F",
            6 => "F#/Gb",
            7 => "G",
            8 => "G#/Ab",
            9 => "A",
            10 => "A#/Bb",
            _ => "B",
        };
        (name, self.octave())
    }

    /// The pitch in twelve-tone equal temperament at the given concert pitch.
    pub fn pitch(self, concert_pitch: ConcertPitch) -> (r: Pitch)
        requires
            in_range(concert_pitch.a5.log_units + (self.number() - A5_MIDI_NUMBER) * UNITS_PER_SEMITONE),
        ensures
            r.log_units == concert_pitch.a5.log_units + (self.number() - A5_MIDI_NUMBER)
                * UNITS_PER_SEMITONE,
    {
        let offset = Ratio::from_units((self.midi_number as i64 - A5_MIDI_NUMBER as i64) * UNITS_PER_SEMITONE);
        concert_pitch.a5.times(offset)
    }
}

} // verus!
