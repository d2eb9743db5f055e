//! Microtonal MIDI retuning: interval arithmetic, scales and keyboard mappings,
//! the channel voice and scale/octave tuning messages of MIDI, the allocation of
//! output channels to keys, and the just-in-time, ahead-of-time and pitch-bend
//! retuning strategies.

pub mod comma;
pub mod commas;
pub mod fraction;
pub mod generators;
pub mod live;
pub mod math;
pub mod midi;
pub mod mts;
pub mod note;
pub mod primes;
pub mod ratio;
pub mod retune;
pub mod scale;
pub mod temperament;
pub mod tuner;
