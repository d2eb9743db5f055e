use vstd::prelude::*;

use crate::math::{div_round, round_div};
use crate::ratio::Ratio;

verus! {

/// One step of the one-byte tuning format: 1/64 of a semitone, in units.
pub const DETUNE_STEP_UNITS: i64 = 1_562_500;

/// The byte that stands for no detuning.
pub const DETUNE_CENTER: i64 = 64;

pub const SYSEX_START: u8 = 0xf0;
pub const SYSEX_NON_REAL_TIME: u8 = 0x7e;
pub const MIDI_TUNING_STANDARD: u8 = 0x08;
pub const SCALE_OCTAVE_ONE_BYTE: u8 = 0x08;
pub const SYSEX_END: u8 = 0xf7;

/// The number of bytes of a scale/octave tuning message.
pub const SCALE_OCTAVE_MESSAGE_LEN: usize = 22;

/// The channel bitmap of the message selecting every channel.
pub const ALL_CHANNELS_MASK: u16 = 0xffff;

/// The detuning of each of the twelve pitch classes, C first and B last.
#[derive(Clone, Debug)]
pub struct ScaleOctaveTuning {
    pub deviations: Vec<Ratio>,
}

/// The channels that a tuning message addresses.
#[derive(Clone, Copy, Debug, PartialEq, Eq, Structural)]
pub enum Channels {
    All,
    Single(u8),
    /// One bit for each channel, channel 0 in the lowest bit.
    Mask(u16),
}

#[derive(Clone, Copy, Debug, PartialEq, Eq, Structural)]
pub enum ScaleOctaveTuningError {
    DeviceIdOutOfRange,
    ChannelOutOfRange,
    DetuningOutOfRange,
}

#[derive(Clone, Copy, Debug, PartialEq, Eq, Structural)]
pub enum MtsFormatError {
    WrongLength,
    WrongHeader,
    WrongChecksum,
    ValueOutOfRange,
}

/// A scale/octave tuning message (one-byte form), ready to be sent.
#[derive(Clone, Debug)]
pub struct ScaleOctaveTuningMessage {
    sysex: Vec<u8>,
}

/// What a received scale/octave tuning message says.
#[derive(Clone, Debug)]
pub struct DecodedScaleOctaveTuning {
    pub device_id: u8,
    pub channel_mask: u16,
    pub tuning: ScaleOctaveTuning,
}

/// The byte that carries a detuning of `units`.
pub open spec fn detune_byte(units: int) -> int {
    DETUNE_CENTER + round_div(units, DETUNE_STEP_UNITS as int)
}

/// The detuning, in units, that a byte carries.
pub open spec fn detune_of_byte(b: int) -> int {
    (b - DETUNE_CENTER) * DETUNE_STEP_UNITS
}

pub open spec fn channel_mask_spec(c: Channels) -> u16 {
    match c {
        Channels::All => ALL_CHANNELS_MASK,
        Channels::Single(ch) => (1u16 << ch) as u16,
        Channels::Mask(m) => m,
    }
}

/// XOR of the first `n` bytes of `s`.
pub open spec fn xor_of(s: Seq<u8>, n: int) -> u8
    decreases n,
{
    if n <= 0 {
        0u8
    } else {
        xor_of(s, n - 1) ^ s[n - 1]
    }
}

/// The checksum over the bytes that follow the start byte.
pub open spec fn checksum_of(body: Seq<u8>) -> u8 {
    xor_of(body, body.len() as int) & 0x7f
}

/// Everything of a message between the start byte and the checksum.
pub open spec fn message_body(device_id: u8, mask: u16, values: Seq<u8>) -> Seq<u8> {
    seq![
        SYSEX_NON_REAL_TIME,
        device_id,
        MIDI_TUNING_STANDARD,
        SCALE_OCTAVE_ONE_BYTE,
        ((mask >> 14u16) & 0x03) as u8,
        ((mask >> 7u16) & 0x7f) as u8,
        (mask & 0x7f) as u8,
    ] + values
}

/// The whole message: start byte, body, checksum, end byte.
pub open spec fn message_spec(device_id: u8, mask: u16, values: Seq<u8>) -> Seq<u8> {
    seq![SYSEX_START] + message_body(device_id, mask, values) + seq![
        checksum_of(message_body(device_id, mask, values)),
        SYSEX_END,
    ]
}

/// The channel bitmap carried by the three bitmap bytes.
pub open spec fn mask_of_bytes(ff: u8, gg: u8, hh: u8) -> u16 {
    (((ff as u16) << 14u16) | ((gg as u16) << 7u16) | (hh as u16)) as u16
}

/// A message is well formed: right length, header, end byte, 7-bit data and checksum.
pub open spec fn decodable(s: Seq<u8>) -> bool {
    &&& s.len() == SCALE_OCTAVE_MESSAGE_LEN
    &&& s[0] == SYSEX_START
    &&& s[1] == SYSEX_NON_REAL_TIME
    &&& s[3] == MIDI_TUNING_STANDARD
    &&& s[4] == SCALE_OCTAVE_ONE_BYTE
    &&& s[21] == SYSEX_END
    &&& s[5] < 4
    &&& forall|i: int| 1 <= i < 21 ==> s[i] < 128
    &&& s[20] == checksum_of(s.subrange(1, 20))
}

impl ScaleOctaveTuning {
    pub open spec fn wf(&self) -> bool {
        &&& self.deviations@.len() == 12
        &&& forall|i: int| 0 <= i < 12 ==> (#[trigger] self.deviations@[i]).wf()
    }

    /// Every detuning fits a byte of the message.
    pub open spec fn encodable(&self) -> bool {
        forall|i: int|
            0 <= i < 12 ==> 0 <= #[trigger] detune_byte(self.deviations@[i].units as int) <= 127
    }

    /// No pitch class detuned.
    pub fn new() -> (r: ScaleOctaveTuning)
        ensures
            r.wf(),
            forall|i: int| 0 <= i < 12 ==> (#[trigger] r.deviations@[i]).units == 0,
    {
        let mut deviations: Vec<Ratio> = Vec::new();
        let mut i: usize = 0;
        while i < 12
            invariant
                i <= 12,
                deviations@.len() == i,
                forall|j: int| 0 <= j < i ==> (#[trigger] deviations@[j]).units == 0,
            decreases 12 - i,
        {
            deviations.push(Ratio::unison());
            i = i + 1;
        }
        ScaleOctaveTuning { deviations }
    }

    /// The detuning of a pitch class.
    pub fn get(&self, pitch_class: u8) -> (r: Ratio)
        requires
            self.wf(),
            pitch_class < 12,
        ensures
            r == self.deviations@[pitch_class as int],
    {
        self.deviations[pitch_class as usize]
    }

    /// Sets the detuning of one pitch class and leaves the others.
    pub fn set(&mut self, pitch_class: u8, deviation: Ratio)
        requires
            old(self).wf(),
            pitch_class < 12,
            deviation.wf(),
        ensures
            final(self).wf(),
            final(self).deviations@ == old(self).deviations@.update(pitch_class as int, deviation),
    {
        self.deviations.set(pitch_class as usize, deviation);
    }
}

impl Channels {
    /// The channel bitmap; `None` for a single channel number of 16 or more.
    pub fn mask(&self) -> (r: Option<u16>)
        ensures
            match *self {
                Channels::Single(ch) => ch >= 16 ==> r.is_none(),
                _ => true,
            },
            r.is_some() ==> r == Some(channel_mask_spec(*self)),
            (match *self {
                Channels::Single(ch) => ch < 16,
                _ => true,
            }) ==> r.is_some(),
    {
        match *self {
            Channels::All => Some(ALL_CHANNELS_MASK),
            Channels::Single(ch) => if ch < 16 {
                Some(1u16 << ch)
            } else {
                None
            },
            Channels::Mask(m) => Some(m),
        }
    }
}

/// XOR of all bytes of `s`.
fn xor_all(s: &Vec<u8>) -> (r: u8)
    ensures
        r == xor_of(s@, s@.len() as int),
{
    let mut acc: u8 = 0;
    let mut i: usize = 0;
    while i < s.len()
        invariant
            i <= s.len(),
            acc == xor_of(s@, i as int),
        decreases s.len() - i,
    {
        acc = acc ^ s[i];
        i = i + 1;
    }
    acc
}

/// The detuning byte of one deviation, if it fits.
fn detune_to_byte(deviation: Ratio) -> (r: Option<u8>)
    requires
        deviation.wf(),
    ensures
        0 <= detune_byte(deviation.units as int) <= 127 ==> r == Some(
            detune_byte(deviation.units as int) as u8,
        ),
        !(0 <= detune_byte(deviation.units as int) <= 127) ==> r.is_none(),
{
    let steps = div_round(deviation.units, DETUNE_STEP_UNITS);
    if -64 <= steps && steps <= 63 {
        Some((steps + 64) as u8)
    } else {
        None
    }
}

impl ScaleOctaveTuningMessage {
    pub closed spec fn bytes(&self) -> Seq<u8> {
        self.sysex@
    }

    /// The detuning bytes of a tuning, C first.
    pub open spec fn values_of(tuning: &ScaleOctaveTuning) -> Seq<u8> {
        Seq::new(12, |i: int| detune_byte(tuning.deviations@[i].units as int) as u8)
    }

    /// Encodes a tuning for the given channels and device. Fails on a device id of
    /// 128 or more, on a single channel of 16 or more, and on a detuning that lies
    /// outside the range of the format (-64 to +63 steps of 1/64 semitone, rounded
    /// to the nearest step); no detuning is clamped.
    pub fn from_scale_octave_tuning(
        tuning: &ScaleOctaveTuning,
        channels: Channels,
        device_id: u8,
    ) -> (r: Result<ScaleOctaveTuningMessage, ScaleOctaveTuningError>)
        requires
            tuning.wf(),
        ensures
            device_id >= 128 ==> r == Err::<ScaleOctaveTuningMessage, _>(
                ScaleOctaveTuningError::DeviceIdOutOfRange,
            ),
            device_id < 128 && (match channels {
                Channels::Single(ch) => ch >= 16,
                _ => false,
            }) ==> r == Err::<ScaleOctaveTuningMessage, _>(
                ScaleOctaveTuningError::ChannelOutOfRange,
            ),
            device_id < 128 && (match channels {
                Channels::Single(ch) => ch < 16,
                _ => true,
            }) ==> {
                &&& !tuning.encodable() ==> r == Err::<ScaleOctaveTuningMessage, _>(
                    ScaleOctaveTuningError::DetuningOutOfRange,
                )
                &&& tuning.encodable() ==> r is Ok && r->Ok_0.bytes() == message_spec(
                    device_id,
                    channel_mask_spec(channels),
                    Self::values_of(tuning),
                )
            },
    {
        if device_id >= 128 {
            return Err(ScaleOctaveTuningError::DeviceIdOutOfRange);
        }
        let mask = match channels.mask() {
            Some(m) => m,
            None => {
                return Err(ScaleOctaveTuningError::ChannelOutOfRange);
            },
        };
        let mut body: Vec<u8> = vec![
            SYSEX_NON_REAL_TIME,
            device_id,
            MIDI_TUNING_STANDARD,
            SCALE_OCTAVE_ONE_BYTE,
            ((mask >> 14u16) & 0x03) as u8,
            ((mask >> 7u16) & 0x7f) as u8,
            (mask & 0x7f) as u8,
        ];
        let ghost head = body@;
        let mut i: usize = 0;
        while i < 12
            invariant
                tuning.wf(),
                device_id < 128,
                mask == channel_mask_spec(channels),
                match channels {
                    Channels::Single(ch) => ch < 16,
                    _ => true,
                },
                i <= 12,
                body@.len() == 7 + i,
                body@.subrange(0, 7) == head,
                forall|j: int|
                    0 <= j < i ==> 0 <= #[trigger] detune_byte(tuning.deviations@[j].units as int)
                        <= 127,
                forall|j: int|
                    0 <= j < i ==> body@[7 + j] == (#[trigger] detune_byte(
                        tuning.deviations@[j].units as int,
                    )) as u8,
            decreases 12 - i,
        {
            match detune_to_byte(tuning.deviations[i]) {
                Some(b) => body.push(b),
                None => {
                    return Err(ScaleOctaveTuningError::DetuningOutOfRange);
                },
            }
            i = i + 1;
        }
        let checksum = xor_all(&body) & 0x7f;
        assert(body@ =~= message_body(device_id, mask, Self::values_of(tuning)));
        let mut sysex: Vec<u8> = vec![SYSEX_START];
        sysex.append(&mut body);
        sysex.push(checksum);
        sysex.push(SYSEX_END);
        assert(sysex@ =~= message_spec(device_id, mask, Self::values_of(tuning)));
        Ok(ScaleOctaveTuningMessage { sysex })
    }

    pub fn into_bytes(self) -> (r: Vec<u8>)
        ensures
            r@ == self.bytes(),
    {
        self.sysex
    }

    pub fn sysex_bytes(&self) -> (r: &[u8])
        ensures
            r@ == self.bytes(),
    {
        self.sysex.as_slice()
    }
}

/// Reads a scale/octave tuning message (one-byte form).
pub fn decode_scale_octave_tuning(message: &[u8]) -> (r: Result<
    DecodedScaleOctaveTuning,
    MtsFormatError,
>)
    ensures
        r is Ok <==> decodable(message@),
        r is Ok ==> {
            let d = r->Ok_0;
            let s = message@;
            &&& d.device_id == s[2]
            &&& d.channel_mask == mask_of_bytes(s[5], s[6], s[7])
            &&& d.tuning.wf()
            &&& forall|i: int|
                0 <= i < 12 ==> (#[trigger] d.tuning.deviations@[i]).units == detune_of_byte(
                    s[8 + i] as int,
                )
        },
{
    if message.len() != SCALE_OCTAVE_MESSAGE_LEN {
        return Err(MtsFormatError::WrongLength);
    }
    if message[0] != SYSEX_START || message[1] != SYSEX_NON_REAL_TIME || message[3]
        != MIDI_TUNING_STANDARD || message[4] != SCALE_OCTAVE_ONE_BYTE || message[21]
        != SYSEX_END {
        return Err(MtsFormatError::WrongHeader);
    }
    let mut body: Vec<u8> = Vec::new();
    let mut i: usize = 1;
    while i < 20
        invariant
            message@.len() == SCALE_OCTAVE_MESSAGE_LEN,
            1 <= i <= 20,
            body@ == message@.subrange(1, i as int),
            forall|j: int| 1 <= j < i ==> message@[j] < 128,
        decreases 20 - i,
    {
        if message[i] >= 128 {
            return Err(MtsFormatError::ValueOutOfRange);
        }
        body.push(message[i]);
        i = i + 1;
        assert(body@ =~= message@.subrange(1, i as int));
    }
    if message[20] >= 128 || message[5] >= 4 {
        return Err(MtsFormatError::ValueOutOfRange);
    }
    if message[20] != xor_all(&body) & 0x7f {
        return Err(MtsFormatError::WrongChecksum);
    }
    let mut deviations: Vec<Ratio> = Vec::new();
    let mut k: usize = 0;
    while k < 12
        invariant
            message@.len() == SCALE_OCTAVE_MESSAGE_LEN,
            k <= 12,
            deviations@.len() == k,
            forall|j: int| 1 <= j < 21 ==> message@[j] < 128,
            forall|j: int|
                0 <= j < k ==> (#[trigger] deviations@[j]).units == detune_of_byte(
                    message@[8 + j] as int,
                ) && deviations@[j].wf(),
        decreases 12 - k,
    {
        let b = message[8 + k] as i64;
        deviations.push(Ratio::from_units((b - DETUNE_CENTER) * DETUNE_STEP_UNITS));
        k = k + 1;
    }
    let ff = message[5] as u16;
    let gg = message[6] as u16;
    let hh = message[7] as u16;
    Ok(
        DecodedScaleOctaveTuning {
            device_id: message[2],
            channel_mask: (ff << 14u16) | (gg << 7u16) | hh,
            tuning: ScaleOctaveTuning { deviations },
        },
    )
}

/// A detuning within half a semitone fits a byte of the message.
pub proof fn lemma_half_semitone_encodable(units: int)
    requires
        -50_000_000 <= units <= 50_000_000,
    ensures
        32 <= detune_byte(units) <= 96,
{
    crate::math::lemma_round_div_monotone(-50_000_000, units, DETUNE_STEP_UNITS as int);
    crate::math::lemma_round_div_monotone(units, 50_000_000, DETUNE_STEP_UNITS as int);
    vstd::arithmetic::div_mod::lemma_fundamental_div_mod_converse(
        -98_437_500,
        3_125_000,
        -32,
        1_562_500,
    );
    vstd::arithmetic::div_mod::lemma_fundamental_div_mod_converse(
        101_562_500,
        3_125_000,
        32,
        1_562_500,
    );
}

/// A message built from a tuning reads back as the same device, the same channels,
/// and each detuning rounded to the nearest step of the format.
pub proof fn lemma_encode_then_decode(tuning: ScaleOctaveTuning, device_id: u8, mask: u16)
    requires
        tuning.wf(),
        tuning.encodable(),
        device_id < 128,
    ensures
        decodable(message_spec(device_id, mask, ScaleOctaveTuningMessage::values_of(&tuning))),
        ({
            let s = message_spec(device_id, mask, ScaleOctaveTuningMessage::values_of(&tuning));
            &&& s[2] == device_id
            &&& mask_of_bytes(s[5], s[6], s[7]) == mask
            &&& forall|i: int|
                0 <= i < 12 ==> detune_of_byte(s[8 + i] as int) == (round_div(
                    tuning.deviations@[i].units as int,
                    DETUNE_STEP_UNITS as int,
                )) * DETUNE_STEP_UNITS
        }),
{
    let values = ScaleOctaveTuningMessage::values_of(&tuning);
    let body = message_body(device_id, mask, values);
    let s = message_spec(device_id, mask, values);
    assert(s.subrange(1, 20) =~= body);
    let c = checksum_of(body);
    let x = xor_of(body, body.len() as int);
    assert(x & 0x7f < 128) by (bit_vector);
    assert(((mask >> 14u16) & 0x03) < 4) by (bit_vector);
    assert(((mask >> 7u16) & 0x7f) < 128) by (bit_vector);
    assert((mask & 0x7f) < 128) by (bit_vector);
    assert(mask_of_bytes(
        ((mask >> 14u16) & 0x03) as u8,
        ((mask >> 7u16) & 0x7f) as u8,
        (mask & 0x7f) as u8,
    ) == mask) by (bit_vector);
    assert forall|i: int| 1 <= i < 21 implies s[i] < 128 by {
        if 8 <= i < 20 {
            assert(s[i] == values[i - 8]);
            assert(0 <= detune_byte(tuning.deviations@[i - 8].units as int) <= 127);
        }
    }
    assert forall|i: int|
        0 <= i < 12 implies detune_of_byte(s[8 + i] as int) == (round_div(
        tuning.deviations@[i].units as int,
        DETUNE_STEP_UNITS as int,
    )) * DETUNE_STEP_UNITS by {
        assert(s[8 + i] == values[i]);
        assert(0 <= detune_byte(tuning.deviations@[i].units as int) <= 127);
    }
}

} // verus!
