use vstd::prelude::*;

use crate::math::{div_round, round_div};
use crate::midi::{key_of, parse_spec, ChannelMessage, ChannelMessageType};
use crate::mts::{
    channel_mask_spec, detune_byte, lemma_half_semitone_encodable, message_spec, Channels,
    ScaleOctaveTuning, ScaleOctaveTuningMessage,
};
use crate::note::ConcertPitch;
use crate::ratio::{Ratio, UNITS_PER_SEMITONE};
use crate::tuner::{
    allocate_spec, approximate, approximation_spec, lookup_spec,
    num_channels_of, targets_valid, ChannelTuner, KeyTarget, ScaleMapping, TunerError,
    MAX_ALLOCATED_CHANNELS, MAX_CHANNELS,
};

verus! {

/// The pitch-bend value of no bend.
pub const PITCH_BEND_CENTER: i64 = 8192;

/// The largest pitch-bend value.
pub const PITCH_BEND_MAX: i64 = 16383;

/// The same message addressed to another key.
pub open spec fn with_key_spec(t: ChannelMessageType, key: u8) -> ChannelMessageType {
    match t {
        ChannelMessageType::NoteOff { velocity, .. } => ChannelMessageType::NoteOff { key, velocity },
        ChannelMessageType::NoteOn { velocity, .. } => ChannelMessageType::NoteOn { key, velocity },
        ChannelMessageType::PolyphonicKeyPressure { pressure, .. } => {
            ChannelMessageType::PolyphonicKeyPressure { key, pressure }
        },
        _ => t,
    }
}

pub fn with_key(t: ChannelMessageType, key: u8) -> (r: ChannelMessageType)
    ensures
        r == with_key_spec(t, key),
{
    match t {
        ChannelMessageType::NoteOff { velocity, .. } => ChannelMessageType::NoteOff { key, velocity },
        ChannelMessageType::NoteOn { velocity, .. } => ChannelMessageType::NoteOn { key, velocity },
        ChannelMessageType::PolyphonicKeyPressure { pressure, .. } => {
            ChannelMessageType::PolyphonicKeyPressure { key, pressure }
        },
        _ => t,
    }
}

/// A message as the scale plays it: a message addressed to a key whose pitch lies
/// on a MIDI key goes to that (nearest twelve-tone) key, with the deviation from it;
/// any other message stays as it is, without a deviation.
pub open spec fn transform_spec(mapping: ScaleMapping, a5: int, c: ChannelMessage) -> (
    ChannelMessage,
    Option<int>,
) {
    match key_of(c.message_type) {
        None => (c, None),
        Some(k) => match mapping.pitch_spec(k as int) {
            None => (c, None),
            Some(p) => match approximation_spec(p, a5) {
                None => (c, None),
                Some((note, dev)) => (
                    ChannelMessage {
                        channel: c.channel,
                        message_type: with_key_spec(c.message_type, note as u8),
                    },
                    Some(dev),
                ),
            },
        },
    }
}

/// Maps a message through the scale, as `transform_spec` says.
pub fn transform(mapping: &ScaleMapping, concert_pitch: ConcertPitch, c: ChannelMessage) -> (r: (
    ChannelMessage,
    Option<Ratio>,
))
    requires
        mapping.wf(),
        concert_pitch.a5.wf(),
    ensures
        r.0 == transform_spec(*mapping, concert_pitch.a5.log_units as int, c).0,
        match transform_spec(*mapping, concert_pitch.a5.log_units as int, c).1 {
            None => r.1.is_none(),
            Some(d) => r.1 == Some(Ratio { units: d as i64 }),
        },
        r.1 is Some ==> -UNITS_PER_SEMITONE / 2 <= r.1->Some_0.units < UNITS_PER_SEMITONE / 2,
{
    match c.message_type.get_key() {
        None => (c, None),
        Some(k) => match mapping.pitch_of(k as i32) {
            None => (c, None),
            Some(p) => match approximate(p, concert_pitch) {
                None => (c, None),
                Some((note, dev)) => (
                    ChannelMessage {
                        channel: c.channel,
                        message_type: with_key(c.message_type, note),
                    },
                    Some(dev),
                ),
            },
        },
    }
}

/// Just-in-time retuning: one channel in, the same channel out; before a note-on
/// whose pitch class needs another detuning than the channel has, a scale/octave
/// tuning message with the new detuning goes out.
pub struct JustInTime {
    pub mapping: ScaleMapping,
    pub concert_pitch: ConcertPitch,
    pub device_id: u8,
    pub tuning: ScaleOctaveTuning,
}

impl JustInTime {
    pub open spec fn wf(&self) -> bool {
        &&& self.mapping.wf()
        &&& self.concert_pitch.a5.wf()
        &&& self.device_id < 128
        &&& self.tuning.wf()
        &&& forall|i: int|
            0 <= i < 12 ==> -UNITS_PER_SEMITONE / 2 <= (#[trigger] self.tuning.deviations@[i]).units
                <= UNITS_PER_SEMITONE / 2
    }

    /// A session with no pitch class detuned.
    pub fn new(mapping: ScaleMapping, concert_pitch: ConcertPitch, device_id: u8) -> (r: Option<
        JustInTime,
    >)
        requires
            mapping.wf(),
            concert_pitch.a5.wf(),
        ensures
            device_id < 128 <==> r is Some,
            r is Some ==> r->Some_0.wf() && forall|i: int|
                0 <= i < 12 ==> (#[trigger] r->Some_0.tuning.deviations@[i]).units == 0,
    {
        if device_id >= 128 {
            return None;
        }
        let tuning = ScaleOctaveTuning::new();
        Some(JustInTime { mapping, concert_pitch, device_id, tuning })
    }

    /// Handles one incoming packet and returns the packets to send, in order.
    pub fn handle(&mut self, message: &[u8]) -> (out: Vec<Vec<u8>>)
        requires
            old(self).wf(),
        ensures
            final(self).wf(),
            final(self).mapping == old(self).mapping,
            final(self).device_id == old(self).device_id,
            match parse_spec(message@) {
                None => out@.len() == 0 && final(self).tuning.deviations@ == old(
                    self,
                ).tuning.deviations@,
                Some(c) => {
                    let (m, dev) = transform_spec(
                        old(self).mapping,
                        old(self).concert_pitch.a5.log_units as int,
                        c,
                    );
                    let retune = match (m.message_type, dev) {
                        (ChannelMessageType::NoteOn { key, .. }, Some(d)) => old(
                            self,
                        ).tuning.deviations@[(key % 12) as int].units != d,
                        _ => false,
                    };
                    if retune {
                        let key = key_of(m.message_type)->Some_0;
                        let new_deviations = old(self).tuning.deviations@.update(
                            (key % 12) as int,
                            Ratio { units: dev->Some_0 as i64 },
                        );
                        &&& final(self).tuning.deviations@ == new_deviations
                        &&& out@.len() == 2
                        &&& out@[0]@ == message_spec(
                            old(self).device_id,
                            channel_mask_spec(Channels::Single(c.channel)),
                            ScaleOctaveTuningMessage::values_of(&final(self).tuning),
                        )
                        &&& out@[1]@ == m.raw_spec()
                    } else {
                        &&& final(self).tuning.deviations@ == old(self).tuning.deviations@
                        &&& out@.len() == 1
                        &&& out@[0]@ == m.raw_spec()
                    }
                },
            },
    {
        let mut out: Vec<Vec<u8>> = Vec::new();
        let c = match ChannelMessage::from_raw_message(message) {
            None => {
                return out;
            },
            Some(c) => c,
        };
        proof {
            assert(c.channel < 16) by {
                assert(message@[0] % 16 < 16);
            }
        }
        let (m, dev) = transform(&self.mapping, self.concert_pitch, c);
        if let ChannelMessageType::NoteOn { key, .. } = m.message_type {
            if let Some(d) = dev {
                let class = key % 12;
                if self.tuning.get(class).units != d.units {
                    self.tuning.set(class, d);
                    proof {
                        assert forall|i: int| 0 <= i < 12 implies 0 <= #[trigger] detune_byte(
                            self.tuning.deviations@[i].units as int,
                        ) <= 127 by {
                            lemma_half_semitone_encodable(self.tuning.deviations@[i].units as int);
                        }
                    }
                    let sysex = ScaleOctaveTuningMessage::from_scale_octave_tuning(
                        &self.tuning,
                        Channels::Single(c.channel),
                        self.device_id,
                    );
                    match sysex {
                        Ok(s) => out.push(s.into_bytes()),
                        Err(_) => {},
                    }
                    out.push(m.to_raw_message());
                    return out;
                }
            }
        }
        out.push(m.to_raw_message());
        out
    }
}

/// The number of output channels in `[lower, min(upper, 16))`.
pub open spec fn available_channels(lower: int, upper: int) -> int {
    let top = if upper < MAX_CHANNELS {
        upper
    } else {
        MAX_CHANNELS as int
    };
    if lower < top {
        top - lower
    } else {
        0
    }
}

#[derive(Clone, Copy, Debug, PartialEq, Eq, Structural)]
pub enum LiveError {
    DeviceIdOutOfRange,
    /// More channels would be needed than an allocation may open (255); only
    /// `available` were given.
    ChannelsExhausted { available: usize },
    /// The tuning needs `required` channels but only `available` were given.
    ChannelsInsufficient { required: usize, available: usize },
}

/// The detuning, in units, that allocation entry `k` of channel `c` sets.
pub open spec fn entry_units(entries: Seq<Option<i64>>, c: int, k: int) -> int {
    match entries[c * 12 + k] {
        Some(d) => d as int,
        None => 0,
    }
}

/// The tuning message of channel `c` of an allocation, sent to output channel
/// `lower + c`.
pub open spec fn startup_message(
    entries: Seq<Option<i64>>,
    c: int,
    lower: int,
    device_id: u8,
) -> Seq<u8> {
    message_spec(
        device_id,
        channel_mask_spec(Channels::Single((lower + c) as u8)),
        Seq::new(12, |k: int| detune_byte(entry_units(entries, c, k)) as u8),
    )
}

/// Ahead-of-time retuning: the keys are spread over several output channels once,
/// at the start, and each channel gets its tuning message then; afterwards messages
/// are only redirected.
pub struct AheadOfTime {
    pub tuner: ChannelTuner,
    pub in_channel: u8,
    pub lower_channel: u8,
    /// Whether messages on other channels than the input channel are passed on
    /// unchanged (or dropped).
    pub forward_other_channels: bool,
}

impl AheadOfTime {
    pub open spec fn wf(&self) -> bool {
        &&& self.tuner.wf()
        &&& num_channels_of(self.tuner.entries_spec()) == 0 || self.lower_channel
            + num_channels_of(self.tuner.entries_spec()) <= MAX_CHANNELS
    }

    /// Allocates channels for the targets, at most sixteen, and checks that they fit
    /// the output channels `[lower, min(upper, 16))`. On success returns the session
    /// and the tuning messages to send first, one for each channel in order; on
    /// failure nothing is to be sent.
    pub fn start(
        targets: &Vec<KeyTarget>,
        in_channel: u8,
        lower: u8,
        upper: u8,
        device_id: u8,
        forward_other_channels: bool,
    ) -> (r: Result<(AheadOfTime, Vec<Vec<u8>>), LiveError>)
        requires
            targets_valid(targets@),
        ensures
            device_id >= 128 ==> r == Err::<(AheadOfTime, Vec<Vec<u8>>), _>(
                LiveError::DeviceIdOutOfRange,
            ),
            device_id < 128 ==> match allocate_spec(targets@, targets@.len() as int, MAX_ALLOCATED_CHANNELS as int) {
                None => r == Err::<(AheadOfTime, Vec<Vec<u8>>), _>(
                    LiveError::ChannelsExhausted {
                        available: available_channels(lower as int, upper as int) as usize,
                    },
                ),
                Some(s) => {
                    let n = num_channels_of(s.0);
                    let avail = available_channels(lower as int, upper as int);
                    &&& n > avail ==> r == Err::<(AheadOfTime, Vec<Vec<u8>>), _>(
                        LiveError::ChannelsInsufficient { required: n as usize, available: avail as usize },
                    )
                    &&& n <= avail ==> {
                        &&& r is Ok
                        &&& r->Ok_0.0.wf()
                        &&& r->Ok_0.0.tuner.entries_spec() == s.0
                        &&& r->Ok_0.0.tuner.channels_spec() == s.1
                        &&& r->Ok_0.0.tuner.targets_spec() == targets@
                        &&& r->Ok_0.0.in_channel == in_channel
                        &&& r->Ok_0.0.forward_other_channels == forward_other_channels
                        &&& r->Ok_0.0.lower_channel == lower
                        &&& r->Ok_0.1@.len() == n
                        &&& forall|c: int|
                            0 <= c < n ==> (#[trigger] r->Ok_0.1@[c])@ == startup_message(
                                s.0,
                                c,
                                lower as int,
                                device_id,
                            )
                    }
                },
            },
    {
        if device_id >= 128 {
            return Err(LiveError::DeviceIdOutOfRange);
        }
        let top: u8 = if upper < MAX_CHANNELS {
            upper
        } else {
            MAX_CHANNELS
        };
        let avail: usize = if lower < top {
            (top - lower) as usize
        } else {
            0
        };
        let tuner = match ChannelTuner::allocate(targets, MAX_ALLOCATED_CHANNELS) {
            Ok(t) => t,
            Err(TunerError::ChannelsExhausted) => {
                return Err(LiveError::ChannelsExhausted { available: avail });
            },
        };
        let n = tuner.num_channels();
        if n > avail {
            return Err(LiveError::ChannelsInsufficient { required: n, available: avail });
        }
        let tunings = tuner.tunings();
        let mut messages: Vec<Vec<u8>> = Vec::new();
        let mut c: usize = 0;
        while c < n
            invariant
                tuner.wf(),
                n == num_channels_of(tuner.entries_spec()),
                tunings@.len() == n,
                forall|c2: int|
                    0 <= c2 < n ==> (#[trigger] tunings@[c2]).wf() && forall|k: int|
                        0 <= k < 12 ==> (#[trigger] tunings@[c2].deviations@[k]).units == entry_units(
                            tuner.entries_spec(),
                            c2,
                            k,
                        ),
                device_id < 128,
                n == 0 || lower as int + n <= MAX_CHANNELS,
                forall|c2: int, k: int|
                    0 <= c2 < n && 0 <= k < 12 ==> -UNITS_PER_SEMITONE / 2
                        <= (#[trigger] tunings@[c2].deviations@[k]).units <= UNITS_PER_SEMITONE / 2,
                c <= n,
                messages@.len() == c,
                forall|c2: int|
                    0 <= c2 < c ==> (#[trigger] messages@[c2])@ == startup_message(
                        tuner.entries_spec(),
                        c2,
                        lower as int,
                        device_id,
                    ),
            decreases n - c,
        {
            let t = &tunings[c];
            proof {
                assert forall|i: int| 0 <= i < 12 implies 0 <= #[trigger] detune_byte(
                    t.deviations@[i].units as int,
                ) <= 127 by {
                    let k = i;
                    assert(-UNITS_PER_SEMITONE / 2 <= tunings@[c as int].deviations@[k].units);
                    lemma_half_semitone_encodable(t.deviations@[i].units as int);
                }
                assert(ScaleOctaveTuningMessage::values_of(t) =~= Seq::new(
                    12,
                    |k: int| detune_byte(entry_units(tuner.entries_spec(), c as int, k)) as u8,
                ));
            }
            let channel = lower + c as u8;
            match ScaleOctaveTuningMessage::from_scale_octave_tuning(
                t,
                Channels::Single(channel),
                device_id,
            ) {
                Ok(m) => messages.push(m.into_bytes()),
                Err(_) => {
                    return Err(LiveError::DeviceIdOutOfRange);
                },
            }
            c = c + 1;
        }
        Ok((AheadOfTime { tuner, in_channel, lower_channel: lower, forward_other_channels }, messages))
    }

    /// Handles one incoming packet and returns the packets to send. Messages on other
    /// channels than the input channel are passed on or dropped, as configured. A message to a key goes, with
    /// the key replaced, to the channel that the key was allocated; a message to a
    /// key without a target is dropped. Any other message goes to every allocated
    /// channel.
    pub fn handle(&self, message: &[u8]) -> (out: Vec<Vec<u8>>)
        requires
            self.wf(),
        ensures
            match parse_spec(message@) {
                None => out@.len() == 0,
                Some(c) => if c.channel != self.in_channel {
                    if self.forward_other_channels {
                        out@.len() == 1 && out@[0]@ == c.raw_spec()
                    } else {
                        out@.len() == 0
                    }
                } else {
                    match key_of(c.message_type) {
                        Some(k) => match lookup_spec(
                            self.tuner.targets_spec(),
                            self.tuner.channels_spec(),
                            k as int,
                        ) {
                            None => out@.len() == 0,
                            Some((ch, note)) => out@.len() == 1 && out@[0]@ == (ChannelMessage {
                                channel: (self.lower_channel + ch) as u8,
                                message_type: with_key_spec(c.message_type, note),
                            }).raw_spec(),
                        },
                        None => out@.len() == num_channels_of(self.tuner.entries_spec()) && forall|
                            j: int,
                        |
                            0 <= j < out@.len() ==> (#[trigger] out@[j])@ == (ChannelMessage {
                                channel: (self.lower_channel + j) as u8,
                                message_type: c.message_type,
                            }).raw_spec(),
                    }
                },
            },
    {
        let mut out: Vec<Vec<u8>> = Vec::new();
        let c = match ChannelMessage::from_raw_message(message) {
            None => {
                return out;
            },
            Some(c) => c,
        };
        if c.channel != self.in_channel {
            if self.forward_other_channels {
                proof {
                    assert(message@[0] % 16 < 16);
                }
                out.push(c.to_raw_message());
            }
            return out;
        }
        match c.message_type.get_key() {
            Some(k) => {
                match self.tuner.lookup(k as i32) {
                    None => {},
                    Some((ch, note)) => {
                        let m = ChannelMessage {
                            channel: self.lower_channel + ch,
                            message_type: with_key(c.message_type, note),
                        };
                        out.push(m.to_raw_message());
                    },
                }
            },
            None => {
                let n = self.tuner.num_channels();
                let mut j: usize = 0;
                while j < n
                    invariant
                        self.wf(),
                        n == num_channels_of(self.tuner.entries_spec()),
                        j <= n,
                        out@.len() == j,
                        forall|j2: int|
                            0 <= j2 < j ==> (#[trigger] out@[j2])@ == (ChannelMessage {
                                channel: (self.lower_channel + j2) as u8,
                                message_type: c.message_type,
                            }).raw_spec(),
                    decreases n - j,
                {
                    let m = ChannelMessage {
                        channel: self.lower_channel + j as u8,
                        message_type: c.message_type,
                    };
                    out.push(m.to_raw_message());
                    j = j + 1;
                }
            },
        }
        out
    }
}

/// Monophonic pitch-bend retuning: one channel in, the same channel out, no tuning
/// messages; each note-on is preceded by a pitch bend that moves the channel to the
/// note's deviation (a bend range of one semitone either way assumed).
pub struct MonophonicPitchBend {
    pub mapping: ScaleMapping,
    pub concert_pitch: ConcertPitch,
    /// Whether messages to keys without a target are passed on unchanged (or dropped).
    pub forward_unmapped: bool,
}

/// The pitch-bend value for a deviation: the center plus the deviation in
/// semitones times 8192, rounded.
pub open spec fn pitch_bend_spec(dev: int) -> int {
    PITCH_BEND_CENTER + round_div(dev * 8192, UNITS_PER_SEMITONE as int)
}

impl MonophonicPitchBend {
    pub open spec fn wf(&self) -> bool {
        self.mapping.wf() && self.concert_pitch.a5.wf()
    }

    /// Handles one incoming packet and returns the packets to send, in order.
    pub fn handle(&self, message: &[u8]) -> (out: Vec<Vec<u8>>)
        requires
            self.wf(),
        ensures
            match parse_spec(message@) {
                None => out@.len() == 0,
                Some(c) => {
                    let (m, dev) = transform_spec(
                        self.mapping,
                        self.concert_pitch.a5.log_units as int,
                        c,
                    );
                    match (m.message_type, dev) {
                        (ChannelMessageType::NoteOn { .. }, Some(d)) => {
                            let v = pitch_bend_spec(d);
                            &&& 0 <= v <= PITCH_BEND_MAX ==> out@.len() == 2 && out@[0]@ == (
                            ChannelMessage {
                                channel: c.channel,
                                message_type: ChannelMessageType::PitchBendChange { value: v as u32 },
                            }).raw_spec() && out@[1]@ == m.raw_spec()
                            &&& !(0 <= v <= PITCH_BEND_MAX) ==> out@.len() == 0
                        },
                        (_, None) => if key_of(c.message_type) is Some && !self.forward_unmapped {
                            out@.len() == 0
                        } else {
                            out@.len() == 1 && out@[0]@ == m.raw_spec()
                        },
                        _ => out@.len() == 1 && out@[0]@ == m.raw_spec(),
                    }
                },
            },
    {
        let mut out: Vec<Vec<u8>> = Vec::new();
        let c = match ChannelMessage::from_raw_message(message) {
            None => {
                return out;
            },
            Some(c) => c,
        };
        proof {
            assert(c.channel < 16) by {
                assert(message@[0] % 16 < 16);
            }
        }
        let (m, dev) = transform(&self.mapping, self.concert_pitch, c);
        match dev {
            None => {
                if c.message_type.get_key().is_some() && !self.forward_unmapped {
                    return out;
                }
                out.push(m.to_raw_message());
            },
            Some(d) => {
                if let ChannelMessageType::NoteOn { .. } = m.message_type {
                    proof {
                        crate::ratio::lemma_round_div_bounded(
                            d.units * 8192,
                            UNITS_PER_SEMITONE as int,
                        );
                    }
                    let v = PITCH_BEND_CENTER + div_round(d.units * 8192, UNITS_PER_SEMITONE);
                    if v < 0 || v > PITCH_BEND_MAX {
                        return out;
                    }
                    let bend = ChannelMessage {
                        channel: c.channel,
                        message_type: ChannelMessageType::PitchBendChange { value: v as u32 },
                    };
                    out.push(bend.to_raw_message());
                }
                out.push(m.to_raw_message());
            },
        }
        out
    }
}

} // verus!
