use vstd::prelude::*;

verus! {

/// Status nibbles of the channel voice messages.
pub const NOTE_OFF: u8 = 0b1000;
pub const NOTE_ON: u8 = 0b1001;
pub const POLYPHONIC_KEY_PRESSURE: u8 = 0b1010;
pub const CONTROL_CHANGE: u8 = 0b1011;
pub const PROGRAM_CHANGE: u8 = 0b1100;
pub const CHANNEL_PRESSURE: u8 = 0b1101;
pub const PITCH_BEND_CHANGE: u8 = 0b1110;

/// A decoded channel voice message: a channel number and the event it carries.
#[derive(Clone, Copy, Debug, PartialEq, Eq, Structural)]
pub struct ChannelMessage {
    pub channel: u8,
    pub message_type: ChannelMessageType,
}

#[derive(Clone, Copy, Debug, PartialEq, Eq, Structural)]
pub enum ChannelMessageType {
    NoteOff { key: u8, velocity: u8 },
    NoteOn { key: u8, velocity: u8 },
    PolyphonicKeyPressure { key: u8, pressure: u8 },
    ControlChange { controller: u8, value: u8 },
    ProgramChange { program: u8 },
    ChannelPressure { pressure: u8 },
    PitchBendChange { value: u32 },
}

/// The message that a raw byte packet stands for, if any: the high nibble of the
/// status byte selects the kind, the low nibble is the channel, and the data bytes
/// follow. A data byte of 0x80 or more makes the packet malformed (no message);
/// bytes past the ones a kind needs are ignored.
pub open spec fn parse_spec(m: Seq<u8>) -> Option<ChannelMessage> {
    if m.len() == 0 {
        None
    } else {
        let channel = (m[0] % 16) as u8;
        let action = m[0] / 16;
        let body: Option<ChannelMessageType> =
            if action == NOTE_OFF && m.len() >= 3 && m[1] < 128 && m[2] < 128 {
                Some(ChannelMessageType::NoteOff { key: m[1], velocity: m[2] })
            } else if action == NOTE_ON && m.len() >= 3 && m[1] < 128 && m[2] < 128 {
                Some(ChannelMessageType::NoteOn { key: m[1], velocity: m[2] })
            } else if action == POLYPHONIC_KEY_PRESSURE && m.len() >= 3 && m[1] < 128 && m[2] < 128 {
                Some(ChannelMessageType::PolyphonicKeyPressure { key: m[1], pressure: m[2] })
            } else if action == CONTROL_CHANGE && m.len() >= 3 && m[1] < 128 && m[2] < 128 {
                Some(ChannelMessageType::ControlChange { controller: m[1], value: m[2] })
            } else if action == PROGRAM_CHANGE && m.len() >= 2 && m[1] < 128 {
                Some(ChannelMessageType::ProgramChange { program: m[1] })
            } else if action == CHANNEL_PRESSURE && m.len() >= 2 && m[1] < 128 {
                Some(ChannelMessageType::ChannelPressure { pressure: m[1] })
            } else if action == PITCH_BEND_CHANGE && m.len() >= 3 && m[1] < 128 && m[2] < 128 {
                Some(ChannelMessageType::PitchBendChange { value: (m[1] + m[2] * 128) as u32 })
            } else {
                None
            };
        match body {
            Some(t) => Some(ChannelMessage { channel, message_type: t }),
            None => None,
        }
    }
}

/// The status nibble of a message kind.
pub open spec fn action_of(t: ChannelMessageType) -> u8 {
    match t {
        ChannelMessageType::NoteOff { .. } => NOTE_OFF,
        ChannelMessageType::NoteOn { .. } => NOTE_ON,
        ChannelMessageType::PolyphonicKeyPressure { .. } => POLYPHONIC_KEY_PRESSURE,
        ChannelMessageType::ControlChange { .. } => CONTROL_CHANGE,
        ChannelMessageType::ProgramChange { .. } => PROGRAM_CHANGE,
        ChannelMessageType::ChannelPressure { .. } => CHANNEL_PRESSURE,
        ChannelMessageType::PitchBendChange { .. } => PITCH_BEND_CHANGE,
    }
}

/// The number of bytes a message of the kind with status nibble `action` takes.
pub open spec fn raw_len(action: int) -> int {
    if action == PROGRAM_CHANGE || action == CHANNEL_PRESSURE {
        2
    } else {
        3
    }
}

/// Every field fits the wire format: data values below 128, a 14-bit pitch bend.
pub open spec fn type_valid(t: ChannelMessageType) -> bool {
    match t {
        ChannelMessageType::NoteOff { key, velocity } => key < 128 && velocity < 128,
        ChannelMessageType::NoteOn { key, velocity } => key < 128 && velocity < 128,
        ChannelMessageType::PolyphonicKeyPressure { key, pressure } => key < 128 && pressure < 128,
        ChannelMessageType::ControlChange { controller, value } => controller < 128 && value < 128,
        ChannelMessageType::ProgramChange { program } => program < 128,
        ChannelMessageType::ChannelPressure { pressure } => pressure < 128,
        ChannelMessageType::PitchBendChange { value } => value < 16384,
    }
}

impl ChannelMessage {
    pub open spec fn valid(self) -> bool {
        self.channel < 16 && type_valid(self.message_type)
    }

    /// The bytes on the wire: status byte, then the data bytes in order.
    pub open spec fn raw_spec(self) -> Seq<u8> {
        let status = (action_of(self.message_type) * 16 + self.channel) as u8;
        match self.message_type {
            ChannelMessageType::NoteOff { key, velocity } => seq![status, key, velocity],
            ChannelMessageType::NoteOn { key, velocity } => seq![status, key, velocity],
            ChannelMessageType::PolyphonicKeyPressure { key, pressure } => seq![status, key, pressure],
            ChannelMessageType::ControlChange { controller, value } => seq![status, controller, value],
            ChannelMessageType::ProgramChange { program } => seq![status, program],
            ChannelMessageType::ChannelPressure { pressure } => seq![status, pressure],
            ChannelMessageType::PitchBendChange { value } => seq![
                status,
                (value % 128) as u8,
                (value / 128 % 256) as u8,
            ],
        }
    }

    pub fn from_raw_message(message: &[u8]) -> (r: Option<ChannelMessage>)
        ensures
            r == parse_spec(message@),
            r is Some ==> r->Some_0.valid(),
    {
        if message.len() == 0 {
            return None;
        }
        let status_byte = message[0];
        let channel = status_byte & 0b0000_1111;
        let action = status_byte >> 4u8;
        assert(status_byte & 0b0000_1111 == status_byte % 16 && status_byte >> 4u8 == status_byte
            / 16) by (bit_vector);
        let n = message.len();
        let message_type = if action == NOTE_OFF && n >= 3 && message[1] < 128 && message[2] < 128 {
            ChannelMessageType::NoteOff { key: message[1], velocity: message[2] }
        } else if action == NOTE_ON && n >= 3 && message[1] < 128 && message[2] < 128 {
            ChannelMessageType::NoteOn { key: message[1], velocity: message[2] }
        } else if action == POLYPHONIC_KEY_PRESSURE && n >= 3 && message[1] < 128 && message[2] < 128 {
            ChannelMessageType::PolyphonicKeyPressure { key: message[1], pressure: message[2] }
        } else if action == CONTROL_CHANGE && n >= 3 && message[1] < 128 && message[2] < 128 {
            ChannelMessageType::ControlChange { controller: message[1], value: message[2] }
        } else if action == PROGRAM_CHANGE && n >= 2 && message[1] < 128 {
            ChannelMessageType::ProgramChange { program: message[1] }
        } else if action == CHANNEL_PRESSURE && n >= 2 && message[1] < 128 {
            ChannelMessageType::ChannelPressure { pressure: message[1] }
        } else if action == PITCH_BEND_CHANGE && n >= 3 && message[1] < 128 && message[2] < 128 {
            ChannelMessageType::PitchBendChange {
                value: message[1] as u32 + message[2] as u32 * 128,
            }
        } else {
            return None;
        };
        Some(ChannelMessage { channel, message_type })
    }

    /// Encodes the message as its status byte followed by its data bytes.
    pub fn to_raw_message(&self) -> (r: Vec<u8>)
        requires
            self.channel < 16,
        ensures
            r@ == self.raw_spec(),
    {
        let status = channel_msg(self.message_type.action(), self.channel);
        match self.message_type {
            ChannelMessageType::NoteOff { key, velocity } => vec![status, key, velocity],
            ChannelMessageType::NoteOn { key, velocity } => vec![status, key, velocity],
            ChannelMessageType::PolyphonicKeyPressure { key, pressure } => vec![status, key, pressure],
            ChannelMessageType::ControlChange { controller, value } => vec![status, controller, value],
            ChannelMessageType::ProgramChange { program } => vec![status, program],
            ChannelMessageType::ChannelPressure { pressure } => vec![status, pressure],
            ChannelMessageType::PitchBendChange { value } => vec![
                status,
                (value % 128) as u8,
                (value / 128 % 256) as u8,
            ],
        }
    }

    pub fn channel(&self) -> (r: u8)
        ensures
            r == self.channel,
    {
        self.channel
    }

    pub fn message_type(&self) -> (r: ChannelMessageType)
        ensures
            r == self.message_type,
    {
        self.message_type
    }
}

impl ChannelMessageType {
    /// The status nibble of this kind of message.
    pub fn action(&self) -> (r: u8)
        ensures
            r == action_of(*self),
            8 <= r < 15,
    {
        match self {
            ChannelMessageType::NoteOff { .. } => NOTE_OFF,
            ChannelMessageType::NoteOn { .. } => NOTE_ON,
            ChannelMessageType::PolyphonicKeyPressure { .. } => POLYPHONIC_KEY_PRESSURE,
            ChannelMessageType::ControlChange { .. } => CONTROL_CHANGE,
            ChannelMessageType::ProgramChange { .. } => PROGRAM_CHANGE,
            ChannelMessageType::ChannelPressure { .. } => CHANNEL_PRESSURE,
            ChannelMessageType::PitchBendChange { .. } => PITCH_BEND_CHANGE,
        }
    }

    /// Puts the message on a channel; `None` for a channel number of 16 or more.
    pub fn in_channel(self, channel: u8) -> (r: Option<ChannelMessage>)
        ensures
            channel < 16 ==> r == Some(ChannelMessage { channel, message_type: self }),
            channel >= 16 ==> r.is_none(),
    {
        if channel < 16 {
            Some(ChannelMessage { channel, message_type: self })
        } else {
            None
        }
    }

    /// The key of a message that addresses one key.
    pub fn get_key(&self) -> (r: Option<u8>)
        ensures
            r == key_of(*self),
    {
        match *self {
            ChannelMessageType::NoteOff { key, .. } => Some(key),
            ChannelMessageType::NoteOn { key, .. } => Some(key),
            ChannelMessageType::PolyphonicKeyPressure { key, .. } => Some(key),
            _ => None,
        }
    }
}

pub open spec fn key_of(t: ChannelMessageType) -> Option<u8> {
    match t {
        ChannelMessageType::NoteOff { key, .. } => Some(key),
        ChannelMessageType::NoteOn { key, .. } => Some(key),
        ChannelMessageType::PolyphonicKeyPressure { key, .. } => Some(key),
        _ => None,
    }
}

/// A raw packet that is exactly one well-formed channel voice message.
pub open spec fn raw_valid(m: Seq<u8>) -> bool {
    &&& m.len() > 0
    &&& 0x80 <= m[0] < 0xF0
    &&& m.len() == raw_len((m[0] / 16) as int)
    &&& forall|i: int| 1 <= i < m.len() ==> m[i] < 128
}

/// Parsing a well-formed packet and encoding the result gives back the same bytes.
pub proof fn lemma_parse_then_encode(m: Seq<u8>)
    requires
        raw_valid(m),
    ensures
        parse_spec(m) is Some,
        parse_spec(m).unwrap().valid(),
        parse_spec(m).unwrap().raw_spec() =~= m,
{
    let s = m[0];
    assert((s / 16) * 16 + s % 16 == s);
    if m.len() == 3 {
        assert(m[1] < 128 && m[2] < 128);
        let v = m[1] + m[2] * 128;
        assert(v % 128 == m[1] && v / 128 == m[2]) by (nonlinear_arith)
            requires
                v == m[1] + m[2] * 128,
                0 <= m[1] < 128,
                0 <= m[2] < 128,
        ;
    } else {
        assert(m[1] < 128);
    }
}

/// Encoding a valid message and parsing the bytes gives back the same message.
pub proof fn lemma_encode_then_parse(c: ChannelMessage)
    requires
        c.valid(),
    ensures
        raw_valid(c.raw_spec()),
        parse_spec(c.raw_spec()) == Some(c),
{
    let m = c.raw_spec();
    let s = (action_of(c.message_type) * 16 + c.channel) as u8;
    assert(s / 16 == action_of(c.message_type) && s % 16 == c.channel);
    match c.message_type {
        ChannelMessageType::PitchBendChange { value } => {
            assert(value % 128 + (value / 128) * 128 == value);
            assert(value / 128 < 128);
        },
        _ => {},
    }
}

/// Builds a status byte from a four-bit message kind and a channel number.
pub fn channel_msg(prefix: u8, channel_nr: u8) -> (r: u8)
    requires
        prefix < 16,
        channel_nr < 16,
    ensures
        r == prefix * 16 + channel_nr,
{
    let r = (prefix << 4u8) | channel_nr;
    assert((prefix << 4u8) | channel_nr == prefix * 16 + channel_nr) by (bit_vector)
        requires
            prefix < 16,
            channel_nr < 16,
    ;
    r
}

/// The bytes of a note-off message.
pub fn note_off(channel: u8, note: u8, velocity: u8) -> (r: [u8; 3])
    requires
        channel < 16,
    ensures
        r@ == seq![(NOTE_OFF * 16 + channel) as u8, note, velocity],
        r@ == (ChannelMessage {
            channel,
            message_type: ChannelMessageType::NoteOff { key: note, velocity },
        }).raw_spec(),
{
    [channel_msg(NOTE_OFF, channel), note, velocity]
}

/// The bytes of a note-on message.
pub fn note_on(channel: u8, note: u8, velocity: u8) -> (r: [u8; 3])
    requires
        channel < 16,
    ensures
        r@ == seq![(NOTE_ON * 16 + channel) as u8, note, velocity],
        r@ == (ChannelMessage {
            channel,
            message_type: ChannelMessageType::NoteOn { key: note, velocity },
        }).raw_spec(),
{
    [channel_msg(NOTE_ON, channel), note, velocity]
}

} // verus!
