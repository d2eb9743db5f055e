use microtune::midi::{note_off, note_on, ChannelMessage, ChannelMessageType};

#[test]
fn parse_note_off() {
    let message = ChannelMessage::from_raw_message(&[0b1000_0111, 88, 99]).unwrap();
    assert!(matches!(
        message,
        ChannelMessage {
            channel: 7,
            message_type: ChannelMessageType::NoteOff {
                key: 88,
                velocity: 99
            }
        }
    ));
}

#[test]
fn parse_note_on() {
    let message = ChannelMessage::from_raw_message(&[0b1001_1000, 77, 88]).unwrap();
    assert!(matches!(
        message,
        ChannelMessage {
            channel: 8,
            message_type: ChannelMessageType::NoteOn {
                key: 77,
                velocity: 88
            }
        }
    ));
}

#[test]
fn parse_polyphonic_key_pressure() {
    let message = ChannelMessage::from_raw_message(&[0b1010_1001, 66, 77]).unwrap();
    assert!(matches!(
        message,
        ChannelMessage {
            channel: 9,
            message_type: ChannelMessageType::PolyphonicKeyPressure {
                key: 66,
                pressure: 77
            }
        }
    ));
}

#[test]
fn parse_control_change() {
    let message = ChannelMessage::from_raw_message(&[0b1011_1010, 55, 66]).unwrap();
    assert!(matches!(
        message,
        ChannelMessage {
            channel: 10,
            message_type: ChannelMessageType::ControlChange {
                controller: 55,
                value: 66
            }
        }
    ));
}

#[test]
fn parse_program_change() {
    let message = ChannelMessage::from_raw_message(&[0b1100_1011, 44]).unwrap();
    assert!(matches!(
        message,
        ChannelMessage {
            channel: 11,
            message_type: ChannelMessageType::ProgramChange { program: 44 }
        }
    ));
}

#[test]
fn parse_channel_pressure() {
    let message = ChannelMessage::from_raw_message(&[0b1101_1100, 33]).unwrap();
    assert!(matches!(
        message,
        ChannelMessage {
            channel: 12,
            message_type: ChannelMessageType::ChannelPressure { pressure: 33 }
        }
    ));
}

#[test]
fn parse_pitch_bend_change() {
    let message = ChannelMessage::from_raw_message(&[0b1110_1101, 22, 33]).unwrap();
    assert!(matches!(
        message,
        ChannelMessage {
            channel: 13,
            message_type: ChannelMessageType::PitchBendChange { value: 4246 }
        }
    ));
}

#[test]
fn pitch_bend_on_channel_one() {
    let message = ChannelMessage::from_raw_message(&[0xE1, 22, 33]).unwrap();
    assert_eq!(message.channel, 1);
    assert_eq!(
        message.message_type,
        ChannelMessageType::PitchBendChange { value: 4246 }
    );
}

#[test]
fn unsupported_or_short_packets_yield_nothing() {
    assert!(ChannelMessage::from_raw_message(&[]).is_none());
    assert!(ChannelMessage::from_raw_message(&[0xF0, 1, 2]).is_none());
    assert!(ChannelMessage::from_raw_message(&[0x71, 1, 2]).is_none());
    assert!(ChannelMessage::from_raw_message(&[0x90, 60]).is_none());
    assert!(ChannelMessage::from_raw_message(&[0xC0]).is_none());
}

#[test]
fn data_bytes_of_0x80_or_more_are_malformed() {
    assert!(ChannelMessage::from_raw_message(&[0x90, 200, 5]).is_none());
    assert!(ChannelMessage::from_raw_message(&[0x90, 60, 128]).is_none());
    assert!(ChannelMessage::from_raw_message(&[0xE0, 0, 255]).is_none());
    assert!(ChannelMessage::from_raw_message(&[0xC0, 0x80]).is_none());
    // A status byte where a data byte should be is malformed too.
    assert!(ChannelMessage::from_raw_message(&[0xB0, 0xF8, 1]).is_none());
}

#[test]
fn parse_then_encode_round_trips() {
    let packets: Vec<Vec<u8>> = vec![
        vec![0x87, 88, 99],
        vec![0x90, 0, 127],
        vec![0xA3, 66, 77],
        vec![0xBF, 64, 0],
        vec![0xC5, 44],
        vec![0xDC, 33],
        vec![0xE1, 22, 33],
        vec![0xEF, 127, 127],
    ];
    for packet in packets {
        let message = ChannelMessage::from_raw_message(&packet).unwrap();
        assert_eq!(message.to_raw_message(), packet);
    }
}

#[test]
fn note_on_and_off_bytes() {
    assert_eq!(note_on(0, 60, 100), [0x90, 60, 100]);
    assert_eq!(note_off(15, 61, 0), [0x8F, 61, 0]);
}

#[test]
fn in_channel_rejects_channel_sixteen() {
    let t = ChannelMessageType::NoteOn { key: 60, velocity: 1 };
    assert!(t.in_channel(16).is_none());
    assert_eq!(t.in_channel(3).unwrap().to_raw_message(), vec![0x93, 60, 1]);
}
