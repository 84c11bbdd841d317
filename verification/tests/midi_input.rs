use arpad_rust::midi::base::{read_message, ControlChange, NoteOff, NoteOn, PitchBend, ShortMessage};
use arpad_rust::midi::v1m;
use arpad_rust::midi::xtouch;

fn v1m_upstream(r: Result<Vec<v1m::V1mInput>, v1m::InputError>) -> Vec<v1m::UpstreamMsg> {
    r.unwrap()
        .into_iter()
        .map(|i| match i {
            v1m::V1mInput::Upstream(m) => m,
            other => panic!("expected an upstream message, got {:?}", other),
        })
        .collect()
}

#[test]
fn short_messages_are_built_with_status_and_data() {
    assert_eq!(NoteOn { channel: 0, key_number: 16 }.message(127), [0x90, 16, 127]);
    assert_eq!(NoteOff { channel: 2, key_number: 0x20 }.message(0), [0x82, 0x20, 0]);
    assert_eq!(ControlChange { channel: 0, controller_number: 0x30 }.message(0x16), [0xB0, 0x30, 0x16]);
    // 14-bit values: low seven bits first.
    assert_eq!(PitchBend { channel: 3 }.message(16383), [0xE3, 0x7f, 0x7f]);
    assert_eq!(PitchBend { channel: 8 }.message(200), [0xE8, 200 % 128, 1]);
}

#[test]
fn short_messages_read_back() {
    assert_eq!(read_message(0x91, 60, 100), Some(ShortMessage::NoteOn(1, 60, 100)));
    assert_eq!(read_message(0x80, 60, 0), Some(ShortMessage::NoteOff(0, 60, 0)));
    assert_eq!(read_message(0xB5, 7, 64), Some(ShortMessage::ControlChange(5, 7, 64)));
    assert_eq!(read_message(0xE2, 0x7f, 0x7f), Some(ShortMessage::PitchBend(2, 16383)));
    assert_eq!(read_message(0xC0, 1, 0), Some(ShortMessage::Other));
    assert_eq!(read_message(0x40, 1, 0), None);
}

#[test]
fn v1m_fader_moves_are_read_as_raw_positions() {
    match v1m::decode_input(8, 0xE3, 0x7f, 0x7f).unwrap().as_slice() {
        [v1m::V1mInput::Fader { idx: 3, value: 16383 }] => {}
        other => panic!("unexpected {:?}", other),
    }
    match v1m::decode_input(8, 0xE8, 0, 64).unwrap().as_slice() {
        [v1m::V1mInput::MasterFader { value: 8192 }] => {}
        other => panic!("unexpected {:?}", other),
    }
    // Channels beyond the strips and the master are ignored.
    assert!(v1m::decode_input(8, 0xE9, 0, 64).unwrap().is_empty());
}

#[test]
fn v1m_encoder_turns_carry_acceleration() {
    match v1m_upstream(v1m::decode_input(8, 0xB0, 0x12, 3)).as_slice() {
        [v1m::UpstreamMsg::EncoderTurnInc(v1m::EncoderTurnCW { idx: 2, accel: 3 })] => {}
        other => panic!("unexpected {:?}", other),
    }
    match v1m_upstream(v1m::decode_input(8, 0xB0, 0x17, 66)).as_slice() {
        [v1m::UpstreamMsg::EncoderTurnDec(v1m::EncoderTurnCCW { idx: 7, accel: 2 })] => {}
        other => panic!("unexpected {:?}", other),
    }
    // Values outside both speed ranges are dropped.
    assert!(v1m::decode_input(8, 0xB0, 0x10, 9).unwrap().is_empty());
}

#[test]
fn v1m_buttons_press_and_release() {
    match v1m_upstream(v1m::decode_input(8, 0x90, 16 + 4, 127)).as_slice() {
        [v1m::UpstreamMsg::MutePress(v1m::MutePress { idx: 4 })] => {}
        other => panic!("unexpected {:?}", other),
    }
    match v1m_upstream(v1m::decode_input(8, 0x90, 24 + 1, 0)).as_slice() {
        [v1m::UpstreamMsg::SelectRelease(v1m::SelectRelease { idx: 1 })] => {}
        other => panic!("unexpected {:?}", other),
    }
    // The global view button reads velocity 0 as the press.
    match v1m_upstream(v1m::decode_input(8, 0x90, 51, 0)).as_slice() {
        [v1m::UpstreamMsg::GlobalPress] => {}
        other => panic!("unexpected {:?}", other),
    }
    match v1m_upstream(v1m::decode_input(8, 0x90, 0x20 + 5, 127)).as_slice() {
        [v1m::UpstreamMsg::EncoderPress(v1m::EncoderPressMsg { idx: 5 })] => {}
        other => panic!("unexpected {:?}", other),
    }
    match v1m_upstream(v1m::decode_input(8, 0x80, 0x20 + 5, 0)).as_slice() {
        [v1m::UpstreamMsg::EncoderRelease(v1m::EncoderReleaseMsg { idx: 5 })] => {}
        other => panic!("unexpected {:?}", other),
    }
}

#[test]
fn v1m_input_errors() {
    assert_eq!(v1m::decode_input(8, 0x10, 0, 0).unwrap_err(), v1m::InputError::InvalidStatus);
    assert_eq!(v1m::decode_input(8, 0x90, 16, 64).unwrap_err(), v1m::InputError::UnexpectedVelocity(64));
}

#[test]
fn xtouch_input_reads_like_the_surface() {
    match xtouch::decode_input(8, 0xE1, 0, 64).unwrap().as_slice() {
        [xtouch::XTouchInput::Fader { idx: 1, value: 8192 }] => {}
        other => panic!("unexpected {:?}", other),
    }
    // The X-Touch has no master fader on channel 8.
    assert!(xtouch::decode_input(8, 0xE8, 0, 64).unwrap().is_empty());
    match xtouch::decode_input(8, 0xB0, 0x13, 1).unwrap().as_slice() {
        [xtouch::XTouchInput::Upstream(xtouch::UpstreamMsg::EncoderTurnInc(xtouch::EncoderTurnCW { idx: 3 }))] => {}
        other => panic!("unexpected {:?}", other),
    }
    match xtouch::decode_input(8, 0xB0, 0x13, 65).unwrap().as_slice() {
        [xtouch::XTouchInput::Upstream(xtouch::UpstreamMsg::EncoderTurnDec(xtouch::EncoderTurnCCW { idx: 3 }))] => {}
        other => panic!("unexpected {:?}", other),
    }
    match xtouch::decode_input(8, 0x90, 8 + 2, 127).unwrap().as_slice() {
        [xtouch::XTouchInput::Upstream(xtouch::UpstreamMsg::SoloPress(xtouch::SoloPress { idx: 2 }))] => {}
        other => panic!("unexpected {:?}", other),
    }
    match xtouch::decode_input(8, 0x90, 62, 127).unwrap().as_slice() {
        [xtouch::XTouchInput::Upstream(xtouch::UpstreamMsg::MIDITracksRelease)] => {}
        other => panic!("unexpected {:?}", other),
    }
}

#[test]
fn xtouch_input_errors() {
    assert_eq!(xtouch::decode_input(8, 0x00, 0, 0).unwrap_err(), xtouch::InputError::InvalidStatus);
    assert_eq!(xtouch::decode_input(8, 0xB0, 0x10, 2).unwrap_err(), xtouch::InputError::UnexpectedTurn(2));
    assert_eq!(xtouch::decode_input(8, 0x90, 3, 5).unwrap_err(), xtouch::InputError::UnexpectedVelocity(5));
}
