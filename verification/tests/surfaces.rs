use arpad_rust::midi::text;
use arpad_rust::midi::v1m::{
    self, Color, DownstreamMsg, LEDState, TopScribbleStripLine1TextMsg, TopScribbleStripMsg, V1mAction,
    V1mSurface,
};
use arpad_rust::midi::xtouch::{self, XTouchAction, XTouchSurface};
use arpad_rust::modes::mode_manager::Barrier;

fn main_bytes(a: V1mAction) -> Vec<Vec<u8>> {
    match a {
        V1mAction::Main(v) => v,
        other => panic!("expected bytes for the main port, got {:?}", other),
    }
}

#[test]
fn v1m_leds_and_rings_are_short_messages() {
    let mut s = V1mSurface::new(8);
    let out = main_bytes(s.handle(DownstreamMsg::MuteLED(v1m::MuteLEDMsg { idx: 2, state: LEDState::On })));
    assert_eq!(out, vec![vec![0x90, 18, 127]]);
    let out = main_bytes(s.handle(DownstreamMsg::SelectLED(v1m::SelectLEDMsg { idx: 7, state: LEDState::Flash })));
    assert_eq!(out, vec![vec![0x90, 31, 1]]);
    let out = main_bytes(s.handle(DownstreamMsg::EncoderRingLED(v1m::EncoderRingMsg {
        idx: 1,
        mode: v1m::EncoderRingMode::FromLeft,
        val: 0x1b,
    })));
    // Mode in bits 4-5, position in the low nibble.
    assert_eq!(out, vec![vec![0xB0, 0x31, 0x2b]]);
}

#[test]
fn v1m_top_scribble_text_is_sent_whole() {
    let mut s = V1mSurface::new(2);
    let out = main_bytes(s.handle(DownstreamMsg::TopScribbleStripLine1Text(TopScribbleStripLine1TextMsg {
        idx: 1,
        text: "Lead Vox".to_string(),
    })));
    assert_eq!(out.len(), 2);
    let mut want = vec![0xf0, 0x00, 0x00, 0x66, 0x14, 0x12, 0x00];
    // Lower lines first, then upper lines, seven bytes each.
    want.extend_from_slice(&[32; 7]);
    want.extend_from_slice(&[32; 7]);
    want.extend_from_slice(&[32; 7]);
    want.extend_from_slice(&text::compact_to_7_bytes("Lead Vox"));
    want.push(0xf7);
    assert_eq!(out[0], want);
    // All strips start black.
    assert_eq!(out[1], vec![0xf0, 0x00, 0x02, 0x4e, 0x16, 0x14, 0, 0, 0, 0, 0, 0, 0xf7]);
}

#[test]
fn v1m_colors_are_shown_at_a_fifth() {
    let mut s = V1mSurface::new(1);
    let out = main_bytes(s.handle(DownstreamMsg::TopScribbleStripBatch(vec![TopScribbleStripMsg::BackgroundColor(
        v1m::TopScribbleStripColorMsg { idx: 0, color: Color { r: 255, g: 12, b: 13 } },
    )])));
    assert_eq!(out[1], vec![0xf0, 0x00, 0x02, 0x4e, 0x16, 0x14, 51, 2, 3, 0xf7]);
}

#[test]
fn v1m_passes_floats_and_barriers_through() {
    let mut s = V1mSurface::new(8);
    match s.handle(DownstreamMsg::ChannelFader(v1m::ChannelFaderMsg { idx: 3, value: 0.5f64.to_bits() })) {
        V1mAction::ChannelFader { idx: 3, value_bits } => assert_eq!(f64::from_bits(value_bits), 0.5),
        other => panic!("unexpected {:?}", other),
    }
    let mut counter = 0u64;
    let b = Barrier::new(&mut counter);
    match s.handle(DownstreamMsg::Barrier(b)) {
        V1mAction::ReflectBarrier(x) => assert_eq!(x, b),
        other => panic!("unexpected {:?}", other),
    }
    match s.handle(DownstreamMsg::Global(LEDState::On)) {
        V1mAction::Unhandled => {}
        other => panic!("unexpected {:?}", other),
    }
}

#[test]
fn v1m_seven_segment_shows_fixed_codes() {
    let mut s = V1mSurface::new(8);
    let out = main_bytes(s.handle(DownstreamMsg::SevenSegmentDisplay(v1m::SevenSegmentDisplayMsg {
        text: "anything".to_string(),
    })));
    assert_eq!(out.len(), 7);
    assert_eq!(out[0], vec![0xB0, 0x49, 0x3d]);
    assert_eq!(out[6], vec![0xB0, 0x43, 0x43]);
}

#[test]
fn xtouch_scribbles_and_leds() {
    let mut s = XTouchSurface::new(8);
    match s.handle(xtouch::DownstreamMsg::ArmLED(xtouch::ArmLEDMsg { idx: 5, state: xtouch::LEDState::On })) {
        XTouchAction::Send(v) => assert_eq!(v, vec![vec![0x90, 5, 127]]),
        other => panic!("unexpected {:?}", other),
    }
    match s.handle(xtouch::DownstreamMsg::ScribbleStripLine2Text(xtouch::ScribbleStripLine2TextMsg {
        idx: 0,
        text: "hi".to_string(),
    })) {
        XTouchAction::Send(v) => {
            assert_eq!(v.len(), 2);
            assert_eq!(&v[0][..7], &[0xf0, 0x00, 0x00, 0x66, 0x14, 0x12, 0x00]);
            // Upper lines of the eight strips, then the lower lines: strip 0's lower line
            // starts at byte 7 + 56.
            assert_eq!(&v[0][63..70], b"hi\0\0\0\0\0");
            assert_eq!(v[0].len(), 7 + 16 * 7 + 1);
            let mut colors = vec![0xf0, 0x00, 0x00, 0x66, 0x14, 0x72];
            colors.extend_from_slice(&[0x4b; 8]);
            colors.push(0xf7);
            assert_eq!(v[1], colors);
        }
        other => panic!("unexpected {:?}", other),
    }
    match s.handle(xtouch::DownstreamMsg::FaderAbs(xtouch::FaderAbsMsg { idx: 1, value: 1.0f64.to_bits() })) {
        XTouchAction::Fader { idx: 1, value_bits } => assert_eq!(f64::from_bits(value_bits), 1.0),
        other => panic!("unexpected {:?}", other),
    }
}
