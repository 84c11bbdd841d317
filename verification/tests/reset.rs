use arpad_rust::midi::v1m::{DownstreamMsg, LEDState, TopScribbleStripMsg};
use arpad_rust::modes::mode_manager::IoCoalescing;
use arpad_rust::modes::reset::reset_hardware;

#[test]
fn reset_blanks_every_strip_in_order() {
    let mut out = Vec::<DownstreamMsg>::new();
    reset_hardware(&mut out, 8);
    // Eleven messages per strip.
    assert_eq!(out.len(), 88);
    match &out[0] {
        DownstreamMsg::ChannelFader(m) => assert_eq!((m.idx, m.value), (0, 0)),
        other => panic!("unexpected {:?}", other),
    }
    match &out[11 + 2] {
        DownstreamMsg::MuteLED(m) => assert_eq!((m.idx, m.state), (1, LEDState::Off)),
        other => panic!("unexpected {:?}", other),
    }
    match &out[7 * 11 + 5] {
        DownstreamMsg::EncoderRingLED(m) => assert_eq!((m.idx, m.val), (7, 0x06)),
        other => panic!("unexpected {:?}", other),
    }
    match &out[87] {
        DownstreamMsg::BottomScribbleStripLine2Text(m) => assert_eq!((m.idx, m.text.as_str()), (7, "")),
        other => panic!("unexpected {:?}", other),
    }
}

#[test]
fn coalesced_reset_flushes_strip_messages_as_batches() {
    let mut io = IoCoalescing::new();
    reset_hardware(&mut io, 2);
    let mut out = Vec::<DownstreamMsg>::new();
    io.flush_into(&mut out);
    // Six plain messages per strip, then one batch for each scribble strip row.
    assert_eq!(out.len(), 14);
    match &out[6] {
        DownstreamMsg::ChannelFader(m) => assert_eq!(m.idx, 1),
        other => panic!("unexpected {:?}", other),
    }
    match &out[12] {
        DownstreamMsg::TopScribbleStripBatch(v) => {
            assert_eq!(v.len(), 6);
            match &v[5] {
                TopScribbleStripMsg::BackgroundColor(c) => assert_eq!(c.idx, 1),
                other => panic!("unexpected {:?}", other),
            }
        }
        other => panic!("unexpected {:?}", other),
    }
    match &out[13] {
        DownstreamMsg::BottomScribbleStripBatch(v) => assert_eq!(v.len(), 4),
        other => panic!("unexpected {:?}", other),
    }
}

#[test]
fn coalescing_output_keeps_latest_per_address() {
    let mut io = IoCoalescing::new();
    reset_hardware(&mut io, 1);
    reset_hardware(&mut io, 1);
    let mut out = Vec::<DownstreamMsg>::new();
    io.flush_into(&mut out);
    // Six plain messages and two batches; the second reset replaced the first.
    assert_eq!(out.len(), 8);
    // A second flush sends nothing.
    let mut again = Vec::<DownstreamMsg>::new();
    io.flush_into(&mut again);
    assert!(again.is_empty());
}
