use arpad_rust::midi::v1m::{ChannelFaderMsg, DownstreamMsg, LEDState, SelectPress, UpstreamMsg};
use arpad_rust::modes::guid::TrackGuid;
use arpad_rust::modes::mode_manager::{ModeAction, TransitionRequest};
use arpad_rust::modes::reaper_track_sends_mode::{ReaperTrackSendsMode, SendsEffect};
use arpad_rust::modes::track_data::DataMsg;

const TRACK: TrackGuid = TrackGuid { bits: 1 };
const SEND_A: TrackGuid = TrackGuid { bits: 10 };
const SEND_B: TrackGuid = TrackGuid { bits: 11 };

fn mode() -> ReaperTrackSendsMode<8> {
    ReaperTrackSendsMode::<8>::new(TRACK)
}

#[test]
fn sends_mode_blanks_every_channel_on_start() {
    let mut out = Vec::<DownstreamMsg>::new();
    let _m = mode().init(&mut out);
    assert_eq!(out.len(), 80);
    assert!(matches!(out[0], DownstreamMsg::ChannelFader(ChannelFaderMsg { idx: 0, value: 0 })));
    assert!(matches!(&out[10 + 1], DownstreamMsg::MuteLED(m) if m.idx == 1 && m.state == LEDState::Off));
    assert!(matches!(&out[79], DownstreamMsg::BottomScribbleStripLine2Text(m) if m.idx == 7 && m.text.is_empty()));
}

#[test]
fn send_index_puts_send_on_its_channel() {
    let mut m = mode();
    let (action, effects) =
        m.handle_msg_from_upstream(DataMsg::SendIndex { track_guid: TRACK, send_guid: SEND_A, send_index: 2 });
    assert_eq!(action, ModeAction::NoAction);
    assert_eq!(effects.len(), 2);
    assert!(matches!(effects[0], SendsEffect::FaderToLevel { idx: 2, level: 0 }));
    assert!(matches!(effects[1], SendsEffect::RingToPan { idx: 2, pan: 0 }));
    assert_eq!(m.find_hw_channel(SEND_A), Some(2));
    assert_eq!(m.find_hw_channel(SEND_B), None);

    // The same index again changes nothing.
    let (_, effects) =
        m.handle_msg_from_upstream(DataMsg::SendIndex { track_guid: TRACK, send_guid: SEND_A, send_index: 2 });
    assert!(effects.is_empty());
}

#[test]
fn send_index_moves_a_send_and_blanks_its_old_channel() {
    let mut m = mode();
    m.handle_msg_from_upstream(DataMsg::SendIndex { track_guid: TRACK, send_guid: SEND_A, send_index: 2 });
    let level = 0.25f32.to_bits();
    m.handle_msg_from_upstream(DataMsg::SendLevel { track_guid: TRACK, send_index: 2, level });
    let (_, effects) =
        m.handle_msg_from_upstream(DataMsg::SendIndex { track_guid: TRACK, send_guid: SEND_A, send_index: 5 });
    assert_eq!(effects.len(), 4);
    assert!(matches!(effects[0], SendsEffect::Surface(DownstreamMsg::ChannelFader(ChannelFaderMsg { idx: 2, value: 0 }))));
    assert!(matches!(&effects[1], SendsEffect::Surface(DownstreamMsg::EncoderRingLED(r)) if r.idx == 2 && r.val == 0x06));
    // The level reported before is remembered.
    assert!(matches!(effects[2], SendsEffect::FaderToLevel { idx: 5, level: l } if l == level));
    assert_eq!(m.find_hw_channel(SEND_A), Some(5));
}

#[test]
fn reports_for_other_tracks_are_ignored() {
    let mut m = mode();
    let other = TrackGuid { bits: 99 };
    let (_, effects) =
        m.handle_msg_from_upstream(DataMsg::SendIndex { track_guid: other, send_guid: SEND_A, send_index: 40 });
    assert!(effects.is_empty());
    let (_, effects) = m.handle_msg_from_upstream(DataMsg::SendLevel { track_guid: TRACK, send_index: -1, level: 7 });
    assert!(effects.is_empty());
    let (_, effects) = m.handle_msg_from_upstream(DataMsg::SendPan { track_guid: TRACK, send_index: 3, pan: 7 });
    assert!(effects.is_empty());
    // A send index past the channels is ignored, also for the selected track.
    for bad in [-1, 8, 40] {
        let (_, effects) =
            m.handle_msg_from_upstream(DataMsg::SendIndex { track_guid: TRACK, send_guid: SEND_A, send_index: bad });
        assert!(effects.is_empty());
    }
}

#[test]
fn names_and_selection_reach_the_surface() {
    let mut m = mode();
    m.handle_msg_from_upstream(DataMsg::SendIndex { track_guid: TRACK, send_guid: SEND_B, send_index: 4 });
    let (_, effects) = m.handle_msg_from_upstream(DataMsg::Name { track_guid: SEND_B, name: "Verb".to_string() });
    assert_eq!(effects.len(), 2);
    assert!(matches!(&effects[0], SendsEffect::Surface(DownstreamMsg::TopScribbleStripLine1Text(t)) if t.idx == 4 && t.text == "Verb"));
    assert!(matches!(&effects[1], SendsEffect::Surface(DownstreamMsg::BottomScribbleStripLine2Text(t)) if t.idx == 4 && t.text == "Verb"));

    // Selecting the track already selected does nothing; another one lights channel 0.
    let (_, effects) = m.handle_msg_from_upstream(DataMsg::Selected { track_guid: TRACK, selected: true });
    assert!(effects.is_empty());
    let new_track = TrackGuid { bits: 2 };
    let (_, effects) = m.handle_msg_from_upstream(DataMsg::Selected { track_guid: new_track, selected: true });
    assert!(matches!(&effects[0], SendsEffect::Surface(DownstreamMsg::SelectLED(s)) if s.idx == 0 && s.state == LEDState::On));
    // Now the sends of the new track are followed.
    let (_, effects) =
        m.handle_msg_from_upstream(DataMsg::SendIndex { track_guid: TRACK, send_guid: SEND_A, send_index: 1 });
    assert!(effects.is_empty());
}

#[test]
fn surface_presses_ask_for_modes_and_levels() {
    let mut m = mode();
    m.handle_msg_from_upstream(DataMsg::SendIndex { track_guid: TRACK, send_guid: SEND_A, send_index: 3 });

    let (action, effects) = m.handle_msg_from_downstream(UpstreamMsg::GlobalPress);
    assert_eq!(action, ModeAction::Transition(TransitionRequest::ToReaperVolumePan { selected_track_guid: Some(TRACK) }));
    assert!(effects.is_empty());
    let (action, _) = m.handle_msg_from_downstream(UpstreamMsg::InputsPress);
    assert_eq!(action, ModeAction::Transition(TransitionRequest::ToReaperChannelStrip { selected_track_guid: TRACK }));
    let (action, _) = m.handle_msg_from_downstream(UpstreamMsg::MIDITracksPress);
    assert_eq!(action, ModeAction::NoAction);

    let (action, effects) = m.handle_msg_from_downstream(UpstreamMsg::SelectPress(SelectPress { idx: 3 }));
    assert_eq!(action, ModeAction::Transition(TransitionRequest::ToReaperSends { selected_track_guid: SEND_A }));
    assert!(matches!(effects[0], SendsEffect::SelectTrack(g) if g == SEND_A));
    let (action, effects) = m.handle_msg_from_downstream(UpstreamMsg::SelectPress(SelectPress { idx: 0 }));
    assert_eq!(action, ModeAction::NoAction);
    assert!(effects.is_empty());

    let position = 0.5f64.to_bits();
    let (_, effects) = m.handle_msg_from_downstream(UpstreamMsg::ChannelFader(ChannelFaderMsg { idx: 3, value: position }));
    assert!(matches!(effects[0], SendsEffect::SendLevelFromFader { track_guid, send_index: 3, position: p } if track_guid == TRACK && p == position));
    let (_, effects) = m.handle_msg_from_downstream(UpstreamMsg::ChannelFader(ChannelFaderMsg { idx: 6, value: position }));
    assert!(effects.is_empty());
}
