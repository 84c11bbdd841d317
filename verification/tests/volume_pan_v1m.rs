use arpad_rust::midi::v1m::{
    ChannelFaderMsg, DownstreamMsg, EncoderTurnCCW, EncoderTurnCW, LEDState, MutePress, SelectPress, UpstreamMsg,
};
use arpad_rust::midi::xtouch;
use arpad_rust::modes::guid::TrackGuid;
use arpad_rust::modes::mode_manager::{ModeAction, TransitionRequest};
use arpad_rust::modes::reaper_faders_buttons_core::CoreEffect;
use arpad_rust::modes::reaper_volume_pan_mode::{v1m_of_core_msg, ReaperVolumePanMode, VolPanEffect};
use arpad_rust::modes::track_data::DataMsg;

const G: TrackGuid = TrackGuid { bits: 41 };

fn placed_mode() -> ReaperVolumePanMode {
    let mut mode = ReaperVolumePanMode::new(8, None);
    // Position 3 is channel 2.
    let (action, effects) = mode.handle_msg_from_upstream(DataMsg::ReaperTrackIndex { track_guid: G, track_index: Some(3) });
    assert_eq!(action, ModeAction::NoAction);
    // The core redraws the channel, then the ring shows the centre pan.
    assert_eq!(effects.len(), 6);
    assert!(matches!(&effects[4], VolPanEffect::Core(CoreEffect::TrackPlaced(e)) if e.hw_channel == 2));
    assert!(matches!(&effects[5], VolPanEffect::RingToPan { idx: 2, pan: 0 }));
    mode
}

#[test]
fn v1m_volume_pan_follows_the_daw() {
    let mut mode = placed_mode();
    assert_eq!(mode.find_hw_channel(G), Some(2));
    let (_, effects) = mode.handle_msg_from_upstream(DataMsg::Name { track_guid: G, name: "Kick".to_string() });
    assert!(matches!(&effects[0], VolPanEffect::Surface(DownstreamMsg::TopScribbleStripLine1Text(m)) if m.idx == 2 && m.text == "Kick"));
    assert!(matches!(&effects[1], VolPanEffect::Surface(DownstreamMsg::BottomScribbleStripLine2Text(m)) if m.idx == 2 && m.text == "Kick"));
    let pan = (-0.5f32).to_bits();
    let (_, effects) = mode.handle_msg_from_upstream(DataMsg::Pan { track_guid: G, pan });
    assert!(matches!(&effects[0], VolPanEffect::RingToPan { idx: 2, pan: p } if *p == pan));
    assert_eq!(mode.pan(G), pan);
    let (_, effects) = mode.handle_msg_from_upstream(DataMsg::Selected { track_guid: G, selected: true });
    assert!(matches!(&effects[0], VolPanEffect::Surface(DownstreamMsg::SelectLED(m)) if m.idx == 2 && m.state == LEDState::On));
    // With a track selected, the view buttons open its sends and its channel strip.
    assert_eq!(
        mode.handle_msg_from_downstream(UpstreamMsg::MIDITracksPress).0,
        ModeAction::Transition(TransitionRequest::ToReaperSends { selected_track_guid: G })
    );
    assert_eq!(
        mode.handle_msg_from_downstream(UpstreamMsg::InputsPress).0,
        ModeAction::Transition(TransitionRequest::ToReaperChannelStrip { selected_track_guid: G })
    );
    assert_eq!(mode.handle_msg_from_downstream(UpstreamMsg::GlobalPress).0, ModeAction::NoAction);
    // A report on an unplaced track changes nothing on the surface.
    let (_, effects) = mode.handle_msg_from_upstream(DataMsg::Name { track_guid: TrackGuid { bits: 1 }, name: "x".to_string() });
    assert!(effects.is_empty());
}

#[test]
fn v1m_volume_pan_surface_controls() {
    let mut mode = placed_mode();
    // Nothing selected yet: the view buttons ask for nothing.
    assert_eq!(mode.handle_msg_from_downstream(UpstreamMsg::MIDITracksPress).0, ModeAction::NoAction);
    let (_, effects) = mode.handle_msg_from_downstream(UpstreamMsg::SelectPress(SelectPress { idx: 2 }));
    assert!(matches!(&effects[0], VolPanEffect::Surface(DownstreamMsg::SelectLED(m)) if m.idx == 2 && m.state == LEDState::On));
    assert!(matches!(&effects[1], VolPanEffect::SelectTrack(g) if *g == G));
    // An empty channel lights its button and selects no track.
    let (_, effects) = mode.handle_msg_from_downstream(UpstreamMsg::SelectPress(SelectPress { idx: 5 }));
    assert_eq!(effects.len(), 1);
    assert_eq!(mode.handle_msg_from_downstream(UpstreamMsg::InputsPress).0, ModeAction::NoAction);
    // Encoders hand the track's pan to be stepped.
    let (_, effects) = mode.handle_msg_from_downstream(UpstreamMsg::EncoderTurnInc(EncoderTurnCW { idx: 2, accel: 3 }));
    assert!(matches!(&effects[0], VolPanEffect::PanTurn { track_guid, idx: 2, pan: 0, up: true, accel: 3 } if *track_guid == G));
    mode.store_pan(G, 0.25f32.to_bits());
    let (_, effects) = mode.handle_msg_from_downstream(UpstreamMsg::EncoderTurnDec(EncoderTurnCCW { idx: 2, accel: 1 }));
    assert!(matches!(&effects[0], VolPanEffect::PanTurn { pan, up: false, .. } if *pan == 0.25f32.to_bits()));
    assert!(mode.handle_msg_from_downstream(UpstreamMsg::EncoderTurnInc(EncoderTurnCW { idx: 6, accel: 1 })).1.is_empty());
    // Fader moves and button presses go to the core.
    let pos = 0.75f64.to_bits();
    let (_, effects) = mode.handle_msg_from_downstream(UpstreamMsg::ChannelFader(ChannelFaderMsg { idx: 2, value: pos }));
    assert!(matches!(&effects[0], VolPanEffect::Core(CoreEffect::VolumeFromFader { track_guid, position }) if *track_guid == G && *position == pos));
    let (_, effects) = mode.handle_msg_from_downstream(UpstreamMsg::MutePress(MutePress { idx: 2 }));
    assert!(matches!(&effects[0], VolPanEffect::Core(CoreEffect::SetMuted { muted: true, .. })));
    match effects.into_iter().nth(1) {
        Some(VolPanEffect::Core(CoreEffect::Surface(m))) => {
            assert!(matches!(v1m_of_core_msg(m), Some(DownstreamMsg::MuteLED(x)) if x.idx == 2 && x.state == LEDState::On));
        }
        other => panic!("unexpected {:?}", other),
    }
    assert!(matches!(
        v1m_of_core_msg(xtouch::DownstreamMsg::FaderAbs(xtouch::FaderAbsMsg { idx: 1, value: pos })),
        Some(DownstreamMsg::ChannelFader(m)) if m.idx == 1 && m.value == pos
    ));
}
