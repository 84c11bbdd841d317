use arpad_rust::midi::v1m::{EncoderPressMsg, EncoderTurnCCW, EncoderTurnCW, SelectPress};
use arpad_rust::modes::reaper_channel_strip_mode::{StripStep, WidgetInput};
use arpad_rust::modes::reaper_faders_buttons_core::VolumeFadersCore;
use arpad_rust::modes::widget::EncoderTurn;
use arpad_rust::midi::v1m::{DownstreamMsg, EncoderRingMode, EncoderRingMsg, TopScribbleStripMsg, UpstreamMsg};
use arpad_rust::modes::reaper_channel_strip_router::{ChannelStripMsg, ChannelStripRouter, FxAdapterKind};
use arpad_rust::modes::reaper_channel_strip_widgets::DownstreamOutcome;
use arpad_rust::modes::reaper_fx::rea_eq::FX_NAME;
use arpad_rust::modes::track_data::DataMsg;
use arpad_rust::modes::widget::Dirty;
use arpad_rust::modes::color::RgbColor;
use arpad_rust::modes::guid::TrackGuid;
use arpad_rust::modes::mode_manager::{ModeAction, TransitionRequest};
use arpad_rust::modes::reaper_channel_strip_mode::{ChannelStripMode, StripFace};

fn faces() -> Vec<StripFace> {
    (0..16)
        .map(|i| StripFace {
            line1: format!("W{}", i),
            line2: format!("v{}", i),
            color: RgbColor { red: i as u8, green: 0, blue: 255 },
        })
        .collect()
}

fn batch(msg: &DownstreamMsg) -> &Vec<TopScribbleStripMsg> {
    match msg {
        DownstreamMsg::TopScribbleStripBatch(v) => v,
        other => panic!("expected a batch, got {:?}", other),
    }
}

#[test]
fn first_tick_sends_lines_and_colors_then_nothing() {
    let mut mode = ChannelStripMode::new(8, 0, TrackGuid { bits: 1 });
    let faces = faces();
    let mut out = Vec::<DownstreamMsg>::new();
    assert_eq!(mode.on_tick(&faces, &mut out), ModeAction::NoAction);
    assert_eq!(out.len(), 3);
    // The window holds `num_channels` widgets from the offset.
    let lines1 = batch(&out[0]);
    assert_eq!(lines1.len(), 8);
    assert!(matches!(&lines1[7], TopScribbleStripMsg::Line1Text(m) if m.idx == 7 && m.text == "W7"));
    assert!(matches!(&batch(&out[1])[0], TopScribbleStripMsg::Line2Text(m) if m.idx == 0 && m.text == "v0"));
    assert!(matches!(&batch(&out[2])[3], TopScribbleStripMsg::BackgroundColor(m) if m.idx == 3 && m.color.r == 3 && m.color.b == 255));

    let mut again = Vec::<DownstreamMsg>::new();
    mode.on_tick(&faces, &mut again);
    assert!(again.is_empty());
}

#[test]
fn banking_moves_the_window_and_redraws() {
    let mut mode = ChannelStripMode::new(8, 0, TrackGuid { bits: 1 });
    let faces = faces();
    let mut out = Vec::<DownstreamMsg>::new();
    mode.on_tick(&faces, &mut out);

    // No bank to the left of the first.
    mode.bank_left8();
    let mut none = Vec::<DownstreamMsg>::new();
    mode.on_tick(&faces, &mut none);
    assert!(none.is_empty());

    mode.bank_right8();
    let mut out = Vec::<DownstreamMsg>::new();
    mode.on_tick(&faces, &mut out);
    assert_eq!(out.len(), 3);
    let lines1 = batch(&out[0]);
    assert_eq!(lines1.len(), 8);
    assert!(matches!(&lines1[0], TopScribbleStripMsg::Line1Text(m) if m.idx == 0 && m.text == "W8"));

    mode.bank_left8();
    let mut out = Vec::<DownstreamMsg>::new();
    mode.on_tick(&faces, &mut out);
    assert!(matches!(&batch(&out[0])[0], TopScribbleStripMsg::Line1Text(m) if m.text == "W0"));
}

#[test]
fn view_buttons_ask_for_other_modes() {
    let g = TrackGuid { bits: 5 };
    let mode = ChannelStripMode::new(8, 0, g);
    assert_eq!(
        mode.handle_mode_press(UpstreamMsg::GlobalPress),
        ModeAction::Transition(TransitionRequest::ToReaperVolumePan { selected_track_guid: Some(g) })
    );
    assert_eq!(
        mode.handle_mode_press(UpstreamMsg::MIDITracksPress),
        ModeAction::Transition(TransitionRequest::ToReaperSends { selected_track_guid: g })
    );
    assert_eq!(mode.handle_mode_press(UpstreamMsg::InputsPress), ModeAction::NoAction);
}

#[test]
fn widget_outcomes_reach_surface_and_plugins() {
    let track = TrackGuid { bits: 5 };
    let mut mode = ChannelStripMode::new(8, 8, track);
    let mut out = Vec::<DownstreamMsg>::new();
    mode.on_tick(&faces(), &mut out);

    let mut router = ChannelStripRouter::new(track);
    router.translate_message_from_upstream(DataMsg::FXName {
        track_guid: track,
        fx_guid: TrackGuid { bits: 50 },
        fx_index: 1,
        name: FX_NAME.to_string(),
    });

    let outcome = DownstreamOutcome::default()
        .downstream(DownstreamMsg::EncoderRingLED(EncoderRingMsg { idx: 10, mode: EncoderRingMode::Point, val: 3 }))
        .upstream(ChannelStripMsg::LowFreq(7))
        .upstream(ChannelStripMsg::CompThresh(7))
        .dirty(Dirty::line2());
    let mut out = Vec::<DownstreamMsg>::new();
    let routes = mode.apply_downstream_outcome(outcome, &router, &mut out);
    // The ring of widget 10 is channel 2 of the bank at 8.
    assert!(matches!(out[0], DownstreamMsg::EncoderRingLED(r) if r.idx == 2 && r.val == 3));
    assert_eq!(routes, vec![(FxAdapterKind::ReaEq, track, 0, ChannelStripMsg::LowFreq(7))]);
    // Only the second lines are due.
    let mut tick = Vec::<DownstreamMsg>::new();
    mode.on_tick(&faces(), &mut tick);
    assert_eq!(tick.len(), 1);
    assert!(matches!(&batch(&tick[0])[0], TopScribbleStripMsg::Line2Text(m) if m.text == "v8"));
}

#[test]
fn channel_strip_routes_surface_messages() {

    let me = TrackGuid { bits: 5 };
    let other = TrackGuid { bits: 6 };
    let mut core = VolumeFadersCore::new(8);
    // Track positions count from 1: position 2 is channel 1, position 4 channel 3.
    core.handle_message_from_upstream(DataMsg::ReaperTrackIndex { track_guid: other, track_index: Some(2) });
    core.handle_message_from_upstream(DataMsg::ReaperTrackIndex { track_guid: me, track_index: Some(4) });
    let mut mode = ChannelStripMode::new(8, 0, me);
    mode.bank_right8();

    assert_eq!(mode.handle_msg_from_downstream(UpstreamMsg::ShiftPress, &core), StripStep::AllWidgetsShift { pressed: true });
    assert_eq!(mode.handle_msg_from_downstream(UpstreamMsg::ShiftRelease, &core), StripStep::AllWidgetsShift { pressed: false });
    // Encoders reach the widget of their channel in the bank shown.
    assert_eq!(
        mode.handle_msg_from_downstream(UpstreamMsg::EncoderPress(EncoderPressMsg { idx: 2 }), &core),
        StripStep::Widget { widget: 10, input: WidgetInput::Click }
    );
    assert_eq!(
        mode.handle_msg_from_downstream(UpstreamMsg::EncoderTurnInc(EncoderTurnCW { idx: 1, accel: 3 }), &core),
        StripStep::Widget { widget: 9, input: WidgetInput::Turn(EncoderTurn::Inc { accel: 3 }) }
    );
    assert_eq!(
        mode.handle_msg_from_downstream(UpstreamMsg::EncoderTurnDec(EncoderTurnCCW { idx: 0, accel: 1 }), &core),
        StripStep::Widget { widget: 8, input: WidgetInput::Turn(EncoderTurn::Dec { accel: 1 }) }
    );
    assert_eq!(
        mode.handle_msg_from_downstream(UpstreamMsg::GlobalPress, &core),
        StripStep::Action(ModeAction::Transition(TransitionRequest::ToReaperVolumePan { selected_track_guid: Some(me) }))
    );
    assert_eq!(
        mode.handle_msg_from_downstream(UpstreamMsg::MIDITracksPress, &core),
        StripStep::Action(ModeAction::Transition(TransitionRequest::ToReaperSends { selected_track_guid: me }))
    );
    assert_eq!(mode.handle_msg_from_downstream(UpstreamMsg::InputsPress, &core), StripStep::Action(ModeAction::NoAction));
    // Selecting another track opens its strip; the strip's own track, or an empty
    // channel, asks for nothing.
    assert_eq!(
        mode.handle_msg_from_downstream(UpstreamMsg::SelectPress(SelectPress { idx: 1 }), &core),
        StripStep::Select {
            guid: other,
            action: ModeAction::Transition(TransitionRequest::ToReaperChannelStrip { selected_track_guid: other })
        }
    );
    assert_eq!(
        mode.handle_msg_from_downstream(UpstreamMsg::SelectPress(SelectPress { idx: 3 }), &core),
        StripStep::Action(ModeAction::NoAction)
    );
    assert_eq!(
        mode.handle_msg_from_downstream(UpstreamMsg::SelectPress(SelectPress { idx: 7 }), &core),
        StripStep::Action(ModeAction::NoAction)
    );
    // Everything else goes to the faders and buttons core.
    assert_eq!(mode.handle_msg_from_downstream(UpstreamMsg::GlobalRelease, &core), StripStep::Core);
}
