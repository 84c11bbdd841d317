use arpad_rust::midi::xtouch::{DownstreamMsg, FaderAbsMsg, LEDState, MutePress, SoloPress, UpstreamMsg};
use arpad_rust::modes::guid::TrackGuid;
use arpad_rust::modes::reaper_faders_buttons_core::{CoreEffect, VolumeFadersCore, FADER_0DB};
use arpad_rust::modes::track_data::DataMsg;

const G: TrackGuid = TrackGuid { bits: 42 };

fn placed_core() -> VolumeFadersCore {
    let mut core = VolumeFadersCore::new(8);
    core.handle_message_from_upstream(DataMsg::ReaperTrackIndex { track_guid: G, track_index: Some(3) });
    core
}

#[test]
fn track_index_puts_track_one_below_and_redraws() {
    let mut core = VolumeFadersCore::new(8);
    assert_eq!(core.find_hw_channel(G), None);
    let effects =
        core.handle_message_from_upstream(DataMsg::ReaperTrackIndex { track_guid: G, track_index: Some(3) });
    assert_eq!(core.find_hw_channel(G), Some(2));
    assert_eq!(core.get_guid_for_hw_channel(2), Some(G));
    assert_eq!(effects.len(), 5);
    assert!(matches!(effects[0], CoreEffect::FaderToVolume { idx: 2, volume } if volume == FADER_0DB));
    assert!(matches!(&effects[1], CoreEffect::Surface(DownstreamMsg::MuteLED(m)) if m.idx == 2 && m.state == LEDState::Off));
    assert!(matches!(&effects[2], CoreEffect::Surface(DownstreamMsg::SoloLED(m)) if m.idx == 2 && m.state == LEDState::Off));
    assert!(matches!(&effects[3], CoreEffect::Surface(DownstreamMsg::ArmLED(m)) if m.idx == 2 && m.state == LEDState::Off));
    assert!(matches!(&effects[4], CoreEffect::TrackPlaced(e) if e.track_guid == G && e.hw_channel == 2));
    assert_eq!(f32::from_bits(FADER_0DB), 0.72);
}

#[test]
fn track_index_below_one_or_naming_the_track_changes_nothing() {
    let mut core = placed_core();
    let effects = core.handle_message_from_upstream(DataMsg::ReaperTrackIndex { track_guid: G, track_index: Some(0) });
    assert!(effects.is_empty());
    // Reporting the position the track already has changes nothing.
    let effects = core.handle_message_from_upstream(DataMsg::ReaperTrackIndex { track_guid: G, track_index: Some(3) });
    assert!(effects.is_empty());
    assert_eq!(core.find_hw_channel(G), Some(2));
    // The last position names the last channel.
    let effects = core.handle_message_from_upstream(DataMsg::ReaperTrackIndex { track_guid: G, track_index: Some(8) });
    assert_eq!(effects.len(), 5);
    assert_eq!(core.find_hw_channel(G), Some(7));
    core.handle_message_from_upstream(DataMsg::ReaperTrackIndex { track_guid: G, track_index: Some(3) });
    // A position with no number redraws the channel the track is on.
    let effects = core.handle_message_from_upstream(DataMsg::ReaperTrackIndex { track_guid: G, track_index: None });
    assert_eq!(effects.len(), 5);
}

#[test]
fn moving_a_track_takes_it_off_its_old_channel() {
    let mut core = placed_core();
    core.handle_message_from_upstream(DataMsg::ReaperTrackIndex { track_guid: G, track_index: Some(6) });
    assert_eq!(core.find_hw_channel(G), Some(5));
    assert_eq!(core.get_guid_for_hw_channel(2), None);
}

#[test]
fn reported_state_is_kept_and_shown() {
    let mut core = placed_core();
    let volume = 0.5f32.to_bits();
    let effects = core.handle_message_from_upstream(DataMsg::Volume { track_guid: G, volume });
    assert!(matches!(effects[0], CoreEffect::FaderToVolume { idx: 2, volume: v } if v == volume));
    let effects = core.handle_message_from_upstream(DataMsg::Muted { track_guid: G, muted: true });
    assert!(matches!(&effects[0], CoreEffect::Surface(DownstreamMsg::MuteLED(m)) if m.idx == 2 && m.state == LEDState::On));
    // Tracks without a channel are remembered but not shown.
    let other = TrackGuid { bits: 7 };
    let effects = core.handle_message_from_upstream(DataMsg::Soloed { track_guid: other, soloed: true });
    assert!(effects.is_empty());
    let effects = core.handle_message_from_upstream(DataMsg::ReaperTrackIndex { track_guid: other, track_index: Some(1) });
    assert!(matches!(&effects[2], CoreEffect::Surface(DownstreamMsg::SoloLED(m)) if m.idx == 0 && m.state == LEDState::On));
    // The redraw shows what was kept.
    let effects = core.handle_message_from_upstream(DataMsg::ReaperTrackIndex { track_guid: G, track_index: None });
    assert!(matches!(effects[0], CoreEffect::FaderToVolume { idx: 2, volume: v } if v == volume));
    assert!(matches!(&effects[1], CoreEffect::Surface(DownstreamMsg::MuteLED(m)) if m.state == LEDState::On));
}

#[test]
fn presses_toggle_and_second_press_undoes_first() {
    let mut core = placed_core();
    let effects = core.handle_message_from_downstream(UpstreamMsg::MutePress(MutePress { idx: 2 }));
    assert!(matches!(effects[0], CoreEffect::SetMuted { track_guid, muted: true } if track_guid == G));
    assert!(matches!(&effects[1], CoreEffect::Surface(DownstreamMsg::MuteLED(m)) if m.idx == 2 && m.state == LEDState::On));
    let effects = core.handle_message_from_downstream(UpstreamMsg::MutePress(MutePress { idx: 2 }));
    assert!(matches!(effects[0], CoreEffect::SetMuted { muted: false, .. }));
    // A channel without a track does nothing.
    let effects = core.handle_message_from_downstream(UpstreamMsg::SoloPress(SoloPress { idx: 4 }));
    assert!(effects.is_empty());
}

#[test]
fn fader_moves_ask_for_volume_and_hold_the_fader() {
    let mut core = placed_core();
    let value = 0.25f64.to_bits();
    let effects = core.handle_message_from_downstream(UpstreamMsg::FaderAbs(FaderAbsMsg { idx: 2, value }));
    assert_eq!(effects.len(), 2);
    assert!(matches!(effects[0], CoreEffect::VolumeFromFader { track_guid, position } if track_guid == G && position == value));
    assert!(matches!(&effects[1], CoreEffect::Surface(DownstreamMsg::FaderAbs(m)) if m.idx == 2 && m.value == value));
    let effects = core.handle_message_from_downstream(UpstreamMsg::FaderAbs(FaderAbsMsg { idx: 0, value }));
    assert!(effects.is_empty());
}
