use arpad_rust::midi::xtouch::{DownstreamMsg, FaderAbsMsg, LEDState, MutePress, SoloPress, UpstreamMsg};
use arpad_rust::modes::guid::TrackGuid;
use arpad_rust::modes::reaper::VolumePanMode;
use arpad_rust::modes::reaper_faders_buttons_core::CoreEffect;
use arpad_rust::modes::track_data::DataMsg;

const G: TrackGuid = TrackGuid { bits: 77 };

#[test]
fn first_volume_pan_mode_follows_the_daw() {
    let mut mode = VolumePanMode::new();
    assert!(mode.handle_track_data(DataMsg::ReaperTrackIndex { track_guid: G, track_index: Some(3) }).is_empty());
    assert_eq!(mode.find_hw_channel(G), Some(3));
    // A second position adds a channel; the first one found is used.
    mode.handle_track_data(DataMsg::ReaperTrackIndex { track_guid: G, track_index: Some(1) });
    assert_eq!(mode.find_hw_channel(G), Some(1));

    let v = 0.5f32.to_bits();
    let effects = mode.handle_track_data(DataMsg::Volume { track_guid: G, volume: v });
    assert!(matches!(effects[0], CoreEffect::FaderToVolume { idx: 1, volume } if volume == v));
    let effects = mode.handle_track_data(DataMsg::Muted { track_guid: G, muted: true });
    assert!(matches!(&effects[0], CoreEffect::Surface(DownstreamMsg::MuteLED(m)) if m.idx == 1 && m.state == LEDState::On));
    // Unknown tracks are ignored.
    assert!(mode.handle_track_data(DataMsg::Soloed { track_guid: TrackGuid { bits: 1 }, soloed: true }).is_empty());
}

#[test]
fn first_volume_pan_mode_presses_toggle_the_button() {
    let mut mode = VolumePanMode::new();
    mode.handle_track_data(DataMsg::ReaperTrackIndex { track_guid: G, track_index: Some(2) });
    mode.handle_track_data(DataMsg::Muted { track_guid: G, muted: true });
    // Muted as heard: the first press unmutes, the second mutes again.
    let effects = mode.handle_surface(UpstreamMsg::MutePress(MutePress { idx: 2 }));
    assert!(matches!(effects[0], CoreEffect::SetMuted { track_guid, muted: false } if track_guid == G));
    assert!(matches!(&effects[1], CoreEffect::Surface(DownstreamMsg::MuteLED(m)) if m.idx == 2 && m.state == LEDState::Off));
    let effects = mode.handle_surface(UpstreamMsg::MutePress(MutePress { idx: 2 }));
    assert!(matches!(effects[0], CoreEffect::SetMuted { track_guid, muted: true } if track_guid == G));
    assert!(matches!(&effects[1], CoreEffect::Surface(DownstreamMsg::MuteLED(m)) if m.idx == 2 && m.state == LEDState::On));
    // Solo was never heard: it starts off, so a press turns it on.
    let effects = mode.handle_surface(UpstreamMsg::SoloPress(SoloPress { idx: 2 }));
    assert!(matches!(effects[0], CoreEffect::SetSoloed { track_guid, soloed: true } if track_guid == G));
    let pos = 0.25f64.to_bits();
    let effects = mode.handle_surface(UpstreamMsg::FaderAbs(FaderAbsMsg { idx: 2, value: pos }));
    assert!(matches!(effects[0], CoreEffect::VolumeFromFader { track_guid, position } if track_guid == G && position == pos));
    assert!(mode.handle_surface(UpstreamMsg::MutePress(MutePress { idx: 5 })).is_empty());
}
