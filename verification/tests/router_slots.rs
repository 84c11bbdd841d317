use arpad_rust::modes::guid::TrackGuid;
use arpad_rust::modes::reaper_channel_strip_router::{
    ChannelStripMsg, ChannelStripRouter, EqType, FxAdapterKind, UpstreamTranslation,
};
use arpad_rust::modes::reaper_fx::rea_eq::FX_NAME;
use arpad_rust::modes::track_data::DataMsg;

const TRACK: TrackGuid = TrackGuid { bits: 3 };
const EQ: TrackGuid = TrackGuid { bits: 30 };

fn msgs(t: UpstreamTranslation) -> Vec<ChannelStripMsg> {
    match t {
        UpstreamTranslation::Msgs(v) => v,
        other => panic!("expected messages, got {:?}", other),
    }
}

fn adapters(t: UpstreamTranslation) -> Vec<FxAdapterKind> {
    match t {
        UpstreamTranslation::ForAdapters(v) => v,
        other => panic!("expected adapters, got {:?}", other),
    }
}

fn with_reaeq() -> ChannelStripRouter {
    let mut router = ChannelStripRouter::new(TRACK);
    let out = router.translate_message_from_upstream(DataMsg::FXName {
        track_guid: TRACK,
        fx_guid: EQ,
        fx_index: 2,
        name: FX_NAME.to_string(),
    });
    assert_eq!(msgs(out), vec![ChannelStripMsg::EnableEq(EqType::Digital)]);
    router
}

#[test]
fn known_plugin_name_fills_the_eq_slot() {
    let router = with_reaeq();
    assert_eq!(
        router.translate_message_from_downstream(ChannelStripMsg::LowFreq(0.5f32.to_bits())),
        Some((FxAdapterKind::ReaEq, TRACK, 0))
    );
    // Only EQ messages are routed.
    assert_eq!(router.translate_message_from_downstream(ChannelStripMsg::CompThresh(0)), None);
    assert_eq!(router.translate_message_from_downstream(ChannelStripMsg::DisableEq), None);
}

#[test]
fn unknown_plugin_names_fill_nothing() {
    let mut router = ChannelStripRouter::new(TRACK);
    let out = router.translate_message_from_upstream(DataMsg::FXName {
        track_guid: TRACK,
        fx_guid: EQ,
        fx_index: 0,
        name: "VST: Something Else".to_string(),
    });
    assert!(msgs(out).is_empty());
    assert_eq!(router.translate_message_from_downstream(ChannelStripMsg::LowFreq(0)), None);
    // The plugin is known by position, but is active in no slot.
    let out = router.translate_message_from_upstream(DataMsg::FXParamValue {
        track_guid: TRACK,
        fx_index: 0,
        param_index: 1,
        value: 0,
    });
    assert!(adapters(out).is_empty());
}

#[test]
fn parameter_values_go_to_the_active_plugin_adapter() {
    let mut router = with_reaeq();
    let out = router.translate_message_from_upstream(DataMsg::FXParamValue {
        track_guid: TRACK,
        fx_index: 2,
        param_index: 0,
        value: 0.25f32.to_bits(),
    });
    assert_eq!(adapters(out), vec![FxAdapterKind::ReaEq]);
    let out = router.translate_message_from_upstream(DataMsg::FXParamValue {
        track_guid: TRACK,
        fx_index: 5,
        param_index: 0,
        value: 0,
    });
    assert!(adapters(out).is_empty());
}

#[test]
fn turning_a_plugin_off_and_on_empties_and_refills_its_slot() {
    let mut router = with_reaeq();
    let out = router.translate_message_from_upstream(DataMsg::FXEnabled { track_guid: TRACK, fx_guid: EQ, enabled: false });
    assert_eq!(msgs(out), vec![ChannelStripMsg::DisableEq]);
    assert_eq!(router.translate_message_from_downstream(ChannelStripMsg::LowFreq(0)), None);
    // Turning it off again finds no slot.
    let out = router.translate_message_from_upstream(DataMsg::FXEnabled { track_guid: TRACK, fx_guid: EQ, enabled: false });
    assert!(msgs(out).is_empty());
    let out = router.translate_message_from_upstream(DataMsg::FXEnabled { track_guid: TRACK, fx_guid: EQ, enabled: true });
    assert_eq!(msgs(out), vec![ChannelStripMsg::EnableEq(EqType::Digital)]);
    assert_eq!(
        router.translate_message_from_downstream(ChannelStripMsg::HighFreq(0)),
        Some((FxAdapterKind::ReaEq, TRACK, 0))
    );
    router.set_plugin_enable(EQ, false);
    let out = router.translate_message_from_upstream(DataMsg::Other);
    assert!(msgs(out).is_empty());
}
