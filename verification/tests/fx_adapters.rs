use arpad_rust::modes::guid::TrackGuid;
use arpad_rust::modes::reaper_channel_strip_router::{BandMode, ChannelStripMsg, FxAdapterKind};
use arpad_rust::modes::track_data::DataMsg;

const TRACK: TrackGuid = TrackGuid { bits: 12 };

fn param(msg: &DataMsg) -> (i32, i32, u32) {
    match msg {
        DataMsg::FXParamValue { fx_index, param_index, value, .. } => (*fx_index, *param_index, *value),
        other => panic!("expected a parameter value, got {:?}", other),
    }
}

#[test]
fn reaeq_writes_bands_and_reads_them_back() {
    let v = 0.3f32.to_bits();
    let out = FxAdapterKind::ReaEq.to_track(TRACK, 2, ChannelStripMsg::LowFreq(v), false);
    assert_eq!(out.len(), 1);
    assert_eq!(param(&out[0]), (2, 0, v));
    let out = FxAdapterKind::ReaEq.to_track(TRACK, 2, ChannelStripMsg::HighQ(v), false);
    assert_eq!(param(&out[0]).1, 11);
    assert!(FxAdapterKind::ReaEq.to_track(TRACK, 2, ChannelStripMsg::CompThresh(v), false).is_empty());

    assert_eq!(FxAdapterKind::ReaEq.from_track(0, v, false, 0), vec![ChannelStripMsg::LowFreq(v)]);
    assert_eq!(FxAdapterKind::ReaEq.from_track(4, v, false, 0), vec![ChannelStripMsg::LmGain(v)]);
}

#[test]
fn slickeq_writes_shapes_as_switches() {
    let out = FxAdapterKind::TdrvosSlickEq.to_track(TRACK, 1, ChannelStripMsg::LowBandMode(BandMode::Shelf), false);
    assert_eq!(param(&out[0]), (1, 2, 1.0f32.to_bits()));
    // A Q value above 0.5 asks for a shelf too.
    let q = 0.8f32;
    let out = FxAdapterKind::TdrvosSlickEq.to_track(TRACK, 1, ChannelStripMsg::LowQ(q.to_bits()), q > 0.5);
    assert_eq!(param(&out[0]), (1, 2, 1.0f32.to_bits()));
    let out = FxAdapterKind::TdrvosSlickEq.to_track(TRACK, 1, ChannelStripMsg::HighBandMode(BandMode::Bell), false);
    assert_eq!(param(&out[0]), (1, 7, 0));
    assert!(FxAdapterKind::TdrvosSlickEq.to_track(TRACK, 1, ChannelStripMsg::HmFreq(0), false).is_empty());

    assert_eq!(
        FxAdapterKind::TdrvosSlickEq.from_track(7, 1.0f32.to_bits(), true, 1),
        vec![ChannelStripMsg::HighBandMode(BandMode::Shelf)]
    );
    assert_eq!(FxAdapterKind::TdrvosSlickEq.from_track(10, 7, false, 0), vec![ChannelStripMsg::HpfFreq(7)]);
    // The EQ model is a setting the widgets have no message for.
    assert!(FxAdapterKind::TdrvosSlickEq.from_track(8, 2.0f32.to_bits(), true, 2).is_empty());
}

#[test]
fn molotok_serves_both_compressors() {
    let v = 0.6f32.to_bits();
    let first = FxAdapterKind::TdrMolotok.to_track(TRACK, 4, ChannelStripMsg::CompThresh(v), false);
    let second = FxAdapterKind::TdrMolotok.to_track(TRACK, 4, ChannelStripMsg::Comp2Thresh(v), false);
    assert_eq!(param(&first[0]), (4, 6, v));
    assert_eq!(param(&second[0]), (4, 6, v));
    assert_eq!(FxAdapterKind::TdrMolotok.from_track(6, v, true, 1), vec![ChannelStripMsg::CompThresh(v)]);
    assert!(FxAdapterKind::TdrMolotok.from_track(1, v, true, 1).is_empty());
}
