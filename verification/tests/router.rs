use arpad_rust::modes::reaper_channel_strip_router::{
    BandMode, ChannelStripMsg, CompOrder, CompType, EqPosition, FxAdapterKind, FxCategory, FxUi, RoutingRegistry,
    SaturationType, SlotRole,
};
use arpad_rust::modes::reaper_fx::{rea_eq, FxId};
use arpad_rust::modes::widget::EncoderTurn;

#[test]
fn rotary_settings_wrap_both_ways() {
    assert_eq!(CompType::VariMu.next(), CompType::Digital);
    assert_eq!(CompType::Digital.prev(), CompType::VariMu);
    assert_eq!(EqPosition::Middle.step(EncoderTurn::Inc { accel: 3 }), EqPosition::Last);
    assert_eq!(EqPosition::Middle.step(EncoderTurn::Dec { accel: 1 }), EqPosition::First);
    assert_eq!(BandMode::Bell.next().next(), BandMode::Bell);
    for t in [CompType::Digital, CompType::Eleven76, CompType::LA2A, CompType::Distressor, CompType::LA3A, CompType::VariMu] {
        assert_eq!(t.next().prev(), t);
        assert_eq!(t.prev().next(), t);
    }
}

#[test]
fn rotary_labels() {
    assert_eq!(CompType::Eleven76.as_str(), "1176");
    assert_eq!(EqPosition::First.as_str(), "E>C>C>S");
    assert_eq!(CompOrder::C2toC1.as_str(), "Cmp2->1");
    assert_eq!(SaturationType::Decapitator.as_str(), "Decap");
}

#[test]
fn messages_route_to_plugin_kinds() {
    assert_eq!(ChannelStripMsg::LowGain(0).kind(), Some(FxCategory::Eq));
    assert_eq!(ChannelStripMsg::CompType(CompType::LA2A).kind(), Some(FxCategory::Comp));
    assert_eq!(ChannelStripMsg::SaturationType(SaturationType::Tape).kind(), Some(FxCategory::Saturation));
    assert_eq!(ChannelStripMsg::Trim(0).kind(), Some(FxCategory::Trim));
    // Not every control is routed yet.
    assert_eq!(ChannelStripMsg::LmGain(0).kind(), None);
    assert_eq!(ChannelStripMsg::EnableEq(arpad_rust::modes::reaper_channel_strip_router::EqType::SSL).kind(), None);
}

#[test]
fn registry_knows_reaeq() {
    let r = RoutingRegistry::new();
    assert_eq!(r.slots.len(), 5);
    assert_eq!(r.fx_to_slots.len(), 1);
    assert_eq!(r.fx_to_slots[0].0, FxId::ReaEQ);
    assert_eq!(r.fx_to_slots[0].1, vec![SlotRole::Eq]);
    let spec = r.get_spec_by_name(rea_eq::FX_NAME).expect("ReaEQ is registered");
    assert_eq!(spec.id, FxId::ReaEQ);
    assert!(matches!(spec.ui_type, FxUi::Eq(_)));
    assert_eq!(spec.adapter, FxAdapterKind::ReaEq);
    assert!(r.get_spec_by_name("VST: ReaComp (Cockos)").is_none());
}
