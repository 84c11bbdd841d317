use arpad_rust::modes::reaper_channel_strip_router::{ChannelStripMsg, CompBypass, CompOrder, CompType, EqPosition, EqType};
use arpad_rust::modes::reaper_channel_strip_widgets::{ChannelStripSnapshot, CompTypeWidget, EqPosWidget};
use arpad_rust::modes::widget::{Dirty, EncoderTurn, WidgetMode, WidgetView};

#[test]
fn eq_position_widget_steps_and_clicks() {
    let mut w = EqPosWidget::new(9);
    assert_eq!(w.view().line1_normal, "E>C>C>S");
    assert_eq!(w.view().mode, WidgetMode::Normal);
    let o = w.handle_encoder_turn(EncoderTurn::Inc { accel: 1 }).unwrap();
    assert_eq!(o.upstream_msgs, vec![ChannelStripMsg::EqPos(EqPosition::Middle)]);
    assert_eq!(o.dirty.bits(), Dirty::lines().bits());
    assert_eq!(w.view().line1_normal, "C>C>E>S");
    // In the shift layer the encoder sets the compressor order.
    w.view_mut().mode = WidgetMode::Shift;
    let o = w.handle_encoder_turn(EncoderTurn::Dec { accel: 1 }).unwrap();
    assert_eq!(o.upstream_msgs, vec![ChannelStripMsg::CompOrder(CompOrder::C2toC1)]);
    assert_eq!(w.view().line2_shift, "Cmp2->1");
    // A click switching the EQ in asks for it with the type the snapshot reported.
    let mut snap = ChannelStripSnapshot::default();
    snap.eq_type = Some(EqType::Neve);
    assert!(w.handle_snapshot(&snap).is_none());
    // The EQ starts in: a click takes it out, a second click puts it back.
    assert_eq!(w.view().line2_normal, "EqIN");
    let o = w.on_click().unwrap();
    assert_eq!(o.upstream_msgs, vec![ChannelStripMsg::DisableEq]);
    assert_eq!(o.dirty.bits(), Dirty::line2().bits());
    assert_eq!(w.view().line2_normal, "EqOUT");
    let o = w.on_click().unwrap();
    assert_eq!(o.upstream_msgs, vec![ChannelStripMsg::EnableEq(EqType::Neve)]);
    assert_eq!(w.view().line2_normal, "EqIN");
    // A disabled widget ignores turns.
    w.view_mut().mode = WidgetMode::Disabled;
    assert!(w.handle_encoder_turn(EncoderTurn::Inc { accel: 1 }).is_none());
}

#[test]
fn comp_type_widget_follows_upstream() {
    let mut w = CompTypeWidget::new(13);
    assert_eq!(w.view().mode, WidgetMode::Disabled);
    assert_eq!(w.view().line2_shift, CompBypass::OUT.as_str());
    assert!(w.handle_encoder_turn(EncoderTurn::Inc { accel: 1 }).is_none());
    let o = w.handle_message_from_upstream(ChannelStripMsg::EnableComp1(CompType::LA2A));
    assert_eq!(o.dirty.bits(), Dirty::all().bits());
    assert_eq!(w.view().mode, WidgetMode::Normal);
    let o = w.handle_encoder_turn(EncoderTurn::Inc { accel: 1 }).unwrap();
    assert_eq!(o.upstream_msgs, vec![ChannelStripMsg::CompType(CompType::LA2A)]);
    assert_eq!(o.dirty.bits(), Dirty::line1().bits());
    // The second compressor's switch starts in: a shift-click takes it out, another
    // puts it back with its type.
    let o = w.on_shift_click().unwrap();
    assert_eq!(o.upstream_msgs, vec![ChannelStripMsg::DisableComp2]);
    assert_eq!(w.view().line2_shift, CompBypass::OUT.as_str());
    let o = w.on_shift_click().unwrap();
    assert_eq!(o.upstream_msgs, vec![ChannelStripMsg::EnableComp2(CompType::LA2A)]);
    assert_eq!(w.view().line2_shift, CompBypass::IN.as_str());
    let o = w.on_click().unwrap();
    assert_eq!(o.upstream_msgs, vec![ChannelStripMsg::DisableComp1]);
    let o = w.handle_message_from_upstream(ChannelStripMsg::DisableComp1);
    assert_eq!(o.dirty.bits(), Dirty::all().bits());
    assert_eq!(w.view().mode, WidgetMode::Disabled);
    let o = w.handle_message_from_upstream(ChannelStripMsg::Gain(0));
    assert_eq!(o.dirty.bits(), Dirty::none().bits());
}

#[test]
fn widget_view_shows_the_current_layer() {
    let mut v = WidgetView::new()
        .line1_normal("norm")
        .line1_shift("shft")
        .line2_disabled("off")
        .starting_mode(WidgetMode::Normal);
    assert_eq!(v.line1_text(), "norm");
    assert_eq!(v.handle_shift_press().map(|d| d.bits()), Some(0b111));
    assert_eq!(v.mode, WidgetMode::Shift);
    assert_eq!(v.line1_text(), "shft");
    assert_eq!(v.handle_shift_release().map(|d| d.bits()), Some(0b111));
    assert_eq!(v.mode, WidgetMode::Normal);
    // A disabled widget ignores shift.
    v.mode = WidgetMode::Disabled;
    assert!(v.handle_shift_press().is_none());
    assert_eq!(v.line2_text(), "off");
}

#[test]
fn dirty_flags_combine() {
    let d = Dirty::line1().union(Dirty::color());
    assert_eq!(d.bits(), 0b101);
    assert!(d.contains(Dirty::line1()));
    assert!(!d.contains(Dirty::line2()));
    assert!(Dirty::all().contains(d));
}
