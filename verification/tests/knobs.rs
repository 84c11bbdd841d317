use arpad_rust::midi::v1m::{DownstreamMsg, EncoderRingMode};
use arpad_rust::modes::color::RgbColor;
use arpad_rust::modes::reaper_channel_strip_knobs::{KnobKind, KnobWidget, HALF_BITS, Q_DEFAULT_BITS, TENTH_BITS};
use arpad_rust::modes::reaper_channel_strip_router::{BandMode, ChannelStripMsg, CompType, EqType, SaturationType};
use arpad_rust::modes::reaper_channel_strip_widgets::ChannelStripSnapshot;
use arpad_rust::modes::widget::{EncoderTurn, WidgetMode};

const C: RgbColor = RgbColor { red: 1, green: 2, blue: 3 };

fn knob(kind: KnobKind) -> KnobWidget {
    KnobWidget::new(kind, 4, C, C)
}

#[test]
fn starting_values_are_the_floats_of_the_strip() {
    assert_eq!(f32::from_bits(TENTH_BITS), 0.1);
    assert_eq!(f32::from_bits(HALF_BITS), 0.5);
    assert_eq!(f32::from_bits(Q_DEFAULT_BITS), 0.72);
    let hpf = knob(KnobKind::Hpf);
    assert_eq!(hpf.view().mode, WidgetMode::Disabled);
    assert_eq!(hpf.view().line1_normal, "HP Filter");
    assert_eq!(hpf.view().line2_disabled, "EnablEQ");
    assert_eq!(hpf.state().v0, TENTH_BITS);
    assert_eq!(knob(KnobKind::Gain).view().mode, WidgetMode::Normal);
}

#[test]
fn hpf_click_switches_the_eq_and_turns_follow_the_layer() {
    let mut w = knob(KnobKind::Hpf);
    // Disabled: a turn steps the EQ type and shows it.
    let o = w.handle_encoder_turn(EncoderTurn::Inc { accel: 1 }, 0, 0, "").unwrap();
    assert_eq!(o.upstream_msgs, vec![ChannelStripMsg::EqType(EqType::SSL)]);
    assert_eq!(w.view().line1_disabled, EqType::SSL.as_str());
    // A click from the disabled layer enables the EQ with that type and tells the others.
    let o = w.on_click(8, 5).unwrap();
    assert_eq!(o.upstream_msgs, vec![ChannelStripMsg::EnableEq(EqType::SSL)]);
    assert_eq!(o.dirty.bits(), 0b111);
    assert_eq!(o.snapshot.unwrap().eq_enabled, Some(true));
    let mut snap = ChannelStripSnapshot::default();
    snap.eq_enabled = Some(true);
    assert!(w.handle_snapshot(&snap).is_none());
    assert_eq!(w.view().mode, WidgetMode::Normal);
    // Normal: a turn sends the stepped frequency and shows it from the left.
    let stepped = 0.2f32.to_bits();
    let o = w.handle_encoder_turn(EncoderTurn::Inc { accel: 3 }, stepped, 3, "").unwrap();
    assert_eq!(o.upstream_msgs, vec![ChannelStripMsg::HpfFreq(stepped)]);
    assert!(matches!(&o.downstream_msgs[0], DownstreamMsg::EncoderRingLED(r) if r.idx == 4 && r.val == 3 && r.mode == EncoderRingMode::FromLeft));
    assert_eq!(w.state().v0, stepped);
    // From the normal layer a click disables the EQ.
    let o = w.on_click(8, 5).unwrap();
    assert_eq!(o.upstream_msgs, vec![ChannelStripMsg::DisableEq]);
    assert_eq!(o.snapshot.unwrap().eq_enabled, Some(false));
    // Upstream switches it off.
    let o = w.handle_message_from_upstream(ChannelStripMsg::DisableEq, 0);
    assert_eq!(o.dirty.bits(), 0b111);
    assert_eq!(w.view().mode, WidgetMode::Disabled);
}

#[test]
fn band_gains_reset_on_click() {
    let mut low = knob(KnobKind::LowGain);
    let o = low.on_click(8, 5).unwrap();
    assert_eq!(o.upstream_msgs, vec![ChannelStripMsg::LowGain(HALF_BITS)]);
    assert!(matches!(&o.downstream_msgs[0], DownstreamMsg::EncoderRingLED(r) if r.val == 8 && r.mode == EncoderRingMode::FromCenter));
    // The HM gain keeps 0.5 but sends 0.0, as it always has.
    let mut hm = knob(KnobKind::HmGain);
    let o = hm.on_shift_click(8, 5).unwrap();
    assert_eq!(o.upstream_msgs, vec![ChannelStripMsg::HmGain(0)]);
    assert!(matches!(&o.downstream_msgs[0], DownstreamMsg::EncoderRingLED(r) if r.val == 5));
    assert_eq!(hm.state().v0, HALF_BITS);
    // The high gain's shift-click resets the sides gain.
    let mut hi = knob(KnobKind::HighGain);
    let o = hi.on_shift_click(8, 5).unwrap();
    assert_eq!(o.upstream_msgs, vec![ChannelStripMsg::HighSidesGain(HALF_BITS)]);
    assert_eq!(o.dirty.bits(), 0b010);
    assert!(knob(KnobKind::LmFreq).on_click(8, 5).is_none());
}

#[test]
fn high_freq_shows_q_only_for_a_shelf() {
    let mut w = knob(KnobKind::HighFreq);
    w.handle_message_from_upstream(ChannelStripMsg::EnableEq(EqType::Digital), 0);
    let o = w.handle_encoder_turn(EncoderTurn::Dec { accel: 1 }, 7, 2, "0.5 Q").unwrap();
    assert_eq!(o.upstream_msgs, vec![ChannelStripMsg::HighFreq(7)]);
    assert_eq!(w.view().line2_normal, "0.5 Q");
    w.view_mut().mode = WidgetMode::Shift;
    let o = w.handle_encoder_turn(EncoderTurn::Inc { accel: 1 }, 0, 0, "").unwrap();
    assert_eq!(o.upstream_msgs, vec![ChannelStripMsg::HighBandMode(BandMode::Bell)]);
    assert_eq!(w.view().line2_shift, "bell");
    w.view_mut().mode = WidgetMode::Normal;
    w.handle_encoder_turn(EncoderTurn::Inc { accel: 1 }, 9, 2, "0.5 Q");
    assert_eq!(w.view().line2_normal, "");
    // A value from upstream is kept and shown on the ring.
    let o = w.handle_message_from_upstream(ChannelStripMsg::HighFreq(11), 6);
    assert_eq!(w.state().v0, 11);
    assert!(matches!(&o.downstream_msgs[0], DownstreamMsg::EncoderRingLED(r) if r.val == 6 && r.mode == EncoderRingMode::FromLeft));
}

#[test]
fn compressor_and_saturation_widgets() {
    let mut thr = knob(KnobKind::CompThresh);
    let o = thr.on_click(8, 5).unwrap();
    assert_eq!(o.upstream_msgs, vec![ChannelStripMsg::EnableComp1(CompType::Eleven76)]);
    assert_eq!(o.snapshot.unwrap().comp1_enabled, Some(true));
    assert_eq!(thr.view().mode, WidgetMode::Normal);
    assert!(thr.on_click(8, 5).is_none());
    thr.view_mut().mode = WidgetMode::ShiftPress;
    let o = thr.handle_encoder_turn(EncoderTurn::Inc { accel: 1 }, 12, 0, "").unwrap();
    assert_eq!(o.upstream_msgs, vec![ChannelStripMsg::Comp2Attack(12)]);
    assert!(o.downstream_msgs.is_empty());

    let mut rat = knob(KnobKind::CompRatio);
    let mut snap = ChannelStripSnapshot::default();
    snap.comp1_enabled = Some(true);
    snap.comp2_type = Some(CompType::VariMu);
    rat.handle_snapshot(&snap);
    assert_eq!(rat.view().mode, WidgetMode::Normal);
    assert_eq!(rat.state().comp2_type, CompType::VariMu);

    let mut sat = knob(KnobKind::Saturation);
    let o = sat.on_click(8, 5).unwrap();
    assert_eq!(o.upstream_msgs, vec![ChannelStripMsg::DisableSaturation]);
    assert_eq!(sat.view().line2_normal, "SatOUT");
    let o = sat.on_click(8, 5).unwrap();
    assert_eq!(o.upstream_msgs, vec![ChannelStripMsg::EnableSaturation(SaturationType::Tape)]);
    sat.handle_message_from_upstream(ChannelStripMsg::EnableSaturation(SaturationType::Tape), 0);
    sat.view_mut().mode = WidgetMode::Press;
    let o = sat.handle_encoder_turn(EncoderTurn::Inc { accel: 1 }, 0, 0, "").unwrap();
    assert_eq!(o.upstream_msgs, vec![ChannelStripMsg::SaturationType(SaturationType::Decapitator)]);
}
