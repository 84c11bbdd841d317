use arpad_rust::midi::xtouch::{EncoderPressMsg, EncoderReleaseMsg, UpstreamMsg};
use arpad_rust::modes::reaper_channel_strip::{
    ChannelStripMap,
    ChannelWidget, ChannelWidgetColors, ChannelWidgetCore, ChannelWidgetLabels, ChannelWidgetMode,
};

fn hp_widget() -> ChannelWidget {
    ChannelWidget::new(
        0,
        ChannelWidgetLabels { default: "HP Filt", press: "Slope", shift: "EQ Type", shift_press: "" },
        ChannelWidgetColors { default: 0xFF0000, press: 0x00FF00, shift: 0x0000FF, shift_press: 0xFFFF00 },
    )
}

#[test]
fn widget_layers_follow_encoder_and_shift() {
    let mut core = ChannelWidgetCore::new();
    core.mode_change_button_press();
    assert_eq!(core.mode, ChannelWidgetMode::Press);
    core.mode_change_shift_press();
    assert_eq!(core.mode, ChannelWidgetMode::ShiftPress);
    core.mode_change_button_release();
    assert_eq!(core.mode, ChannelWidgetMode::Shift);
    core.mode_change_shift_release();
    assert_eq!(core.mode, ChannelWidgetMode::Default);
    // Releasing what is not held changes nothing.
    core.mode_change_button_release();
    core.mode_change_shift_release();
    assert_eq!(core.mode, ChannelWidgetMode::Default);
}

#[test]
fn widget_labels_and_colors_show_the_layer() {
    let mut w = hp_widget();
    assert_eq!((w.label1(), w.label3(), w.label4(), w.color()), ("HP Filt", "Slope", "EQ Type", 0xFF0000));
    w.handle_upstream_message(UpstreamMsg::EncoderPress(EncoderPressMsg { idx: 0 }));
    assert_eq!((w.label1(), w.label3(), w.label4(), w.color()), ("Slope", "", "", 0x00FF00));
    // Another encoder leaves this widget alone.
    w.handle_upstream_message(UpstreamMsg::EncoderRelease(EncoderReleaseMsg { idx: 1 }));
    assert_eq!(w.core.mode, ChannelWidgetMode::Press);
    w.handle_upstream_message(UpstreamMsg::EncoderRelease(EncoderReleaseMsg { idx: 0 }));
    assert_eq!(w.core.mode, ChannelWidgetMode::Default);
    w.core.mode_change_shift_press();
    assert_eq!((w.label1(), w.label3(), w.label4(), w.color()), ("EQ Type", "", "", 0x0000FF));
}

#[test]
fn plugin_names_grow_to_the_reported_position() {
    let mut map = ChannelStripMap::new();
    assert_eq!(map.name_at(0), None);
    map.update_plugin_state(2, "VST: ReaEQ (Cockos)");
    assert_eq!(map.name_at(0), Some(""));
    assert_eq!(map.name_at(1), Some(""));
    assert_eq!(map.name_at(2), Some("VST: ReaEQ (Cockos)"));
    assert_eq!(map.name_at(3), None);
    map.update_plugin_state(0, "VST: ReaComp (Cockos)");
    assert_eq!(map.name_at(0), Some("VST: ReaComp (Cockos)"));
    assert_eq!(map.name_at(2), Some("VST: ReaEQ (Cockos)"));
}
