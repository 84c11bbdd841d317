//! A channel-strip widget on an X-Touch encoder: it shows one of four layers, chosen by
//! holding its encoder down and by holding shift, each layer with its own label and
//! color.
use vstd::prelude::*;

use crate::midi::xtouch;

verus! {

/// The layer a widget shows.
#[derive(Clone, Copy, Debug, PartialEq, Eq, Structural)]
pub enum ChannelWidgetMode {
    Default,
    Press,
    Shift,
    ShiftPress,
}

/// The label of each layer.
#[derive(Clone, Copy, Debug)]
pub struct ChannelWidgetLabels {
    pub default: &'static str,
    pub press: &'static str,
    pub shift: &'static str,
    pub shift_press: &'static str,
}

/// The color of each layer, as 0xRRGGBB.
#[derive(Clone, Copy, Debug, PartialEq, Eq, Structural)]
pub struct ChannelWidgetColors {
    pub default: u32,
    pub press: u32,
    pub shift: u32,
    pub shift_press: u32,
}

/// The layer after the encoder is pressed.
pub open spec fn after_button_press(m: ChannelWidgetMode) -> ChannelWidgetMode {
    match m {
        ChannelWidgetMode::Default => ChannelWidgetMode::Press,
        ChannelWidgetMode::Shift => ChannelWidgetMode::ShiftPress,
        _ => m,
    }
}

/// The layer after the encoder is released.
pub open spec fn after_button_release(m: ChannelWidgetMode) -> ChannelWidgetMode {
    match m {
        ChannelWidgetMode::Press => ChannelWidgetMode::Default,
        ChannelWidgetMode::ShiftPress => ChannelWidgetMode::Shift,
        _ => m,
    }
}

/// The layer after shift is pressed.
pub open spec fn after_shift_press(m: ChannelWidgetMode) -> ChannelWidgetMode {
    match m {
        ChannelWidgetMode::Default => ChannelWidgetMode::Shift,
        ChannelWidgetMode::Press => ChannelWidgetMode::ShiftPress,
        _ => m,
    }
}

/// The layer after shift is released.
pub open spec fn after_shift_release(m: ChannelWidgetMode) -> ChannelWidgetMode {
    match m {
        ChannelWidgetMode::Shift => ChannelWidgetMode::Default,
        ChannelWidgetMode::ShiftPress => ChannelWidgetMode::Press,
        _ => m,
    }
}

/// The layer switching every widget shares.
#[derive(Clone, Copy, Debug, PartialEq, Eq, Structural)]
pub struct ChannelWidgetCore {
    pub mode: ChannelWidgetMode,
}

impl ChannelWidgetCore {
    pub fn new() -> (r: Self)
        ensures
            r.mode == ChannelWidgetMode::Default,
    {
        ChannelWidgetCore { mode: ChannelWidgetMode::Default }
    }

    pub fn mode_change_button_press(&mut self)
        ensures
            final(self).mode == after_button_press(old(self).mode),
    {
        match self.mode {
            ChannelWidgetMode::Default => self.mode = ChannelWidgetMode::Press,
            ChannelWidgetMode::Press => {},
            ChannelWidgetMode::Shift => self.mode = ChannelWidgetMode::ShiftPress,
            ChannelWidgetMode::ShiftPress => {},
        }
    }

    pub fn mode_change_button_release(&mut self)
        ensures
            final(self).mode == after_button_release(old(self).mode),
    {
        match self.mode {
            ChannelWidgetMode::Default => {},
            ChannelWidgetMode::Press => self.mode = ChannelWidgetMode::Default,
            ChannelWidgetMode::Shift => {},
            ChannelWidgetMode::ShiftPress => self.mode = ChannelWidgetMode::Shift,
        }
    }

    pub fn mode_change_shift_press(&mut self)
        ensures
            final(self).mode == after_shift_press(old(self).mode),
    {
        match self.mode {
            ChannelWidgetMode::Default => self.mode = ChannelWidgetMode::Shift,
            ChannelWidgetMode::Press => self.mode = ChannelWidgetMode::ShiftPress,
            ChannelWidgetMode::Shift => {},
            ChannelWidgetMode::ShiftPress => {},
        }
    }

    pub fn mode_change_shift_release(&mut self)
        ensures
            final(self).mode == after_shift_release(old(self).mode),
    {
        match self.mode {
            ChannelWidgetMode::Default => {},
            ChannelWidgetMode::Press => {},
            ChannelWidgetMode::Shift => self.mode = ChannelWidgetMode::Default,
            ChannelWidgetMode::ShiftPress => self.mode = ChannelWidgetMode::Press,
        }
    }
}

/// A widget: its layer, the encoder it listens to, and the labels and colors of its
/// layers.
pub struct ChannelWidget {
    pub core: ChannelWidgetCore,
    pub index: usize,
    pub labels: ChannelWidgetLabels,
    pub colors: ChannelWidgetColors,
}

/// The color shown in layer `m`.
pub open spec fn color_of(c: ChannelWidgetColors, m: ChannelWidgetMode) -> u32 {
    match m {
        ChannelWidgetMode::Default => c.default,
        ChannelWidgetMode::Press => c.press,
        ChannelWidgetMode::Shift => c.shift,
        ChannelWidgetMode::ShiftPress => c.shift_press,
    }
}

/// The first line in layer `m`: that layer's label.
pub open spec fn label1_of(l: ChannelWidgetLabels, m: ChannelWidgetMode) -> Seq<char> {
    match m {
        ChannelWidgetMode::Default => l.default@,
        ChannelWidgetMode::Press => l.press@,
        ChannelWidgetMode::Shift => l.shift@,
        ChannelWidgetMode::ShiftPress => l.shift_press@,
    }
}

/// The third line in layer `m`: the label of the layer a press of the encoder would
/// show, blank while it is held.
pub open spec fn label3_of(l: ChannelWidgetLabels, m: ChannelWidgetMode) -> Seq<char> {
    match m {
        ChannelWidgetMode::Default => l.press@,
        ChannelWidgetMode::Shift => l.shift_press@,
        _ => Seq::empty(),
    }
}

/// The fourth line in layer `m`: the label of the layer shift would show, blank while
/// shift is held.
pub open spec fn label4_of(l: ChannelWidgetLabels, m: ChannelWidgetMode) -> Seq<char> {
    match m {
        ChannelWidgetMode::Default => l.shift@,
        ChannelWidgetMode::Press => l.shift_press@,
        _ => Seq::empty(),
    }
}

impl ChannelWidget {
    pub fn new(index: usize, labels: ChannelWidgetLabels, colors: ChannelWidgetColors) -> (r: Self)
        ensures
            r.core.mode == ChannelWidgetMode::Default,
            r.index == index,
            r.labels == labels,
            r.colors == colors,
    {
        ChannelWidget { core: ChannelWidgetCore::new(), index, labels, colors }
    }

    pub fn color(&self) -> (r: u32)
        ensures
            r == color_of(self.colors, self.core.mode),
    {
        match self.core.mode {
            ChannelWidgetMode::Default => self.colors.default,
            ChannelWidgetMode::Press => self.colors.press,
            ChannelWidgetMode::Shift => self.colors.shift,
            ChannelWidgetMode::ShiftPress => self.colors.shift_press,
        }
    }

    pub fn label1(&self) -> (r: &'static str)
        ensures
            r@ == label1_of(self.labels, self.core.mode),
    {
        match self.core.mode {
            ChannelWidgetMode::Default => self.labels.default,
            ChannelWidgetMode::Press => self.labels.press,
            ChannelWidgetMode::Shift => self.labels.shift,
            ChannelWidgetMode::ShiftPress => self.labels.shift_press,
        }
    }

    pub fn label3(&self) -> (r: &'static str)
        ensures
            r@ == label3_of(self.labels, self.core.mode),
    {
        match self.core.mode {
            ChannelWidgetMode::Default => self.labels.press,
            ChannelWidgetMode::Press => {
                let e = "";
                proof {
                    reveal_strlit("");
                }
                e
            },
            ChannelWidgetMode::Shift => self.labels.shift_press,
            ChannelWidgetMode::ShiftPress => {
                let e = "";
                proof {
                    reveal_strlit("");
                }
                e
            },
        }
    }

    pub fn label4(&self) -> (r: &'static str)
        ensures
            r@ == label4_of(self.labels, self.core.mode),
    {
        match self.core.mode {
            ChannelWidgetMode::Default => self.labels.shift,
            ChannelWidgetMode::Press => self.labels.shift_press,
            _ => {
                let e = "";
                proof {
                    reveal_strlit("");
                }
                e
            },
        }
    }

    /// Press or release of this widget's encoder switches the layer; anything else is
    /// left alone.
    pub fn handle_upstream_message(&mut self, msg: xtouch::UpstreamMsg)
        ensures
            final(self).index == old(self).index,
            final(self).labels == old(self).labels,
            final(self).colors == old(self).colors,
            final(self).core.mode == match msg {
                xtouch::UpstreamMsg::EncoderPress(m) => if m.idx as usize == old(self).index {
                    after_button_press(old(self).core.mode)
                } else {
                    old(self).core.mode
                },
                xtouch::UpstreamMsg::EncoderRelease(m) => if m.idx as usize == old(self).index {
                    after_button_release(old(self).core.mode)
                } else {
                    old(self).core.mode
                },
                _ => old(self).core.mode,
            },
    {
        match msg {
            xtouch::UpstreamMsg::EncoderPress(m) => {
                if m.idx as usize == self.index {
                    self.core.mode_change_button_press();
                }
            },
            xtouch::UpstreamMsg::EncoderRelease(m) => {
                if m.idx as usize == self.index {
                    self.core.mode_change_button_release();
                }
            },
            _ => {},
        }
    }
}

/// The names of the plugins on a track, by position in its chain.
pub struct ChannelStripMap {
    plugin_names_by_index: Vec<String>,
}

/// The names after `name` is reported at position `idx`: the list grows with blank
/// names to reach that position.
pub open spec fn names_after(names: Seq<Seq<char>>, idx: int, name: Seq<char>) -> Seq<Seq<char>> {
    let grown = if idx >= names.len() {
        names + Seq::new((idx + 1 - names.len()) as nat, |i: int| Seq::<char>::empty())
    } else {
        names
    };
    grown.update(idx, name)
}

impl ChannelStripMap {
    /// The name at each position.
    pub closed spec fn names(&self) -> Seq<Seq<char>> {
        self.plugin_names_by_index@.map_values(|s: String| s@)
    }

    pub fn new() -> (r: Self)
        ensures
            r.names() == Seq::<Seq<char>>::empty(),
    {
        let r = ChannelStripMap { plugin_names_by_index: Vec::new() };
        assert(r.names() =~= Seq::<Seq<char>>::empty());
        r
    }

    /// The name kept for position `idx`, if the list reaches it.
    pub fn name_at(&self, idx: usize) -> (r: Option<&str>)
        ensures
            r is Some <==> idx < self.names().len(),
            r matches Some(n) ==> n@ == self.names()[idx as int],
    {
        if idx < self.plugin_names_by_index.len() {
            Some(self.plugin_names_by_index[idx].as_str())
        } else {
            None
        }
    }

    /// Keep `plugin_name` as the name of the plugin at `plugin_index`.
    pub fn update_plugin_state(&mut self, plugin_index: i32, plugin_name: &str)
        requires
            0 <= plugin_index < i32::MAX,
        ensures
            final(self).names() == names_after(old(self).names(), plugin_index as int, plugin_name@),
    {
        let idx = plugin_index as usize;
        let ghost before = self.names();
        if self.plugin_names_by_index.len() <= idx {
            while self.plugin_names_by_index.len() <= idx
                invariant
                    before.len() <= self.plugin_names_by_index.len() <= idx + 1,
                    before.len() == old(self).plugin_names_by_index@.len(),
                    forall|q: int| 0 <= q < before.len() ==> #[trigger] self.names()[q] == before[q],
                    forall|q: int|
                        before.len() <= q < self.plugin_names_by_index.len() ==> #[trigger] self.names()[q]
                            == Seq::<char>::empty(),
                decreases idx + 1 - self.plugin_names_by_index.len(),
            {
                let ghost prev = self.names();
                let blank = String::new();
                self.plugin_names_by_index.push(blank);
                assert(forall|q: int| 0 <= q < prev.len() ==> #[trigger] self.names()[q] == prev[q]);
            }
        }
        let ghost grown = if plugin_index as int >= before.len() {
            before + Seq::new((plugin_index as int + 1 - before.len()) as nat, |i: int| Seq::<char>::empty())
        } else {
            before
        };
        assert(self.names() =~= grown);
        let ghost mid = self.names();
        let name = plugin_name.to_owned();
        self.plugin_names_by_index.set(idx, name);
        assert(self.names() =~= mid.update(idx as int, plugin_name@));
    }
}

/// From a layer where the encoder is not held, pressing and releasing it comes back to
/// that layer; likewise for shift.
pub proof fn law_press_release_round_trip(m: ChannelWidgetMode)
    ensures
        (m == ChannelWidgetMode::Default || m == ChannelWidgetMode::Shift) ==> after_button_release(
            after_button_press(m),
        ) == m,
        (m == ChannelWidgetMode::Default || m == ChannelWidgetMode::Press) ==> after_shift_release(
            after_shift_press(m),
        ) == m,
{
}

/// Shift and the encoder switch independent halves of the layer: pressing one and then
/// the other gives the same layer in either order.
pub proof fn law_presses_commute(m: ChannelWidgetMode)
    ensures
        after_shift_press(after_button_press(m)) == after_button_press(after_shift_press(m)),
        after_shift_release(after_button_release(m)) == after_button_release(after_shift_release(m)),
{
}

} // verus!
