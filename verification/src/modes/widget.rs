//! The state every channel-strip widget shares: which layer it shows, whether its encoder
//! is held, and the texts and colors of each layer.
use vstd::prelude::*;

use crate::midi::v1m;
use crate::modes::color::RgbColor;

verus! {

#[derive(Clone, Copy, Debug, PartialEq, Eq, Structural)]
pub enum WidgetMode {
    Disabled,
    Normal,
    Press,
    Shift,
    ShiftPress,
}

#[derive(Clone, Copy, Debug, PartialEq, Eq, Structural)]
pub enum EncoderTurn {
    Inc { accel: u8 },
    Dec { accel: u8 },
}

/// Which parts of a scribble strip need to be sent again.
#[derive(Clone, Copy, Debug, PartialEq, Eq, Structural)]
pub struct Dirty {
    pub bits: u8,
}

impl Dirty {
    /// No part.
    pub fn none() -> (r: Dirty)
        ensures
            r.spec_bits() == 0,
    {
        Dirty { bits: 0b000 }
    }

    /// The first text line.
    pub fn line1() -> (r: Dirty)
        ensures
            r.spec_bits() == 0b001,
    {
        Dirty { bits: 0b001 }
    }

    /// The second text line.
    pub fn line2() -> (r: Dirty)
        ensures
            r.spec_bits() == 0b010,
    {
        Dirty { bits: 0b010 }
    }

    /// The strip's colour.
    pub fn color() -> (r: Dirty)
        ensures
            r.spec_bits() == 0b100,
    {
        Dirty { bits: 0b100 }
    }

    pub open spec fn spec_bits(self) -> u8 {
        self.bits
    }

    pub fn bits(self) -> (r: u8)
        ensures
            r == self.spec_bits(),
    {
        self.bits
    }

    /// Both sets of parts.
    pub fn union(self, other: Dirty) -> (r: Dirty)
        ensures
            r.spec_bits() == self.spec_bits() | other.spec_bits(),
    {
        Dirty { bits: self.bits | other.bits }
    }

    /// Whether every part of `other` is in `self`.
    pub fn contains(self, other: Dirty) -> (r: bool)
        ensures
            r == (self.spec_bits() & other.spec_bits() == other.spec_bits()),
    {
        self.bits & other.bits == other.bits
    }

    /// Whether `self` and `other` share a part.
    pub fn intersects(self, other: Dirty) -> (r: bool)
        ensures
            r == (self.spec_bits() & other.spec_bits() != 0),
    {
        self.bits & other.bits != 0
    }

    /// All three parts.
    pub fn all() -> (r: Dirty)
        ensures
            r.spec_bits() == 0b111,
    {
        Dirty { bits: 0b111 }
    }

    /// Both text lines.
    pub fn lines() -> (r: Dirty)
        ensures
            r.spec_bits() == 0b011,
    {
        Dirty { bits: 0b011 }
    }
}

#[derive(Clone, Debug)]
pub struct HandledUpstreamOutcome {
    pub downstream_msgs: Vec<v1m::DownstreamMsg>,
    pub dirty: Dirty,
}

impl Default for HandledUpstreamOutcome {
    fn default() -> (r: Self)
        ensures
            r.downstream_msgs@ == Seq::<v1m::DownstreamMsg>::empty(),
            r.dirty.spec_bits() == 0,
    {
        HandledUpstreamOutcome { downstream_msgs: Vec::new(), dirty: Dirty::none() }
    }
}

impl HandledUpstreamOutcome {
    pub fn downstream(self, msg: v1m::DownstreamMsg) -> (r: Self)
        ensures
            r.downstream_msgs@ == self.downstream_msgs@.push(msg),
            r.dirty == self.dirty,
    {
        let mut s = self;
        s.downstream_msgs.push(msg);
        s
    }

    pub fn dirty(self, d: Dirty) -> (r: Self)
        ensures
            r.downstream_msgs@ == self.downstream_msgs@,
            r.dirty.spec_bits() == self.dirty.spec_bits() | d.spec_bits(),
    {
        let mut s = self;
        s.dirty = s.dirty.union(d);
        s
    }
}

#[derive(Clone, Debug)]
pub struct HandledDownstreamOutcome<U, S> {
    pub upstream_msgs: Vec<U>,
    pub downstream_msgs: Vec<v1m::DownstreamMsg>,
    pub dirty: Dirty,
    pub snapshot: Option<S>,
}

impl<U, S> Default for HandledDownstreamOutcome<U, S> {
    fn default() -> (r: Self)
        ensures
            r.upstream_msgs@ == Seq::<U>::empty(),
            r.downstream_msgs@ == Seq::<v1m::DownstreamMsg>::empty(),
            r.dirty.spec_bits() == 0,
            r.snapshot is None,
    {
        Self { upstream_msgs: Vec::new(), downstream_msgs: Vec::new(), dirty: Dirty::none(), snapshot: None }
    }
}

impl<U, S> HandledDownstreamOutcome<U, S> {
    pub fn upstream(self, msg: U) -> (r: Self)
        ensures
            r.upstream_msgs@ == self.upstream_msgs@.push(msg),
            r.downstream_msgs@ == self.downstream_msgs@,
            r.dirty == self.dirty,
            r.snapshot == self.snapshot,
    {
        let mut s = self;
        s.upstream_msgs.push(msg);
        s
    }

    pub fn downstream(self, msg: v1m::DownstreamMsg) -> (r: Self)
        ensures
            r.upstream_msgs@ == self.upstream_msgs@,
            r.downstream_msgs@ == self.downstream_msgs@.push(msg),
            r.dirty == self.dirty,
            r.snapshot == self.snapshot,
    {
        let mut s = self;
        s.downstream_msgs.push(msg);
        s
    }

    pub fn dirty(self, d: Dirty) -> (r: Self)
        ensures
            r.upstream_msgs@ == self.upstream_msgs@,
            r.downstream_msgs@ == self.downstream_msgs@,
            r.dirty.spec_bits() == self.dirty.spec_bits() | d.spec_bits(),
            r.snapshot == self.snapshot,
    {
        let mut s = self;
        s.dirty = s.dirty.union(d);
        s
    }

    pub fn snapshot(self, snapshot: S) -> (r: Self)
        ensures
            r.upstream_msgs@ == self.upstream_msgs@,
            r.downstream_msgs@ == self.downstream_msgs@,
            r.dirty == self.dirty,
            r.snapshot == Some(snapshot),
    {
        let mut s = self;
        s.snapshot = Some(snapshot);
        s
    }
}


/// The state of a widget, and its texts and colors for each layer.
pub struct WidgetView {
    pub mode: WidgetMode,
    pub encoder_pressed: bool,
    pub in_hold_mode: bool,
    pub line1_disabled: String,
    pub line1_normal: String,
    pub line1_shift: String,
    pub line2_disabled: String,
    pub line2_normal: String,
    pub line2_shift: String,
    pub color_disabled: RgbColor,
    pub color_normal: RgbColor,
    pub color_shift: RgbColor,
}

/// The hook of the widget that an encoder click calls first, if any.
#[derive(Clone, Copy, Debug, PartialEq, Eq, Structural)]
pub enum ClickHook {
    NoHook,
    Click,
    ShiftClick,
}

/// The mode a shift press leads to, if it changes anything.
pub open spec fn shift_press_target(mode: WidgetMode) -> Option<WidgetMode> {
    match mode {
        WidgetMode::Normal => Some(WidgetMode::Shift),
        WidgetMode::Press => Some(WidgetMode::ShiftPress),
        _ => None,
    }
}

/// The mode a shift release leads to, if it changes anything.
pub open spec fn shift_release_target(mode: WidgetMode) -> Option<WidgetMode> {
    match mode {
        WidgetMode::Shift => Some(WidgetMode::Normal),
        WidgetMode::ShiftPress => Some(WidgetMode::Press),
        _ => None,
    }
}

/// The hook an encoder click calls: on the press of the encoder, the click hook in the
/// normal and disabled layers and the shift-click hook in the shift layer.
pub open spec fn click_hook_of(pressed: bool, mode: WidgetMode) -> ClickHook {
    if pressed {
        ClickHook::NoHook
    } else {
        match mode {
            WidgetMode::Normal | WidgetMode::Disabled => ClickHook::Click,
            WidgetMode::Shift => ClickHook::ShiftClick,
            _ => ClickHook::NoHook,
        }
    }
}

impl WidgetView {
    pub fn new() -> (r: Self)
        ensures
            r.mode == WidgetMode::Disabled,
            !r.encoder_pressed,
            !r.in_hold_mode,
            r.line1_disabled@ == Seq::<char>::empty(),
            r.line1_normal@ == Seq::<char>::empty(),
            r.line1_shift@ == Seq::<char>::empty(),
            r.line2_disabled@ == Seq::<char>::empty(),
            r.line2_normal@ == Seq::<char>::empty(),
            r.line2_shift@ == Seq::<char>::empty(),
            r.color_disabled == (RgbColor { red: 0, green: 0, blue: 0 }),
            r.color_normal == (RgbColor { red: 0, green: 0, blue: 0 }),
            r.color_shift == (RgbColor { red: 0, green: 0, blue: 0 }),
    {
        Self {
            mode: WidgetMode::Disabled,
            encoder_pressed: false,
            in_hold_mode: false,
            line1_disabled: String::new(),
            line1_normal: String::new(),
            line1_shift: String::new(),
            line2_disabled: String::new(),
            line2_normal: String::new(),
            line2_shift: String::new(),
            color_disabled: RgbColor { red: 0, green: 0, blue: 0 },
            color_normal: RgbColor { red: 0, green: 0, blue: 0 },
            color_shift: RgbColor { red: 0, green: 0, blue: 0 },
        }
    }

    pub fn line1_disabled(self, txt: &str) -> (r: Self)
        ensures
            r.line1_disabled@ == txt@,
            r.mode == self.mode,
            r.encoder_pressed == self.encoder_pressed,
            r.in_hold_mode == self.in_hold_mode,
            r.line1_normal == self.line1_normal,
            r.line1_shift == self.line1_shift,
            r.line2_disabled == self.line2_disabled,
            r.line2_normal == self.line2_normal,
            r.line2_shift == self.line2_shift,
            r.color_disabled == self.color_disabled,
            r.color_normal == self.color_normal,
            r.color_shift == self.color_shift,
    {
        Self { line1_disabled: txt.to_string(), ..self }
    }

    pub fn line1_normal(self, txt: &str) -> (r: Self)
        ensures
            r.line1_normal@ == txt@,
            r.mode == self.mode,
            r.encoder_pressed == self.encoder_pressed,
            r.in_hold_mode == self.in_hold_mode,
            r.line1_disabled == self.line1_disabled,
            r.line1_shift == self.line1_shift,
            r.line2_disabled == self.line2_disabled,
            r.line2_normal == self.line2_normal,
            r.line2_shift == self.line2_shift,
            r.color_disabled == self.color_disabled,
            r.color_normal == self.color_normal,
            r.color_shift == self.color_shift,
    {
        Self { line1_normal: txt.to_string(), ..self }
    }

    pub fn line1_shift(self, txt: &str) -> (r: Self)
        ensures
            r.line1_shift@ == txt@,
            r.mode == self.mode,
            r.encoder_pressed == self.encoder_pressed,
            r.in_hold_mode == self.in_hold_mode,
            r.line1_disabled == self.line1_disabled,
            r.line1_normal == self.line1_normal,
            r.line2_disabled == self.line2_disabled,
            r.line2_normal == self.line2_normal,
            r.line2_shift == self.line2_shift,
            r.color_disabled == self.color_disabled,
            r.color_normal == self.color_normal,
            r.color_shift == self.color_shift,
    {
        Self { line1_shift: txt.to_string(), ..self }
    }

    pub fn line2_disabled(self, txt: &str) -> (r: Self)
        ensures
            r.line2_disabled@ == txt@,
            r.mode == self.mode,
            r.encoder_pressed == self.encoder_pressed,
            r.in_hold_mode == self.in_hold_mode,
            r.line1_disabled == self.line1_disabled,
            r.line1_normal == self.line1_normal,
            r.line1_shift == self.line1_shift,
            r.line2_normal == self.line2_normal,
            r.line2_shift == self.line2_shift,
            r.color_disabled == self.color_disabled,
            r.color_normal == self.color_normal,
            r.color_shift == self.color_shift,
    {
        Self { line2_disabled: txt.to_string(), ..self }
    }

    pub fn line2_normal(self, txt: &str) -> (r: Self)
        ensures
            r.line2_normal@ == txt@,
            r.mode == self.mode,
            r.encoder_pressed == self.encoder_pressed,
            r.in_hold_mode == self.in_hold_mode,
            r.line1_disabled == self.line1_disabled,
            r.line1_normal == self.line1_normal,
            r.line1_shift == self.line1_shift,
            r.line2_disabled == self.line2_disabled,
            r.line2_shift == self.line2_shift,
            r.color_disabled == self.color_disabled,
            r.color_normal == self.color_normal,
            r.color_shift == self.color_shift,
    {
        Self { line2_normal: txt.to_string(), ..self }
    }

    pub fn line2_shift(self, txt: &str) -> (r: Self)
        ensures
            r.line2_shift@ == txt@,
            r.mode == self.mode,
            r.encoder_pressed == self.encoder_pressed,
            r.in_hold_mode == self.in_hold_mode,
            r.line1_disabled == self.line1_disabled,
            r.line1_normal == self.line1_normal,
            r.line1_shift == self.line1_shift,
            r.line2_disabled == self.line2_disabled,
            r.line2_normal == self.line2_normal,
            r.color_disabled == self.color_disabled,
            r.color_normal == self.color_normal,
            r.color_shift == self.color_shift,
    {
        Self { line2_shift: txt.to_string(), ..self }
    }

    pub fn color_disabled(self, color: RgbColor) -> (r: Self)
        ensures
            r.color_disabled == color,
            r.mode == self.mode,
            r.encoder_pressed == self.encoder_pressed,
            r.in_hold_mode == self.in_hold_mode,
            r.line1_disabled == self.line1_disabled,
            r.line1_normal == self.line1_normal,
            r.line1_shift == self.line1_shift,
            r.line2_disabled == self.line2_disabled,
            r.line2_normal == self.line2_normal,
            r.line2_shift == self.line2_shift,
            r.color_normal == self.color_normal,
            r.color_shift == self.color_shift,
    {
        Self { color_disabled: color, ..self }
    }

    pub fn color_normal(self, color: RgbColor) -> (r: Self)
        ensures
            r.color_normal == color,
            r.mode == self.mode,
            r.encoder_pressed == self.encoder_pressed,
            r.in_hold_mode == self.in_hold_mode,
            r.line1_disabled == self.line1_disabled,
            r.line1_normal == self.line1_normal,
            r.line1_shift == self.line1_shift,
            r.line2_disabled == self.line2_disabled,
            r.line2_normal == self.line2_normal,
            r.line2_shift == self.line2_shift,
            r.color_disabled == self.color_disabled,
            r.color_shift == self.color_shift,
    {
        Self { color_normal: color, ..self }
    }

    pub fn color_shift(self, color: RgbColor) -> (r: Self)
        ensures
            r.color_shift == color,
            r.mode == self.mode,
            r.encoder_pressed == self.encoder_pressed,
            r.in_hold_mode == self.in_hold_mode,
            r.line1_disabled == self.line1_disabled,
            r.line1_normal == self.line1_normal,
            r.line1_shift == self.line1_shift,
            r.line2_disabled == self.line2_disabled,
            r.line2_normal == self.line2_normal,
            r.line2_shift == self.line2_shift,
            r.color_disabled == self.color_disabled,
            r.color_normal == self.color_normal,
    {
        Self { color_shift: color, ..self }
    }

    pub fn starting_mode(self, mode: WidgetMode) -> (r: Self)
        ensures
            r.mode == mode,
            r.encoder_pressed == self.encoder_pressed,
            r.in_hold_mode == self.in_hold_mode,
            r.line1_disabled == self.line1_disabled,
            r.line1_normal == self.line1_normal,
            r.line1_shift == self.line1_shift,
            r.line2_disabled == self.line2_disabled,
            r.line2_normal == self.line2_normal,
            r.line2_shift == self.line2_shift,
            r.color_disabled == self.color_disabled,
            r.color_normal == self.color_normal,
            r.color_shift == self.color_shift,
    {
        Self { mode, ..self }
    }

    /// The upper line shown in the current mode.
    pub open spec fn spec_line1(&self) -> String {
        match self.mode {
            WidgetMode::Disabled => self.line1_disabled,
            WidgetMode::Normal | WidgetMode::Press => self.line1_normal,
            WidgetMode::Shift | WidgetMode::ShiftPress => self.line1_shift,
        }
    }

    /// The lower line shown in the current mode.
    pub open spec fn spec_line2(&self) -> String {
        match self.mode {
            WidgetMode::Disabled => self.line2_disabled,
            WidgetMode::Normal | WidgetMode::Press => self.line2_normal,
            WidgetMode::Shift | WidgetMode::ShiftPress => self.line2_shift,
        }
    }

    /// The color shown in the current mode.
    pub open spec fn spec_color(&self) -> RgbColor {
        match self.mode {
            WidgetMode::Disabled => self.color_disabled,
            WidgetMode::Normal | WidgetMode::Press => self.color_normal,
            WidgetMode::Shift | WidgetMode::ShiftPress => self.color_shift,
        }
    }

    pub fn line1_text(&self) -> (r: String)
        ensures
            r == self.spec_line1(),
    {
        match self.mode {
            WidgetMode::Disabled => self.line1_disabled.clone(),
            WidgetMode::Normal => self.line1_normal.clone(),
            WidgetMode::Press => self.line1_normal.clone(),
            WidgetMode::Shift => self.line1_shift.clone(),
            WidgetMode::ShiftPress => self.line1_shift.clone(),
        }
    }

    pub fn line2_text(&self) -> (r: String)
        ensures
            r == self.spec_line2(),
    {
        match self.mode {
            WidgetMode::Disabled => self.line2_disabled.clone(),
            WidgetMode::Normal => self.line2_normal.clone(),
            WidgetMode::Press => self.line2_normal.clone(),
            WidgetMode::Shift => self.line2_shift.clone(),
            WidgetMode::ShiftPress => self.line2_shift.clone(),
        }
    }

    pub fn color(&self) -> (r: RgbColor)
        ensures
            r == self.spec_color(),
    {
        match self.mode {
            WidgetMode::Disabled => self.color_disabled,
            WidgetMode::Normal => self.color_normal,
            WidgetMode::Press => self.color_normal,
            WidgetMode::Shift => self.color_shift,
            WidgetMode::ShiftPress => self.color_shift,
        }
    }

    /// Shift pressed: normal becomes shift and press becomes shift-press, and the whole
    /// strip is to be redrawn; otherwise nothing happens (`None`).
    pub fn handle_shift_press(&mut self) -> (r: Option<Dirty>)
        ensures
            match shift_press_target(old(self).mode) {
                Some(m) => final(self).mode == m && r == Some(Dirty { bits: 0b111 }),
                None => final(self).mode == old(self).mode && r is None,
            },
            final(self).encoder_pressed == old(self).encoder_pressed,
            final(self).in_hold_mode == old(self).in_hold_mode,
    {
        match self.mode {
            WidgetMode::Normal => {
                self.mode = WidgetMode::Shift;
                Some(Dirty::all())
            },
            WidgetMode::Press => {
                self.mode = WidgetMode::ShiftPress;
                Some(Dirty::all())
            },
            _ => None,
        }
    }

    /// Shift released: shift becomes normal and shift-press becomes press, and the whole
    /// strip is to be redrawn; otherwise nothing happens (`None`).
    pub fn handle_shift_release(&mut self) -> (r: Option<Dirty>)
        ensures
            match shift_release_target(old(self).mode) {
                Some(m) => final(self).mode == m && r == Some(Dirty { bits: 0b111 }),
                None => final(self).mode == old(self).mode && r is None,
            },
            final(self).encoder_pressed == old(self).encoder_pressed,
            final(self).in_hold_mode == old(self).in_hold_mode,
    {
        match self.mode {
            WidgetMode::Shift => {
                self.mode = WidgetMode::Normal;
                Some(Dirty::all())
            },
            WidgetMode::ShiftPress => {
                self.mode = WidgetMode::Press;
                Some(Dirty::all())
            },
            _ => None,
        }
    }

    /// The hook that an encoder click calls before anything else, if any.
    pub fn click_hook(&self) -> (r: ClickHook)
        ensures
            r == click_hook_of(self.encoder_pressed, self.mode),
    {
        if self.encoder_pressed {
            ClickHook::NoHook
        } else {
            match self.mode {
                WidgetMode::Normal | WidgetMode::Disabled => ClickHook::Click,
                WidgetMode::Shift => ClickHook::ShiftClick,
                _ => ClickHook::NoHook,
            }
        }
    }

    /// An encoder click (press or release, alternately) once the hook that `click_hook`
    /// named has run; `handled` tells whether the hook produced an outcome of its own.
    ///
    /// On a press whose hook produced nothing, the widget enters the pressed layer (press
    /// or shift-press) held, and both lines are to be redrawn. On a release from a held
    /// pressed layer, it goes back to the layer it came from. The press flag flips either
    /// way. `None` when the widget itself has nothing to redraw.
    pub fn handle_encoder_click(&mut self, hook: ClickHook, handled: bool) -> (r: Option<Dirty>)
        ensures
            final(self).encoder_pressed == (if hook == ClickHook::NoHook {
                !old(self).encoder_pressed
            } else {
                true
            }),
            hook == ClickHook::Click && !handled ==> final(self).mode == WidgetMode::Press
                && final(self).in_hold_mode && r == Some(Dirty { bits: 0b011 }),
            hook == ClickHook::ShiftClick && !handled ==> final(self).mode == WidgetMode::ShiftPress
                && final(self).in_hold_mode && r == Some(Dirty { bits: 0b011 }),
            hook != ClickHook::NoHook && handled ==> final(self).mode == old(self).mode
                && final(self).in_hold_mode == old(self).in_hold_mode && r is None,
            hook == ClickHook::NoHook && !old(self).encoder_pressed ==> final(self).mode == old(self).mode
                && final(self).in_hold_mode == old(self).in_hold_mode && r is None,
            hook == ClickHook::NoHook && old(self).encoder_pressed ==> (
                if old(self).in_hold_mode && old(self).mode == WidgetMode::Press {
                    final(self).mode == WidgetMode::Normal && !final(self).in_hold_mode && r == Some(Dirty { bits: 0b011 })
                } else if old(self).in_hold_mode && old(self).mode == WidgetMode::ShiftPress {
                    final(self).mode == WidgetMode::Shift && !final(self).in_hold_mode && r == Some(Dirty { bits: 0b011 })
                } else {
                    final(self).mode == old(self).mode && final(self).in_hold_mode == old(self).in_hold_mode && r is None
                }),
    {
        match hook {
            ClickHook::Click => {
                self.encoder_pressed = true;
                if handled {
                    None
                } else {
                    self.mode = WidgetMode::Press;
                    self.in_hold_mode = true;
                    Some(Dirty::lines())
                }
            },
            ClickHook::ShiftClick => {
                self.encoder_pressed = true;
                if handled {
                    None
                } else {
                    self.mode = WidgetMode::ShiftPress;
                    self.in_hold_mode = true;
                    Some(Dirty::lines())
                }
            },
            ClickHook::NoHook => {
                if !self.encoder_pressed {
                    self.encoder_pressed = true;
                    None
                } else {
                    self.encoder_pressed = false;
                    match self.mode {
                        WidgetMode::Press => {
                            if self.in_hold_mode {
                                self.in_hold_mode = false;
                                self.mode = WidgetMode::Normal;
                                Some(Dirty::lines())
                            } else {
                                None
                            }
                        },
                        WidgetMode::ShiftPress => {
                            if self.in_hold_mode {
                                self.in_hold_mode = false;
                                self.mode = WidgetMode::Shift;
                                Some(Dirty::lines())
                            } else {
                                None
                            }
                        },
                        _ => None,
                    }
                }
            },
        }
    }
}

/// A shift press undone by a shift release leaves the widget in the mode it was in.
pub proof fn law_shift_round_trip(mode: WidgetMode)
    ensures
        shift_press_target(mode) matches Some(m) ==> shift_release_target(m) == Some(mode),
{
}

/// Shift never reaches a disabled widget: pressing or releasing it leaves it disabled.
pub proof fn law_disabled_ignores_shift()
    ensures
        shift_press_target(WidgetMode::Disabled) is None,
        shift_release_target(WidgetMode::Disabled) is None,
{
}

} // verus!
