//! The channel-strip widgets whose settings are stepped, not continuous: the EQ position
//! and the compressor type.
use vstd::prelude::*;

use crate::modes::color;
use crate::modes::reaper_channel_strip_router::{
    BandMode, ChannelStripMsg, CompBypass, CompOrder, CompType, EqBypass, EqPosition, EqType,
};
use crate::modes::widget::{
    Dirty, EncoderTurn, HandledDownstreamOutcome, HandledUpstreamOutcome, WidgetMode, WidgetView,
};

verus! {

/// The other setting of a compressor's in/out switch.
pub open spec fn flipped(b: CompBypass) -> CompBypass {
    match b {
        CompBypass::IN => CompBypass::OUT,
        CompBypass::OUT => CompBypass::IN,
    }
}

/// What the widgets know of the channel strip's plugins. Frequencies carry the bits of
/// their `f32`.
#[derive(Clone, Debug)]
pub struct ChannelStripSnapshot {
    pub eq_enabled: Option<bool>,
    pub eq_type: Option<EqType>,
    pub eq_pos: Option<EqPosition>,
    pub low_mode: Option<BandMode>,
    pub high_mode: Option<BandMode>,
    pub comp1_enabled: Option<bool>,
    pub comp2_enabled: Option<bool>,
    pub comp1_type: Option<CompType>,
    pub comp2_type: Option<CompType>,
    pub comp_1_sidechain_freq: Option<u32>,
    pub comp_2_sidechain_freq: Option<u32>,
    pub comp_order: Option<CompOrder>,
}

impl Default for ChannelStripSnapshot {
    fn default() -> (r: Self)
        ensures
            r.eq_enabled is None,
            r.eq_type is None,
            r.eq_pos is None,
            r.low_mode is None,
            r.high_mode is None,
            r.comp1_enabled is None,
            r.comp2_enabled is None,
            r.comp1_type is None,
            r.comp2_type is None,
            r.comp_1_sidechain_freq is None,
            r.comp_2_sidechain_freq is None,
            r.comp_order is None,
    {
        ChannelStripSnapshot {
            eq_enabled: None,
            eq_type: None,
            eq_pos: None,
            low_mode: None,
            high_mode: None,
            comp1_enabled: None,
            comp2_enabled: None,
            comp1_type: None,
            comp2_type: None,
            comp_1_sidechain_freq: None,
            comp_2_sidechain_freq: None,
            comp_order: None,
        }
    }
}

pub type DownstreamOutcome = HandledDownstreamOutcome<ChannelStripMsg, ChannelStripSnapshot>;

pub type UpstreamOutcome = HandledUpstreamOutcome;

/// Whether `b` is `a` with at most the texts marked `true` changed.
pub open spec fn same_view_but(
    a: WidgetView,
    b: WidgetView,
    line1_normal: bool,
    line2_normal: bool,
    line1_shift: bool,
    line2_shift: bool,
) -> bool {
    &&& b.mode == a.mode
    &&& b.encoder_pressed == a.encoder_pressed
    &&& b.in_hold_mode == a.in_hold_mode
    &&& b.line1_disabled == a.line1_disabled
    &&& (!line1_normal ==> b.line1_normal == a.line1_normal)
    &&& (!line2_normal ==> b.line2_normal == a.line2_normal)
    &&& (!line1_shift ==> b.line1_shift == a.line1_shift)
    &&& (!line2_shift ==> b.line2_shift == a.line2_shift)
    &&& b.line2_disabled == a.line2_disabled
    &&& b.color_disabled == a.color_disabled
    &&& b.color_normal == a.color_normal
    &&& b.color_shift == a.color_shift
}

/// Whether `o` sends exactly `msg` upstream, nothing downstream, marks exactly `dirty`
/// and carries no snapshot.
pub open spec fn sends_only(o: DownstreamOutcome, msg: ChannelStripMsg, dirty: u8) -> bool {
    &&& o.upstream_msgs@ == seq![msg]
    &&& o.downstream_msgs@.len() == 0
    &&& o.dirty.spec_bits() == dirty
    &&& o.snapshot is None
}

/// Whether `o` changes nothing but marks exactly `dirty`.
pub open spec fn marks_only(o: UpstreamOutcome, dirty: u8) -> bool {
    &&& o.downstream_msgs@.len() == 0
    &&& o.dirty.spec_bits() == dirty
}

fn outcome_of(msg: ChannelStripMsg, dirty: Dirty) -> (r: DownstreamOutcome)
    ensures
        sends_only(r, msg, dirty.spec_bits()),
{
    let r = DownstreamOutcome::default().upstream(msg).dirty(dirty);
    assert(0u8 | dirty.spec_bits() == dirty.spec_bits()) by (bit_vector);
    r
}

fn marking(dirty: Dirty) -> (r: UpstreamOutcome)
    ensures
        marks_only(r, dirty.spec_bits()),
{
    let r = UpstreamOutcome::default().dirty(dirty);
    assert(0u8 | dirty.spec_bits() == dirty.spec_bits()) by (bit_vector);
    r
}

/// Encoder 10: EQ position, and in the shift layer the order of the compressors; a click
/// switches the EQ in or out.
pub struct EqPosWidget {
    hw_idx: usize,
    view: WidgetView,
    eq_pos: EqPosition,
    eq_in: EqBypass,
    comp_order: CompOrder,
    eq_type: EqType,
}

impl EqPosWidget {
    pub closed spec fn spec_hw_idx(&self) -> usize {
        self.hw_idx
    }

    pub closed spec fn spec_view(&self) -> WidgetView {
        self.view
    }

    pub closed spec fn spec_eq_pos(&self) -> EqPosition {
        self.eq_pos
    }

    pub closed spec fn spec_eq_in(&self) -> EqBypass {
        self.eq_in
    }

    pub closed spec fn spec_comp_order(&self) -> CompOrder {
        self.comp_order
    }

    pub closed spec fn spec_eq_type(&self) -> EqType {
        self.eq_type
    }

    pub fn view(&self) -> (r: &WidgetView)
        ensures
            *r == self.spec_view(),
    {
        &self.view
    }

    pub fn view_mut(&mut self) -> (r: &mut WidgetView)
        ensures
            *r == old(self).spec_view(),
            final(self).spec_view() == *final(r),
            final(self).spec_hw_idx() == old(self).spec_hw_idx(),
            final(self).spec_eq_pos() == old(self).spec_eq_pos(),
            final(self).spec_eq_in() == old(self).spec_eq_in(),
            final(self).spec_comp_order() == old(self).spec_comp_order(),
            final(self).spec_eq_type() == old(self).spec_eq_type(),
    {
        &mut self.view
    }

    pub fn new(hw_idx: usize) -> (r: Self)
        ensures
            r.spec_hw_idx() == hw_idx,
            r.spec_eq_pos() == EqPosition::First,
            r.spec_eq_in() == EqBypass::IN,
            r.spec_comp_order() == CompOrder::C1toC2,
            r.spec_eq_type() == EqType::Digital,
            r.spec_view().mode == WidgetMode::Normal,
            !r.spec_view().encoder_pressed,
            !r.spec_view().in_hold_mode,
            r.spec_view().line1_normal@ == EqPosition::First.spec_label(),
            r.spec_view().line2_normal@ == EqBypass::IN.spec_label(),
            r.spec_view().line1_shift@ == "CmpOrdr"@,
            r.spec_view().line2_shift@ == CompOrder::C1toC2.spec_label(),
            r.spec_view().line1_disabled@.len() == 0,
            r.spec_view().line2_disabled@.len() == 0,
            r.spec_view().color_normal == (color::RgbColor { red: 0, green: 0, blue: 0 }),
            r.spec_view().color_shift == (color::RgbColor { red: 0, green: 0, blue: 0 }),
            r.spec_view().color_disabled == (color::RgbColor { red: 0, green: 0, blue: 0 }),
    {
        let default_eq_pos = EqPosition::First;
        let default_eq_in = EqBypass::IN;
        let default_comp_order = CompOrder::C1toC2;
        let default_eq_type = EqType::Digital;
        Self {
            hw_idx,
            view: WidgetView::new().line1_normal(default_eq_pos.as_str()).line2_normal(
                default_eq_in.as_str(),
            ).line1_shift("CmpOrdr").line2_shift(default_comp_order.as_str()).color_normal(
                color::black(),
            ).color_shift(color::black()).starting_mode(WidgetMode::Normal),
            eq_pos: default_eq_pos,
            eq_in: default_eq_in,
            comp_order: default_comp_order,
            eq_type: default_eq_type,
        }
    }

    /// Take the EQ type from the snapshot, if it has one.
    pub fn handle_snapshot(&mut self, snapshot: &ChannelStripSnapshot) -> (r: Option<
        DownstreamOutcome,
    >)
        ensures
            r is None,
            final(self).spec_eq_type() == match snapshot.eq_type {
                Some(t) => t,
                None => old(self).spec_eq_type(),
            },
            final(self).spec_view() == old(self).spec_view(),
            final(self).spec_hw_idx() == old(self).spec_hw_idx(),
            final(self).spec_eq_pos() == old(self).spec_eq_pos(),
            final(self).spec_eq_in() == old(self).spec_eq_in(),
            final(self).spec_comp_order() == old(self).spec_comp_order(),
    {
        if let Some(eq_type) = snapshot.eq_type {
            self.eq_type = eq_type;
        }
        None
    }

    /// A click flips the EQ switch between in and out, shows the new setting on the
    /// second line, and asks for the EQ to be enabled with the known type or disabled.
    pub fn on_click(&mut self) -> (r: Option<DownstreamOutcome>)
        ensures
            final(self).spec_eq_in() == match old(self).spec_eq_in() {
                EqBypass::IN => EqBypass::OUT,
                EqBypass::OUT => EqBypass::IN,
            },
            r matches Some(o) && sends_only(
                o,
                match final(self).spec_eq_in() {
                    EqBypass::IN => ChannelStripMsg::EnableEq(old(self).spec_eq_type()),
                    EqBypass::OUT => ChannelStripMsg::DisableEq,
                },
                0b010,
            ),
            final(self).spec_view().line2_normal@ == final(self).spec_eq_in().spec_label(),
            same_view_but(old(self).spec_view(), final(self).spec_view(), false, true, false, false),
            final(self).spec_hw_idx() == old(self).spec_hw_idx(),
            final(self).spec_eq_pos() == old(self).spec_eq_pos(),
            final(self).spec_comp_order() == old(self).spec_comp_order(),
            final(self).spec_eq_type() == old(self).spec_eq_type(),
    {
        self.eq_in = self.eq_in.next();
        self.view.line2_normal = self.eq_in.as_str().to_string();
        Some(
            match self.eq_in {
                EqBypass::IN => outcome_of(ChannelStripMsg::EnableEq(self.eq_type), Dirty::line2()),
                EqBypass::OUT => outcome_of(ChannelStripMsg::DisableEq, Dirty::line2()),
            },
        )
    }

    /// A turn steps the EQ position, or in the shift layers the compressor order; a
    /// disabled widget ignores it.
    pub fn handle_encoder_turn(&mut self, turn: EncoderTurn) -> (r: Option<DownstreamOutcome>)
        ensures
            final(self).spec_hw_idx() == old(self).spec_hw_idx(),
            final(self).spec_eq_in() == old(self).spec_eq_in(),
            final(self).spec_eq_type() == old(self).spec_eq_type(),
            match old(self).spec_view().mode {
                WidgetMode::Disabled => {
                    &&& r is None
                    &&& final(self).spec_view() == old(self).spec_view()
                    &&& final(self).spec_eq_pos() == old(self).spec_eq_pos()
                    &&& final(self).spec_comp_order() == old(self).spec_comp_order()
                },
                WidgetMode::Normal | WidgetMode::Press => {
                    let pos = match turn {
                        EncoderTurn::Inc { .. } => EqPosition::spec_at(
                            (old(self).spec_eq_pos().spec_index() + 1) % 3,
                        ),
                        EncoderTurn::Dec { .. } => EqPosition::spec_at(
                            (old(self).spec_eq_pos().spec_index() + 2) % 3,
                        ),
                    };
                    &&& final(self).spec_eq_pos() == pos
                    &&& final(self).spec_comp_order() == old(self).spec_comp_order()
                    &&& final(self).spec_view().line1_normal@ == pos.spec_label()
                    &&& same_view_but(
                        old(self).spec_view(),
                        final(self).spec_view(),
                        true,
                        false,
                        false,
                        false,
                    )
                    &&& r matches Some(o) && sends_only(o, ChannelStripMsg::EqPos(pos), 0b011)
                },
                WidgetMode::Shift | WidgetMode::ShiftPress => {
                    let order = match turn {
                        EncoderTurn::Inc { .. } => CompOrder::spec_at(
                            (old(self).spec_comp_order().spec_index() + 1) % 2,
                        ),
                        EncoderTurn::Dec { .. } => CompOrder::spec_at(
                            (old(self).spec_comp_order().spec_index() + 1) % 2,
                        ),
                    };
                    &&& final(self).spec_comp_order() == order
                    &&& final(self).spec_eq_pos() == old(self).spec_eq_pos()
                    &&& final(self).spec_view().line2_shift@ == order.spec_label()
                    &&& same_view_but(
                        old(self).spec_view(),
                        final(self).spec_view(),
                        false,
                        false,
                        false,
                        true,
                    )
                    &&& r matches Some(o) && sends_only(o, ChannelStripMsg::CompOrder(order), 0b010)
                },
            },
    {
        match self.view.mode {
            WidgetMode::Disabled => None,
            WidgetMode::Normal | WidgetMode::Press => {
                self.eq_pos = self.eq_pos.step(turn);
                self.view.line1_normal = self.eq_pos.as_str().to_string();
                Some(outcome_of(ChannelStripMsg::EqPos(self.eq_pos), Dirty::lines()))
            },
            WidgetMode::Shift | WidgetMode::ShiftPress => {
                self.comp_order = self.comp_order.step(turn);
                self.view.line2_shift = self.comp_order.as_str().to_string();
                Some(outcome_of(ChannelStripMsg::CompOrder(self.comp_order), Dirty::line2()))
            },
        }
    }

    /// Nothing from upstream concerns this widget.
    pub fn handle_message_from_upstream(&mut self, msg: ChannelStripMsg) -> (r: UpstreamOutcome)
        ensures
            marks_only(r, 0),
            *final(self) == *old(self),
    {
        UpstreamOutcome::default()
    }
}

/// Encoder 14: the type of the first compressor, and in the shift layer that of the
/// second; a click and a shift-click switch them in or out.
pub struct CompTypeWidget {
    hw_idx: usize,
    view: WidgetView,
    comp1_type: CompType,
    comp2_type: CompType,
    comp1_in: CompBypass,
    comp2_in: CompBypass,
}

impl CompTypeWidget {
    pub closed spec fn spec_hw_idx(&self) -> usize {
        self.hw_idx
    }

    pub closed spec fn spec_view(&self) -> WidgetView {
        self.view
    }

    pub closed spec fn spec_comp1_type(&self) -> CompType {
        self.comp1_type
    }

    pub closed spec fn spec_comp2_type(&self) -> CompType {
        self.comp2_type
    }

    pub closed spec fn spec_comp1_in(&self) -> CompBypass {
        self.comp1_in
    }

    pub closed spec fn spec_comp2_in(&self) -> CompBypass {
        self.comp2_in
    }

    pub fn view(&self) -> (r: &WidgetView)
        ensures
            *r == self.spec_view(),
    {
        &self.view
    }

    pub fn view_mut(&mut self) -> (r: &mut WidgetView)
        ensures
            *r == old(self).spec_view(),
            final(self).spec_view() == *final(r),
            final(self).spec_hw_idx() == old(self).spec_hw_idx(),
            final(self).spec_comp1_type() == old(self).spec_comp1_type(),
            final(self).spec_comp2_type() == old(self).spec_comp2_type(),
            final(self).spec_comp1_in() == old(self).spec_comp1_in(),
            final(self).spec_comp2_in() == old(self).spec_comp2_in(),
    {
        &mut self.view
    }

    /// The widget starts disabled; its texts show the default types, the first
    /// compressor in and the second out, though both switches start in.
    pub fn new(hw_idx: usize) -> (r: Self)
        ensures
            r.spec_hw_idx() == hw_idx,
            r.spec_comp1_type() == CompType::Eleven76,
            r.spec_comp2_type() == CompType::LA2A,
            r.spec_comp1_in() == CompBypass::IN,
            r.spec_comp2_in() == CompBypass::IN,
            r.spec_view().mode == WidgetMode::Disabled,
            !r.spec_view().encoder_pressed,
            !r.spec_view().in_hold_mode,
            r.spec_view().line1_normal@ == CompType::Eleven76.spec_label(),
            r.spec_view().line2_normal@ == CompBypass::IN.spec_label(),
            r.spec_view().line1_shift@ == CompType::LA2A.spec_label(),
            r.spec_view().line2_shift@ == CompBypass::OUT.spec_label(),
            r.spec_view().line1_disabled@.len() == 0,
            r.spec_view().line2_disabled@.len() == 0,
            r.spec_view().color_normal == (color::RgbColor { red: 255, green: 191, blue: 0 }),
            r.spec_view().color_shift == (color::RgbColor { red: 255, green: 255, blue: 255 }),
            r.spec_view().color_disabled == (color::RgbColor { red: 0, green: 0, blue: 0 }),
    {
        let default_comp1_type = CompType::Eleven76;
        let default_comp2_type = CompType::LA2A;
        let default_comp1_bypass = CompBypass::IN;
        let default_comp2_bypass = CompBypass::OUT;
        Self {
            hw_idx,
            view: WidgetView::new().line1_normal(default_comp1_type.as_str()).line2_normal(
                default_comp1_bypass.as_str(),
            ).line1_shift(default_comp2_type.as_str()).line2_shift(default_comp2_bypass.as_str()).color_normal(color::amber()).color_shift(color::white()),
            comp1_type: default_comp1_type,
            comp2_type: default_comp2_type,
            comp1_in: CompBypass::IN,
            comp2_in: CompBypass::IN,
        }
    }

    /// A click flips the first compressor's switch between in and out, shows the new
    /// setting, and asks for that compressor to be enabled with its type or disabled.
    pub fn on_click(&mut self) -> (r: Option<DownstreamOutcome>)
        ensures
            final(self).spec_comp1_in() == flipped(old(self).spec_comp1_in()),
            r matches Some(o) && sends_only(
                o,
                match final(self).spec_comp1_in() {
                    CompBypass::IN => ChannelStripMsg::EnableComp1(old(self).spec_comp1_type()),
                    CompBypass::OUT => ChannelStripMsg::DisableComp1,
                },
                0b010,
            ),
            final(self).spec_view().line2_normal@ == final(self).spec_comp1_in().spec_label(),
            same_view_but(old(self).spec_view(), final(self).spec_view(), false, true, false, false),
            final(self).spec_hw_idx() == old(self).spec_hw_idx(),
            final(self).spec_comp1_type() == old(self).spec_comp1_type(),
            final(self).spec_comp2_type() == old(self).spec_comp2_type(),
            final(self).spec_comp2_in() == old(self).spec_comp2_in(),
    {
        self.comp1_in = self.comp1_in.next();
        self.view.line2_normal = self.comp1_in.as_str().to_string();
        Some(
            match self.comp1_in {
                CompBypass::IN => outcome_of(ChannelStripMsg::EnableComp1(self.comp1_type), Dirty::line2()),
                CompBypass::OUT => outcome_of(ChannelStripMsg::DisableComp1, Dirty::line2()),
            },
        )
    }

    /// A shift-click does the same for the second compressor, on the shift layer.
    pub fn on_shift_click(&mut self) -> (r: Option<DownstreamOutcome>)
        ensures
            final(self).spec_comp2_in() == flipped(old(self).spec_comp2_in()),
            r matches Some(o) && sends_only(
                o,
                match final(self).spec_comp2_in() {
                    CompBypass::IN => ChannelStripMsg::EnableComp2(old(self).spec_comp2_type()),
                    CompBypass::OUT => ChannelStripMsg::DisableComp2,
                },
                0b010,
            ),
            final(self).spec_view().line2_shift@ == final(self).spec_comp2_in().spec_label(),
            same_view_but(old(self).spec_view(), final(self).spec_view(), false, false, false, true),
            final(self).spec_hw_idx() == old(self).spec_hw_idx(),
            final(self).spec_comp1_type() == old(self).spec_comp1_type(),
            final(self).spec_comp2_type() == old(self).spec_comp2_type(),
            final(self).spec_comp1_in() == old(self).spec_comp1_in(),
    {
        self.comp2_in = self.comp2_in.next();
        self.view.line2_shift = self.comp2_in.as_str().to_string();
        Some(
            match self.comp2_in {
                CompBypass::IN => outcome_of(ChannelStripMsg::EnableComp2(self.comp2_type), Dirty::line2()),
                CompBypass::OUT => outcome_of(ChannelStripMsg::DisableComp2, Dirty::line2()),
            },
        )
    }

    /// A turn steps the first compressor's type in the normal layer and the second's in
    /// the shift layer; in the other layers it is ignored.
    pub fn handle_encoder_turn(&mut self, turn: EncoderTurn) -> (r: Option<DownstreamOutcome>)
        ensures
            final(self).spec_hw_idx() == old(self).spec_hw_idx(),
            final(self).spec_comp1_in() == old(self).spec_comp1_in(),
            final(self).spec_comp2_in() == old(self).spec_comp2_in(),
            match old(self).spec_view().mode {
                WidgetMode::Normal => {
                    let t = match turn {
                        EncoderTurn::Inc { .. } => CompType::spec_at(
                            (old(self).spec_comp1_type().spec_index() + 1) % 6,
                        ),
                        EncoderTurn::Dec { .. } => CompType::spec_at(
                            (old(self).spec_comp1_type().spec_index() + 5) % 6,
                        ),
                    };
                    &&& final(self).spec_comp1_type() == t
                    &&& final(self).spec_comp2_type() == old(self).spec_comp2_type()
                    &&& final(self).spec_view().line1_normal@ == t.spec_label()
                    &&& same_view_but(
                        old(self).spec_view(),
                        final(self).spec_view(),
                        true,
                        false,
                        false,
                        false,
                    )
                    &&& r matches Some(o) && sends_only(o, ChannelStripMsg::CompType(t), 0b001)
                },
                WidgetMode::Shift => {
                    let t = match turn {
                        EncoderTurn::Inc { .. } => CompType::spec_at(
                            (old(self).spec_comp2_type().spec_index() + 1) % 6,
                        ),
                        EncoderTurn::Dec { .. } => CompType::spec_at(
                            (old(self).spec_comp2_type().spec_index() + 5) % 6,
                        ),
                    };
                    &&& final(self).spec_comp2_type() == t
                    &&& final(self).spec_comp1_type() == old(self).spec_comp1_type()
                    &&& final(self).spec_view().line1_shift@ == t.spec_label()
                    &&& same_view_but(
                        old(self).spec_view(),
                        final(self).spec_view(),
                        false,
                        false,
                        true,
                        false,
                    )
                    &&& r matches Some(o) && sends_only(o, ChannelStripMsg::Comp2Type(t), 0b001)
                },
                _ => {
                    &&& r is None
                    &&& final(self).spec_view() == old(self).spec_view()
                    &&& final(self).spec_comp1_type() == old(self).spec_comp1_type()
                    &&& final(self).spec_comp2_type() == old(self).spec_comp2_type()
                },
            },
    {
        match self.view.mode {
            WidgetMode::Disabled => None,
            WidgetMode::Normal => {
                self.comp1_type = self.comp1_type.step(turn);
                self.view.line1_normal = self.comp1_type.as_str().to_string();
                Some(outcome_of(ChannelStripMsg::CompType(self.comp1_type), Dirty::line1()))
            },
            WidgetMode::Shift => {
                self.comp2_type = self.comp2_type.step(turn);
                self.view.line1_shift = self.comp2_type.as_str().to_string();
                Some(outcome_of(ChannelStripMsg::Comp2Type(self.comp2_type), Dirty::line1()))
            },
            _ => None,
        }
    }

    /// Switching the first compressor in or out from upstream enables or disables the
    /// widget; messages about the second only ask for a redraw.
    pub fn handle_message_from_upstream(&mut self, msg: ChannelStripMsg) -> (r: UpstreamOutcome)
        ensures
            final(self).spec_hw_idx() == old(self).spec_hw_idx(),
            final(self).spec_comp1_type() == old(self).spec_comp1_type(),
            final(self).spec_comp2_type() == old(self).spec_comp2_type(),
            final(self).spec_comp1_in() == old(self).spec_comp1_in(),
            final(self).spec_comp2_in() == old(self).spec_comp2_in(),
            same_view_but(old(self).spec_view(), final(self).spec_view(), false, false, false, false)
                || (msg is EnableComp1 || msg is DisableComp1),
            match msg {
                ChannelStripMsg::EnableComp1(_) => final(self).spec_view().mode == WidgetMode::Normal
                    && marks_only(r, 0b111),
                ChannelStripMsg::DisableComp1 => final(self).spec_view().mode
                    == WidgetMode::Disabled && marks_only(r, 0b111),
                ChannelStripMsg::EnableComp2(_) | ChannelStripMsg::DisableComp2 => marks_only(
                    r,
                    0b111,
                ),
                _ => marks_only(r, 0),
            },
    {
        match msg {
            ChannelStripMsg::EnableComp1(_) => {
                self.view.mode = WidgetMode::Normal;
                marking(Dirty::all())
            },
            ChannelStripMsg::DisableComp1 => {
                self.view.mode = WidgetMode::Disabled;
                marking(Dirty::all())
            },
            ChannelStripMsg::EnableComp2(_) => {
                marking(Dirty::all())
            },
            ChannelStripMsg::DisableComp2 => {
                marking(Dirty::all())
            },
            _ => UpstreamOutcome::default(),
        }
    }
}

} // verus!
