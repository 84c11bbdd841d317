//! The channel-strip widgets whose main values are continuous: the high-pass filter, the
//! EQ bands, the compressors, saturation and gain. Their values are held as the bits of
//! their `f32`; stepping a value, and placing it on an encoder ring, compute in floating
//! point and are the caller's, who hands the results in. Everything else a widget decides
//! is here: which layer enables it, which value a turn moves, which message goes up, what
//! a click does and which parts of the strip are drawn again.
use vstd::prelude::*;

use crate::midi::v1m;
use crate::modes::color::RgbColor;
use crate::modes::reaper_channel_strip_router::{
    BandMode, ChannelStripMsg, CompType, EqType, SaturationBypass, SaturationType,
};
use crate::modes::reaper_channel_strip_widgets::{ChannelStripSnapshot, DownstreamOutcome, UpstreamOutcome};
use crate::modes::widget::{Dirty, EncoderTurn, HandledDownstreamOutcome, WidgetMode, WidgetView};

verus! {

/// Which widget of the channel strip a knob widget is (encoders 1 to 9 and 11 to 16).
#[derive(Clone, Copy, Debug, PartialEq, Eq, Structural)]
pub enum KnobKind {
    Hpf,
    LowFreq,
    LowGain,
    LmFreq,
    LmGain,
    HmFreq,
    HmGain,
    HighFreq,
    HighGain,
    CompThresh,
    CompRatio,
    CompMakeup,
    Saturation,
    Gain,
}

/// `f32` 0.0, 0.1, 0.2, 0.5 and 0.72, as bits.
pub const ZERO_BITS: u32 = 0u32;
pub const TENTH_BITS: u32 = 0x3DCC_CCCDu32;
pub const FIFTH_BITS: u32 = 0x3E4C_CCCDu32;
pub const HALF_BITS: u32 = 0x3F00_0000u32;
pub const Q_DEFAULT_BITS: u32 = 0x3F38_51ECu32;

/// What a knob widget holds besides its view: up to four values (bits of `f32`) and its
/// settings.
#[derive(Clone, Copy, Debug, PartialEq, Eq, Structural)]
pub struct KnobState {
    pub v0: u32,
    pub v1: u32,
    pub v2: u32,
    pub v3: u32,
    pub eq_type: EqType,
    pub band_mode: BandMode,
    pub sat_in: SaturationBypass,
    pub sat_type: SaturationType,
    pub comp1_enabled: bool,
    pub comp2_enabled: bool,
    pub comp1_type: CompType,
    pub comp2_type: CompType,
}

pub open spec fn initial_state(kind: KnobKind) -> KnobState {
    let (v0, v1) = match kind {
        KnobKind::Hpf => (TENTH_BITS, ZERO_BITS),
        KnobKind::LowFreq => (FIFTH_BITS, Q_DEFAULT_BITS),
        KnobKind::LowGain | KnobKind::LmGain | KnobKind::HmGain | KnobKind::HighGain => (ZERO_BITS, ZERO_BITS),
        _ => (HALF_BITS, HALF_BITS),
    };
    let half: u32 = if kind == KnobKind::CompThresh || kind == KnobKind::CompRatio || kind == KnobKind::CompMakeup {
        HALF_BITS
    } else {
        ZERO_BITS
    };
    KnobState {
        v0,
        v1,
        v2: half,
        v3: half,
        eq_type: EqType::Digital,
        band_mode: if kind == KnobKind::HighGain { BandMode::Bell } else { BandMode::Shelf },
        sat_in: SaturationBypass::IN,
        sat_type: SaturationType::Tape,
        comp1_enabled: false,
        comp2_enabled: false,
        comp1_type: CompType::Eleven76,
        comp2_type: CompType::LA2A,
    }
}

/// The value in slot `slot`.
pub open spec fn slot_value(st: KnobState, slot: u8) -> u32 {
    if slot == 0 {
        st.v0
    } else if slot == 1 {
        st.v1
    } else if slot == 2 {
        st.v2
    } else {
        st.v3
    }
}

/// The state with slot `slot` set to `v`.
pub open spec fn with_slot(st: KnobState, slot: u8, v: u32) -> KnobState {
    if slot == 0 {
        KnobState { v0: v, ..st }
    } else if slot == 1 {
        KnobState { v1: v, ..st }
    } else if slot == 2 {
        KnobState { v2: v, ..st }
    } else {
        KnobState { v3: v, ..st }
    }
}

/// The message that sends value `v` of slot `slot` up.
pub open spec fn value_msg(kind: KnobKind, slot: u8, v: u32) -> ChannelStripMsg {
    match kind {
        KnobKind::Hpf => if slot == 0 { ChannelStripMsg::HpfFreq(v) } else { ChannelStripMsg::HpfSlope(v) },
        KnobKind::LowFreq => if slot == 0 { ChannelStripMsg::LowFreq(v) } else { ChannelStripMsg::LowSlope(v) },
        KnobKind::LowGain => ChannelStripMsg::LowGain(v),
        KnobKind::LmFreq => if slot == 0 { ChannelStripMsg::LmFreq(v) } else { ChannelStripMsg::LmQ(v) },
        KnobKind::LmGain => ChannelStripMsg::LmGain(v),
        KnobKind::HmFreq => if slot == 0 { ChannelStripMsg::HmFreq(v) } else { ChannelStripMsg::HmQ(v) },
        KnobKind::HmGain => ChannelStripMsg::HmGain(v),
        KnobKind::HighFreq => if slot == 0 { ChannelStripMsg::HighFreq(v) } else { ChannelStripMsg::HighQ(v) },
        KnobKind::HighGain => if slot == 0 { ChannelStripMsg::HighGain(v) } else { ChannelStripMsg::HighSidesGain(v) },
        KnobKind::CompThresh => if slot == 0 {
            ChannelStripMsg::CompThresh(v)
        } else if slot == 1 {
            ChannelStripMsg::CompAttack(v)
        } else if slot == 2 {
            ChannelStripMsg::Comp2Thresh(v)
        } else {
            ChannelStripMsg::Comp2Attack(v)
        },
        KnobKind::CompRatio => if slot == 0 {
            ChannelStripMsg::CompRatio(v)
        } else if slot == 1 {
            ChannelStripMsg::CompRelease(v)
        } else if slot == 2 {
            ChannelStripMsg::Comp2Ratio(v)
        } else {
            ChannelStripMsg::Comp2Release(v)
        },
        KnobKind::CompMakeup => if slot == 0 {
            ChannelStripMsg::CompMakeup(v)
        } else if slot == 1 {
            ChannelStripMsg::CompScFilter(v)
        } else if slot == 2 {
            ChannelStripMsg::Comp2Makeup(v)
        } else {
            ChannelStripMsg::Comp2ScFilter(v)
        },
        KnobKind::Saturation => ChannelStripMsg::Saturation(v),
        KnobKind::Gain => if slot == 0 { ChannelStripMsg::Gain(v) } else { ChannelStripMsg::Trim(v) },
    }
}

fn make_value_msg(kind: KnobKind, slot: u8, v: u32) -> (r: ChannelStripMsg)
    ensures
        r == value_msg(kind, slot, v),
{
    match kind {
        KnobKind::Hpf => if slot == 0 { ChannelStripMsg::HpfFreq(v) } else { ChannelStripMsg::HpfSlope(v) },
        KnobKind::LowFreq => if slot == 0 { ChannelStripMsg::LowFreq(v) } else { ChannelStripMsg::LowSlope(v) },
        KnobKind::LowGain => ChannelStripMsg::LowGain(v),
        KnobKind::LmFreq => if slot == 0 { ChannelStripMsg::LmFreq(v) } else { ChannelStripMsg::LmQ(v) },
        KnobKind::LmGain => ChannelStripMsg::LmGain(v),
        KnobKind::HmFreq => if slot == 0 { ChannelStripMsg::HmFreq(v) } else { ChannelStripMsg::HmQ(v) },
        KnobKind::HmGain => ChannelStripMsg::HmGain(v),
        KnobKind::HighFreq => if slot == 0 { ChannelStripMsg::HighFreq(v) } else { ChannelStripMsg::HighQ(v) },
        KnobKind::HighGain => if slot == 0 { ChannelStripMsg::HighGain(v) } else { ChannelStripMsg::HighSidesGain(v) },
        KnobKind::CompThresh => if slot == 0 {
            ChannelStripMsg::CompThresh(v)
        } else if slot == 1 {
            ChannelStripMsg::CompAttack(v)
        } else if slot == 2 {
            ChannelStripMsg::Comp2Thresh(v)
        } else {
            ChannelStripMsg::Comp2Attack(v)
        },
        KnobKind::CompRatio => if slot == 0 {
            ChannelStripMsg::CompRatio(v)
        } else if slot == 1 {
            ChannelStripMsg::CompRelease(v)
        } else if slot == 2 {
            ChannelStripMsg::Comp2Ratio(v)
        } else {
            ChannelStripMsg::Comp2Release(v)
        },
        KnobKind::CompMakeup => if slot == 0 {
            ChannelStripMsg::CompMakeup(v)
        } else if slot == 1 {
            ChannelStripMsg::CompScFilter(v)
        } else if slot == 2 {
            ChannelStripMsg::Comp2Makeup(v)
        } else {
            ChannelStripMsg::Comp2ScFilter(v)
        },
        KnobKind::Saturation => ChannelStripMsg::Saturation(v),
        KnobKind::Gain => if slot == 0 { ChannelStripMsg::Gain(v) } else { ChannelStripMsg::Trim(v) },
    }
}

/// What a turn of the encoder does in a layer.
#[derive(Clone, Copy, Debug, PartialEq, Eq, Structural)]
pub enum TurnPlan {
    /// Nothing.
    Nothing,
    /// Step the value in `slot` (around the centre, from -1.0, when `centred`), send it
    /// up, show it on the ring in `ring` if any, and mark `dirty`.
    Value { slot: u8, centred: bool, ring: Option<v1m::EncoderRingMode>, dirty: u8 },
    /// Step the EQ type (the high-pass filter's disabled layer when `!shift`, its shift
    /// layers when `shift`).
    EqType { shift: bool },
    /// Step the band's bell/shelf mode.
    Band,
    /// Step the saturation type.
    SatType,
}

/// Which plan a turn follows, for each widget and layer.
pub open spec fn turn_plan(kind: KnobKind, mode: WidgetMode) -> TurnPlan {
    let left = Some(v1m::EncoderRingMode::FromLeft);
    let centre = Some(v1m::EncoderRingMode::FromCenter);
    match kind {
        KnobKind::Hpf => match mode {
            WidgetMode::Disabled => TurnPlan::EqType { shift: false },
            WidgetMode::Normal => TurnPlan::Value { slot: 0, centred: false, ring: left, dirty: 1 },
            WidgetMode::Press => TurnPlan::Value { slot: 1, centred: false, ring: None, dirty: 2 },
            _ => TurnPlan::EqType { shift: true },
        },
        KnobKind::LowFreq => match mode {
            WidgetMode::Disabled => TurnPlan::Nothing,
            WidgetMode::Normal => TurnPlan::Value { slot: 0, centred: false, ring: left, dirty: 1 },
            WidgetMode::Press => TurnPlan::Value { slot: 1, centred: false, ring: None, dirty: 2 },
            _ => TurnPlan::Band,
        },
        KnobKind::LowGain | KnobKind::LmGain | KnobKind::HmGain => match mode {
            WidgetMode::Normal | WidgetMode::Shift => TurnPlan::Value { slot: 0, centred: true, ring: centre, dirty: 1 },
            _ => TurnPlan::Nothing,
        },
        KnobKind::LmFreq | KnobKind::HmFreq => match mode {
            WidgetMode::Disabled => TurnPlan::Nothing,
            WidgetMode::Normal | WidgetMode::Shift => TurnPlan::Value { slot: 0, centred: false, ring: left, dirty: 1 },
            _ => TurnPlan::Value { slot: 1, centred: false, ring: None, dirty: 2 },
        },
        KnobKind::HighFreq => match mode {
            WidgetMode::Disabled => TurnPlan::Nothing,
            WidgetMode::Normal | WidgetMode::Press => TurnPlan::Value { slot: 0, centred: false, ring: left, dirty: 1 },
            _ => TurnPlan::Band,
        },
        KnobKind::HighGain => match mode {
            WidgetMode::Disabled => TurnPlan::Nothing,
            WidgetMode::Normal | WidgetMode::Shift => TurnPlan::Value { slot: 0, centred: true, ring: left, dirty: 1 },
            _ => TurnPlan::Value { slot: 1, centred: true, ring: centre, dirty: 2 },
        },
        KnobKind::CompThresh | KnobKind::CompRatio => match mode {
            WidgetMode::Disabled => TurnPlan::Nothing,
            WidgetMode::Normal => TurnPlan::Value { slot: 0, centred: false, ring: None, dirty: 0 },
            WidgetMode::Press => TurnPlan::Value { slot: 1, centred: false, ring: None, dirty: 2 },
            WidgetMode::Shift => TurnPlan::Value { slot: 2, centred: false, ring: None, dirty: 0 },
            WidgetMode::ShiftPress => TurnPlan::Value { slot: 3, centred: false, ring: None, dirty: 2 },
        },
        KnobKind::CompMakeup => match mode {
            WidgetMode::Disabled => TurnPlan::Nothing,
            WidgetMode::Normal => TurnPlan::Value { slot: 0, centred: true, ring: None, dirty: 0 },
            WidgetMode::Press => TurnPlan::Value { slot: 1, centred: false, ring: None, dirty: 2 },
            WidgetMode::Shift => TurnPlan::Value { slot: 2, centred: true, ring: None, dirty: 0 },
            WidgetMode::ShiftPress => TurnPlan::Value { slot: 3, centred: false, ring: None, dirty: 2 },
        },
        KnobKind::Saturation => match mode {
            WidgetMode::Normal | WidgetMode::Shift => TurnPlan::Value { slot: 0, centred: true, ring: left, dirty: 1 },
            WidgetMode::Press => TurnPlan::SatType,
            _ => TurnPlan::Nothing,
        },
        KnobKind::Gain => match mode {
            WidgetMode::Disabled => TurnPlan::Nothing,
            WidgetMode::Normal | WidgetMode::Shift => TurnPlan::Value { slot: 0, centred: true, ring: centre, dirty: 1 },
            _ => TurnPlan::Value { slot: 1, centred: true, ring: None, dirty: 2 },
        },
    }
}

fn plan_of(kind: KnobKind, mode: WidgetMode) -> (r: TurnPlan)
    ensures
        r == turn_plan(kind, mode),
{
    let left = Some(v1m::EncoderRingMode::FromLeft);
    let centre = Some(v1m::EncoderRingMode::FromCenter);
    match kind {
        KnobKind::Hpf => match mode {
            WidgetMode::Disabled => TurnPlan::EqType { shift: false },
            WidgetMode::Normal => TurnPlan::Value { slot: 0, centred: false, ring: left, dirty: 1 },
            WidgetMode::Press => TurnPlan::Value { slot: 1, centred: false, ring: None, dirty: 2 },
            _ => TurnPlan::EqType { shift: true },
        },
        KnobKind::LowFreq => match mode {
            WidgetMode::Disabled => TurnPlan::Nothing,
            WidgetMode::Normal => TurnPlan::Value { slot: 0, centred: false, ring: left, dirty: 1 },
            WidgetMode::Press => TurnPlan::Value { slot: 1, centred: false, ring: None, dirty: 2 },
            _ => TurnPlan::Band,
        },
        KnobKind::LowGain | KnobKind::LmGain | KnobKind::HmGain => match mode {
            WidgetMode::Normal | WidgetMode::Shift => TurnPlan::Value { slot: 0, centred: true, ring: centre, dirty: 1 },
            _ => TurnPlan::Nothing,
        },
        KnobKind::LmFreq | KnobKind::HmFreq => match mode {
            WidgetMode::Disabled => TurnPlan::Nothing,
            WidgetMode::Normal | WidgetMode::Shift => TurnPlan::Value { slot: 0, centred: false, ring: left, dirty: 1 },
            _ => TurnPlan::Value { slot: 1, centred: false, ring: None, dirty: 2 },
        },
        KnobKind::HighFreq => match mode {
            WidgetMode::Disabled => TurnPlan::Nothing,
            WidgetMode::Normal | WidgetMode::Press => TurnPlan::Value { slot: 0, centred: false, ring: left, dirty: 1 },
            _ => TurnPlan::Band,
        },
        KnobKind::HighGain => match mode {
            WidgetMode::Disabled => TurnPlan::Nothing,
            WidgetMode::Normal | WidgetMode::Shift => TurnPlan::Value { slot: 0, centred: true, ring: left, dirty: 1 },
            _ => TurnPlan::Value { slot: 1, centred: true, ring: centre, dirty: 2 },
        },
        KnobKind::CompThresh | KnobKind::CompRatio => match mode {
            WidgetMode::Disabled => TurnPlan::Nothing,
            WidgetMode::Normal => TurnPlan::Value { slot: 0, centred: false, ring: None, dirty: 0 },
            WidgetMode::Press => TurnPlan::Value { slot: 1, centred: false, ring: None, dirty: 2 },
            WidgetMode::Shift => TurnPlan::Value { slot: 2, centred: false, ring: None, dirty: 0 },
            WidgetMode::ShiftPress => TurnPlan::Value { slot: 3, centred: false, ring: None, dirty: 2 },
        },
        KnobKind::CompMakeup => match mode {
            WidgetMode::Disabled => TurnPlan::Nothing,
            WidgetMode::Normal => TurnPlan::Value { slot: 0, centred: true, ring: None, dirty: 0 },
            WidgetMode::Press => TurnPlan::Value { slot: 1, centred: false, ring: None, dirty: 2 },
            WidgetMode::Shift => TurnPlan::Value { slot: 2, centred: true, ring: None, dirty: 0 },
            WidgetMode::ShiftPress => TurnPlan::Value { slot: 3, centred: false, ring: None, dirty: 2 },
        },
        KnobKind::Saturation => match mode {
            WidgetMode::Normal | WidgetMode::Shift => TurnPlan::Value { slot: 0, centred: true, ring: left, dirty: 1 },
            WidgetMode::Press => TurnPlan::SatType,
            _ => TurnPlan::Nothing,
        },
        KnobKind::Gain => match mode {
            WidgetMode::Disabled => TurnPlan::Nothing,
            WidgetMode::Normal | WidgetMode::Shift => TurnPlan::Value { slot: 0, centred: true, ring: centre, dirty: 1 },
            _ => TurnPlan::Value { slot: 1, centred: true, ring: None, dirty: 2 },
        },
    }
}

/// The ring message for value shown at `val` in `mode` on encoder `hw_idx`, if any.
pub open spec fn ring_of(mode: Option<v1m::EncoderRingMode>, hw_idx: usize, val: u8) -> Seq<v1m::DownstreamMsg> {
    match mode {
        Some(m) => seq![v1m::DownstreamMsg::EncoderRingLED(v1m::EncoderRingMsg { idx: hw_idx as i32, mode: m, val })],
        None => Seq::empty(),
    }
}

/// Whether `o` sends `up` (if any) upstream and `down` downstream, marks exactly `dirty`,
/// and carries `snap`.
pub open spec fn gives(
    o: DownstreamOutcome,
    up: Option<ChannelStripMsg>,
    down: Seq<v1m::DownstreamMsg>,
    dirty: u8,
    snap: Option<ChannelStripSnapshot>,
) -> bool {
    &&& o.upstream_msgs@ == match up {
        Some(m) => seq![m],
        None => Seq::empty(),
    }
    &&& o.downstream_msgs@ == down
    &&& o.dirty.spec_bits() == dirty
    &&& o.snapshot == snap
}

fn outcome(
    up: Option<ChannelStripMsg>,
    ring: Option<v1m::EncoderRingMode>,
    hw_idx: usize,
    val: u8,
    dirty: u8,
    snap: Option<ChannelStripSnapshot>,
) -> (r: DownstreamOutcome)
    ensures
        gives(r, up, ring_of(ring, hw_idx, val), dirty, snap),
{
    let mut ups: Vec<ChannelStripMsg> = Vec::new();
    if let Some(m) = up {
        ups.push(m);
    }
    let mut downs: Vec<v1m::DownstreamMsg> = Vec::new();
    if let Some(m) = ring {
        downs.push(v1m::DownstreamMsg::EncoderRingLED(v1m::EncoderRingMsg { idx: hw_idx as i32, mode: m, val }));
    }
    proof {
        assert(ups@ =~= match up {
            Some(m) => seq![m],
            None => Seq::empty(),
        });
        assert(downs@ =~= ring_of(ring, hw_idx, val));
    }
    HandledDownstreamOutcome { upstream_msgs: ups, downstream_msgs: downs, dirty: Dirty { bits: dirty }, snapshot: snap }
}

fn upstream_outcome(ring: Option<v1m::EncoderRingMode>, hw_idx: usize, val: u8, dirty: u8) -> (r: UpstreamOutcome)
    ensures
        r.downstream_msgs@ == ring_of(ring, hw_idx, val),
        r.dirty.spec_bits() == dirty,
{
    let mut downs: Vec<v1m::DownstreamMsg> = Vec::new();
    if let Some(m) = ring {
        downs.push(v1m::DownstreamMsg::EncoderRingLED(v1m::EncoderRingMsg { idx: hw_idx as i32, mode: m, val }));
    }
    assert(downs@ =~= ring_of(ring, hw_idx, val));
    UpstreamOutcome { downstream_msgs: downs, dirty: Dirty { bits: dirty } }
}

/// The snapshot that tells the other widgets only whether the EQ is on.
pub open spec fn eq_note(on: bool) -> ChannelStripSnapshot {
    ChannelStripSnapshot {
        eq_enabled: Some(on),
        eq_type: None,
        eq_pos: None,
        low_mode: None,
        high_mode: None,
        comp1_enabled: None,
        comp2_enabled: None,
        comp1_type: None,
        comp2_type: None,
        comp_1_sidechain_freq: None,
        comp_2_sidechain_freq: None,
        comp_order: None,
    }
}

/// The snapshot that tells the other widgets only that the first compressor is on.
pub open spec fn comp1_note() -> ChannelStripSnapshot {
    ChannelStripSnapshot { eq_enabled: None, comp1_enabled: Some(true), ..eq_note(true) }
}

/// Which family of plugins switches a widget on and off.
pub open spec fn is_eq(kind: KnobKind) -> bool {
    kind == KnobKind::Hpf || kind == KnobKind::LowFreq || kind == KnobKind::LowGain || kind == KnobKind::LmFreq
        || kind == KnobKind::LmGain || kind == KnobKind::HmFreq || kind == KnobKind::HmGain || kind
        == KnobKind::HighFreq || kind == KnobKind::HighGain
}

pub open spec fn is_comp(kind: KnobKind) -> bool {
    kind == KnobKind::CompThresh || kind == KnobKind::CompRatio || kind == KnobKind::CompMakeup
}

/// A widget of the channel strip with continuous values.
pub struct KnobWidget {
    kind: KnobKind,
    hw_idx: usize,
    view: WidgetView,
    st: KnobState,
}

/// Whether `b` is `a` with only the mode and the texts marked `true` changed.
pub open spec fn same_but(a: WidgetView, b: WidgetView, mode: bool, l1d: bool, l2d: bool, l2n: bool, l2s: bool) -> bool {
    &&& (!mode ==> b.mode == a.mode)
    &&& b.encoder_pressed == a.encoder_pressed
    &&& b.in_hold_mode == a.in_hold_mode
    &&& (!l1d ==> b.line1_disabled == a.line1_disabled)
    &&& b.line1_normal == a.line1_normal
    &&& b.line1_shift == a.line1_shift
    &&& (!l2d ==> b.line2_disabled == a.line2_disabled)
    &&& (!l2n ==> b.line2_normal == a.line2_normal)
    &&& (!l2s ==> b.line2_shift == a.line2_shift)
    &&& b.color_disabled == a.color_disabled
    &&& b.color_normal == a.color_normal
    &&& b.color_shift == a.color_shift
}

impl KnobWidget {
    pub closed spec fn spec_kind(&self) -> KnobKind {
        self.kind
    }

    pub closed spec fn spec_hw_idx(&self) -> usize {
        self.hw_idx
    }

    pub closed spec fn spec_view(&self) -> WidgetView {
        self.view
    }

    pub closed spec fn spec_state(&self) -> KnobState {
        self.st
    }

    pub fn kind(&self) -> (r: KnobKind)
        ensures
            r == self.spec_kind(),
    {
        self.kind
    }

    pub fn state(&self) -> (r: KnobState)
        ensures
            r == self.spec_state(),
    {
        self.st
    }

    pub fn view(&self) -> (r: &WidgetView)
        ensures
            *r == self.spec_view(),
    {
        &self.view
    }

    pub fn view_mut(&mut self) -> (r: &mut WidgetView)
        ensures
            *r == old(self).spec_view(),
            final(self).spec_view() == *final(r),
            final(self).spec_kind() == old(self).spec_kind(),
            final(self).spec_hw_idx() == old(self).spec_hw_idx(),
            final(self).spec_state() == old(self).spec_state(),
    {
        &mut self.view
    }

    /// The widget of `kind` on encoder `hw_idx`, with its texts, the given colors for its
    /// normal and shift layers, and its starting values; gain starts enabled, the others
    /// disabled.
    pub fn new(kind: KnobKind, hw_idx: usize, normal: RgbColor, shift: RgbColor) -> (r: Self)
        ensures
            r.spec_kind() == kind,
            r.spec_hw_idx() == hw_idx,
            r.spec_state() == initial_state(kind),
            r.spec_view().mode == (if kind == KnobKind::Gain { WidgetMode::Normal } else { WidgetMode::Disabled }),
            !r.spec_view().encoder_pressed,
            !r.spec_view().in_hold_mode,
            r.spec_view().color_normal == normal,
            r.spec_view().color_shift == shift,
            r.spec_view().color_disabled == (RgbColor { red: 0, green: 0, blue: 0 }),
            r.spec_view().line1_normal@ == initial_lines(kind).0,
            r.spec_view().line2_normal@ == initial_lines(kind).1,
            r.spec_view().line1_shift@ == initial_lines(kind).2,
            r.spec_view().line2_shift@ == initial_lines(kind).3,
            r.spec_view().line1_disabled@ == initial_lines(kind).4,
            r.spec_view().line2_disabled@ == initial_lines(kind).5,
    {
        let (l1n, l2n, l1s, l2s, l1d, l2d) = lines_for(kind);
        let view = WidgetView::new().line1_normal(l1n).line2_normal(l2n).line1_shift(l1s).line2_shift(l2s).line1_disabled(
            l1d,
        ).line2_disabled(l2d).color_normal(normal).color_shift(shift);
        let view = if kind == KnobKind::Gain {
            view.starting_mode(WidgetMode::Normal)
        } else {
            view
        };
        let st = KnobState {
            v0: match kind {
                KnobKind::Hpf => TENTH_BITS,
                KnobKind::LowFreq => FIFTH_BITS,
                KnobKind::LowGain | KnobKind::LmGain | KnobKind::HmGain | KnobKind::HighGain => ZERO_BITS,
                _ => HALF_BITS,
            },
            v1: match kind {
                KnobKind::Hpf => ZERO_BITS,
                KnobKind::LowFreq => Q_DEFAULT_BITS,
                KnobKind::LowGain | KnobKind::LmGain | KnobKind::HmGain | KnobKind::HighGain => ZERO_BITS,
                _ => HALF_BITS,
            },
            v2: if kind == KnobKind::CompThresh || kind == KnobKind::CompRatio || kind == KnobKind::CompMakeup {
                HALF_BITS
            } else {
                ZERO_BITS
            },
            v3: if kind == KnobKind::CompThresh || kind == KnobKind::CompRatio || kind == KnobKind::CompMakeup {
                HALF_BITS
            } else {
                ZERO_BITS
            },
            eq_type: EqType::Digital,
            band_mode: if kind == KnobKind::HighGain { BandMode::Bell } else { BandMode::Shelf },
            sat_in: SaturationBypass::IN,
            sat_type: SaturationType::Tape,
            comp1_enabled: false,
            comp2_enabled: false,
            comp1_type: CompType::Eleven76,
            comp2_type: CompType::LA2A,
        };
        KnobWidget { kind, hw_idx, view, st }
    }

    /// The value a turn in the current layer steps, and whether it steps around the
    /// centre (from -1.0) rather than from 0.0; `None` where a turn steps no value.
    pub fn turn_target(&self) -> (r: Option<(u32, bool)>)
        ensures
            r == match turn_plan(self.spec_kind(), self.spec_view().mode) {
                TurnPlan::Value { slot, centred, .. } => Some((slot_value(self.spec_state(), slot), centred)),
                _ => None,
            },
    {
        match plan_of(self.kind, self.view.mode) {
            TurnPlan::Value { slot, centred, .. } => Some((self.slot(slot), centred)),
            _ => None,
        }
    }

    fn slot(&self, slot: u8) -> (r: u32)
        ensures
            r == slot_value(self.spec_state(), slot),
    {
        if slot == 0 {
            self.st.v0
        } else if slot == 1 {
            self.st.v1
        } else if slot == 2 {
            self.st.v2
        } else {
            self.st.v3
        }
    }

    fn set_slot(&mut self, slot: u8, v: u32)
        ensures
            final(self).spec_state() == with_slot(old(self).spec_state(), slot, v),
            final(self).spec_view() == old(self).spec_view(),
            final(self).spec_kind() == old(self).spec_kind(),
            final(self).spec_hw_idx() == old(self).spec_hw_idx(),
    {
        if slot == 0 {
            self.st.v0 = v;
        } else if slot == 1 {
            self.st.v1 = v;
        } else if slot == 2 {
            self.st.v2 = v;
        } else {
            self.st.v3 = v;
        }
    }

    /// A turn of the encoder, as the current layer's plan says. Where it steps a value,
    /// `stepped` is that value stepped by the turn and `ring` its place on the ring; the
    /// high frequency shows `q_text` (the text of its Q) on its second line when it is a
    /// shelf. Stepped settings show their names where the widget shows them.
    pub fn handle_encoder_turn(&mut self, turn: EncoderTurn, stepped: u32, ring: u8, q_text: &str) -> (r: Option<
        DownstreamOutcome,
    >)
        ensures
            final(self).spec_kind() == old(self).spec_kind(),
            final(self).spec_hw_idx() == old(self).spec_hw_idx(),
            ({
                let k = old(self).spec_kind();
                let st = old(self).spec_state();
                let v = old(self).spec_view();
                let nv = final(self).spec_view();
                let ns = final(self).spec_state();
                let hw = old(self).spec_hw_idx();
                match turn_plan(k, v.mode) {
                    TurnPlan::Nothing => r is None && nv == v && ns == st,
                    TurnPlan::Value { slot, ring: mode, dirty, .. } => {
                        &&& r matches Some(o) && gives(o, Some(value_msg(k, slot, stepped)), ring_of(mode, hw, ring), dirty, None)
                        &&& ns == with_slot(st, slot, stepped)
                        &&& if k == KnobKind::HighFreq {
                            same_but(v, nv, false, false, false, true, false) && nv.line2_normal@ == (if st.band_mode
                                == BandMode::Shelf {
                                q_text@
                            } else {
                                Seq::<char>::empty()
                            })
                        } else {
                            nv == v
                        }
                    },
                    TurnPlan::EqType { shift } => {
                        let t = match turn {
                            EncoderTurn::Inc { .. } => EqType::spec_at((st.eq_type.spec_index() + 1) % 3),
                            EncoderTurn::Dec { .. } => EqType::spec_at((st.eq_type.spec_index() + 2) % 3),
                        };
                        &&& ns == KnobState { eq_type: t, ..st }
                        &&& r matches Some(o) && gives(o, Some(ChannelStripMsg::EqType(t)), Seq::empty(), if shift { 2u8 } else { 1u8 }, None)
                        &&& nv.line2_shift@ == t.spec_label()
                        &&& if shift {
                            same_but(v, nv, false, false, true, false, true) && nv.line2_disabled@ == t.spec_label()
                        } else {
                            same_but(v, nv, false, true, false, false, true) && nv.line1_disabled@ == t.spec_label()
                        }
                    },
                    TurnPlan::Band => {
                        let b = BandMode::spec_at((st.band_mode.spec_index() + 1) % 2);
                        &&& ns == KnobState { band_mode: b, ..st }
                        &&& r matches Some(o) && gives(
                            o,
                            Some(if k == KnobKind::LowFreq { ChannelStripMsg::LowBandMode(b) } else { ChannelStripMsg::HighBandMode(b) }),
                            Seq::empty(),
                            2,
                            None,
                        )
                        &&& if k == KnobKind::HighFreq {
                            same_but(v, nv, false, false, false, false, true) && nv.line2_shift@ == b.spec_label()
                        } else {
                            nv == v
                        }
                    },
                    TurnPlan::SatType => {
                        let t = match turn {
                            EncoderTurn::Inc { .. } => SaturationType::spec_at((st.sat_type.spec_index() + 1) % 4),
                            EncoderTurn::Dec { .. } => SaturationType::spec_at((st.sat_type.spec_index() + 3) % 4),
                        };
                        &&& ns == KnobState { sat_type: t, ..st }
                        &&& r matches Some(o) && gives(o, Some(ChannelStripMsg::SaturationType(t)), Seq::empty(), 2, None)
                        &&& same_but(v, nv, false, false, false, true, false) && nv.line2_normal@ == t.spec_label()
                    },
                }
            }),
    {
        match plan_of(self.kind, self.view.mode) {
            TurnPlan::Nothing => None,
            TurnPlan::Value { slot, ring: mode, dirty, .. } => {
                self.set_slot(slot, stepped);
                if self.kind == KnobKind::HighFreq {
                    if self.st.band_mode == BandMode::Shelf {
                        self.view.line2_normal = q_text.to_string();
                    } else {
                        self.view.line2_normal = String::new();
                    }
                }
                let msg = make_value_msg(self.kind, slot, stepped);
                Some(outcome(Some(msg), mode, self.hw_idx, ring, dirty, None))
            },
            TurnPlan::EqType { shift } => {
                let t = self.st.eq_type.step(turn);
                self.st.eq_type = t;
                self.view.line2_shift = t.as_str().to_string();
                if shift {
                    self.view.line2_disabled = t.as_str().to_string();
                } else {
                    self.view.line1_disabled = t.as_str().to_string();
                }
                Some(outcome(Some(ChannelStripMsg::EqType(t)), None, self.hw_idx, 0, if shift { 2 } else { 1 }, None))
            },
            TurnPlan::Band => {
                let b = self.st.band_mode.step(turn);
                self.st.band_mode = b;
                let msg = if self.kind == KnobKind::LowFreq {
                    ChannelStripMsg::LowBandMode(b)
                } else {
                    ChannelStripMsg::HighBandMode(b)
                };
                if self.kind == KnobKind::HighFreq {
                    self.view.line2_shift = b.as_str().to_string();
                }
                Some(outcome(Some(msg), None, self.hw_idx, 0, 2, None))
            },
            TurnPlan::SatType => {
                let t = self.st.sat_type.step(turn);
                self.st.sat_type = t;
                self.view.line2_normal = t.as_str().to_string();
                Some(outcome(Some(ChannelStripMsg::SaturationType(t)), None, self.hw_idx, 0, 2, None))
            },
        }
    }
}

/// What a message from upstream does to a widget.
#[derive(Clone, Copy, Debug, PartialEq, Eq, Structural)]
pub enum UpPlan {
    Nothing,
    /// Enter `mode` (taking `eq_type` when there is one) and draw everything again.
    SetMode { mode: WidgetMode, eq_type: Option<EqType> },
    /// Draw everything again.
    Redraw,
    /// Keep `v` in `slot`, show it on the ring in `ring` if any, and mark `dirty`.
    Value { slot: u8, v: u32, ring: Option<v1m::EncoderRingMode>, dirty: u8 },
    /// Keep the EQ type and draw the second line again.
    EqType(EqType),
    /// Keep the band mode and draw the second line again.
    Band(BandMode),
}

pub open spec fn up_plan(kind: KnobKind, msg: ChannelStripMsg) -> UpPlan {
    let left = Some(v1m::EncoderRingMode::FromLeft);
    let centre = Some(v1m::EncoderRingMode::FromCenter);
    match msg {
        ChannelStripMsg::EnableEq(t) if is_eq(kind) => UpPlan::SetMode {
            mode: WidgetMode::Normal,
            eq_type: if kind == KnobKind::Hpf { Some(t) } else { None },
        },
        ChannelStripMsg::DisableEq if is_eq(kind) => UpPlan::SetMode { mode: WidgetMode::Disabled, eq_type: None },
        ChannelStripMsg::EnableComp1(_) if is_comp(kind) => UpPlan::SetMode { mode: WidgetMode::Normal, eq_type: None },
        ChannelStripMsg::DisableComp1 if is_comp(kind) => UpPlan::SetMode { mode: WidgetMode::Disabled, eq_type: None },
        ChannelStripMsg::EnableComp2(_) if is_comp(kind) => UpPlan::Redraw,
        ChannelStripMsg::DisableComp2 if is_comp(kind) => UpPlan::Redraw,
        ChannelStripMsg::EnableSaturation(_) if kind == KnobKind::Saturation => UpPlan::SetMode {
            mode: WidgetMode::Normal,
            eq_type: None,
        },
        ChannelStripMsg::DisableSaturation if kind == KnobKind::Saturation => UpPlan::SetMode {
            mode: WidgetMode::Disabled,
            eq_type: None,
        },
        ChannelStripMsg::HpfFreq(v) if kind == KnobKind::Hpf => UpPlan::Value { slot: 0, v, ring: left, dirty: 1 },
        ChannelStripMsg::HpfSlope(v) if kind == KnobKind::Hpf => UpPlan::Value { slot: 1, v, ring: None, dirty: 2 },
        ChannelStripMsg::EqType(t) if kind == KnobKind::Hpf => UpPlan::EqType(t),
        ChannelStripMsg::LowFreq(v) if kind == KnobKind::LowFreq => UpPlan::Value { slot: 0, v, ring: left, dirty: 0 },
        ChannelStripMsg::LowSlope(v) if kind == KnobKind::LowFreq => UpPlan::Value { slot: 1, v, ring: None, dirty: 2 },
        ChannelStripMsg::LowBandMode(b) if kind == KnobKind::LowFreq => UpPlan::Band(b),
        ChannelStripMsg::LowGain(v) if kind == KnobKind::LowGain => UpPlan::Value { slot: 0, v, ring: centre, dirty: 0 },
        ChannelStripMsg::LmFreq(v) if kind == KnobKind::LmFreq => UpPlan::Value { slot: 0, v, ring: left, dirty: 0 },
        ChannelStripMsg::LmQ(v) if kind == KnobKind::LmFreq => UpPlan::Value { slot: 1, v, ring: None, dirty: 2 },
        ChannelStripMsg::LmGain(v) if kind == KnobKind::LmGain => UpPlan::Value { slot: 0, v, ring: centre, dirty: 0 },
        ChannelStripMsg::HmFreq(v) if kind == KnobKind::HmFreq => UpPlan::Value { slot: 0, v, ring: left, dirty: 0 },
        ChannelStripMsg::HmQ(v) if kind == KnobKind::HmFreq => UpPlan::Value { slot: 1, v, ring: None, dirty: 2 },
        ChannelStripMsg::HmGain(v) if kind == KnobKind::HmGain => UpPlan::Value { slot: 0, v, ring: centre, dirty: 0 },
        ChannelStripMsg::HighFreq(v) if kind == KnobKind::HighFreq => UpPlan::Value { slot: 0, v, ring: left, dirty: 0 },
        ChannelStripMsg::HighQ(v) if kind == KnobKind::HighFreq => UpPlan::Value { slot: 1, v, ring: None, dirty: 2 },
        ChannelStripMsg::HighBandMode(b) if kind == KnobKind::HighFreq => UpPlan::Band(b),
        _ => UpPlan::Nothing,
    }
}

fn up_plan_of(kind: KnobKind, msg: ChannelStripMsg) -> (r: UpPlan)
    ensures
        r == up_plan(kind, msg),
{
    let left = Some(v1m::EncoderRingMode::FromLeft);
    let centre = Some(v1m::EncoderRingMode::FromCenter);
    let eq = kind == KnobKind::Hpf || kind == KnobKind::LowFreq || kind == KnobKind::LowGain || kind
        == KnobKind::LmFreq || kind == KnobKind::LmGain || kind == KnobKind::HmFreq || kind == KnobKind::HmGain
        || kind == KnobKind::HighFreq || kind == KnobKind::HighGain;
    let comp = kind == KnobKind::CompThresh || kind == KnobKind::CompRatio || kind == KnobKind::CompMakeup;
    match msg {
        ChannelStripMsg::EnableEq(t) if eq => UpPlan::SetMode {
            mode: WidgetMode::Normal,
            eq_type: if kind == KnobKind::Hpf { Some(t) } else { None },
        },
        ChannelStripMsg::DisableEq if eq => UpPlan::SetMode { mode: WidgetMode::Disabled, eq_type: None },
        ChannelStripMsg::EnableComp1(_) if comp => UpPlan::SetMode { mode: WidgetMode::Normal, eq_type: None },
        ChannelStripMsg::DisableComp1 if comp => UpPlan::SetMode { mode: WidgetMode::Disabled, eq_type: None },
        ChannelStripMsg::EnableComp2(_) if comp => UpPlan::Redraw,
        ChannelStripMsg::DisableComp2 if comp => UpPlan::Redraw,
        ChannelStripMsg::EnableSaturation(_) if kind == KnobKind::Saturation => UpPlan::SetMode {
            mode: WidgetMode::Normal,
            eq_type: None,
        },
        ChannelStripMsg::DisableSaturation if kind == KnobKind::Saturation => UpPlan::SetMode {
            mode: WidgetMode::Disabled,
            eq_type: None,
        },
        ChannelStripMsg::HpfFreq(v) if kind == KnobKind::Hpf => UpPlan::Value { slot: 0, v, ring: left, dirty: 1 },
        ChannelStripMsg::HpfSlope(v) if kind == KnobKind::Hpf => UpPlan::Value { slot: 1, v, ring: None, dirty: 2 },
        ChannelStripMsg::EqType(t) if kind == KnobKind::Hpf => UpPlan::EqType(t),
        ChannelStripMsg::LowFreq(v) if kind == KnobKind::LowFreq => UpPlan::Value { slot: 0, v, ring: left, dirty: 0 },
        ChannelStripMsg::LowSlope(v) if kind == KnobKind::LowFreq => UpPlan::Value { slot: 1, v, ring: None, dirty: 2 },
        ChannelStripMsg::LowBandMode(b) if kind == KnobKind::LowFreq => UpPlan::Band(b),
        ChannelStripMsg::LowGain(v) if kind == KnobKind::LowGain => UpPlan::Value { slot: 0, v, ring: centre, dirty: 0 },
        ChannelStripMsg::LmFreq(v) if kind == KnobKind::LmFreq => UpPlan::Value { slot: 0, v, ring: left, dirty: 0 },
        ChannelStripMsg::LmQ(v) if kind == KnobKind::LmFreq => UpPlan::Value { slot: 1, v, ring: None, dirty: 2 },
        ChannelStripMsg::LmGain(v) if kind == KnobKind::LmGain => UpPlan::Value { slot: 0, v, ring: centre, dirty: 0 },
        ChannelStripMsg::HmFreq(v) if kind == KnobKind::HmFreq => UpPlan::Value { slot: 0, v, ring: left, dirty: 0 },
        ChannelStripMsg::HmQ(v) if kind == KnobKind::HmFreq => UpPlan::Value { slot: 1, v, ring: None, dirty: 2 },
        ChannelStripMsg::HmGain(v) if kind == KnobKind::HmGain => UpPlan::Value { slot: 0, v, ring: centre, dirty: 0 },
        ChannelStripMsg::HighFreq(v) if kind == KnobKind::HighFreq => UpPlan::Value { slot: 0, v, ring: left, dirty: 0 },
        ChannelStripMsg::HighQ(v) if kind == KnobKind::HighFreq => UpPlan::Value { slot: 1, v, ring: None, dirty: 2 },
        ChannelStripMsg::HighBandMode(b) if kind == KnobKind::HighFreq => UpPlan::Band(b),
        _ => UpPlan::Nothing,
    }
}

/// The place a click or shift-click resets a value to, if it does: the slot, the value
/// kept, the value sent up, which of the caller's ring places shows it (true: that of
/// 0.5, false: that of 0.0) and the line to draw again.
pub open spec fn reset_plan(kind: KnobKind, shift: bool) -> Option<(u8, u32, u32, bool, u8)> {
    match kind {
        KnobKind::LowGain | KnobKind::LmGain => Some((0u8, HALF_BITS, HALF_BITS, true, 1u8)),
        KnobKind::HmGain => Some((0u8, HALF_BITS, ZERO_BITS, false, 1u8)),
        KnobKind::HighGain => if shift {
            Some((1u8, HALF_BITS, HALF_BITS, true, 2u8))
        } else {
            Some((0u8, HALF_BITS, HALF_BITS, true, 1u8))
        },
        _ => None,
    }
}

fn reset_plan_of(kind: KnobKind, shift: bool) -> (r: Option<(u8, u32, u32, bool, u8)>)
    ensures
        r == reset_plan(kind, shift),
{
    match kind {
        KnobKind::LowGain | KnobKind::LmGain => Some((0u8, HALF_BITS, HALF_BITS, true, 1u8)),
        KnobKind::HmGain => Some((0u8, HALF_BITS, ZERO_BITS, false, 1u8)),
        KnobKind::HighGain => if shift {
            Some((1u8, HALF_BITS, HALF_BITS, true, 2u8))
        } else {
            Some((0u8, HALF_BITS, HALF_BITS, true, 1u8))
        },
        _ => None,
    }
}

impl KnobWidget {
    fn reset(&mut self, shift: bool, ring_half: u8, ring_zero: u8) -> (r: Option<DownstreamOutcome>)
        ensures
            final(self).spec_kind() == old(self).spec_kind(),
            final(self).spec_hw_idx() == old(self).spec_hw_idx(),
            final(self).spec_view() == old(self).spec_view(),
            match reset_plan(old(self).spec_kind(), shift) {
                Some((slot, kept, sent, half, dirty)) => {
                    &&& final(self).spec_state() == with_slot(old(self).spec_state(), slot, kept)
                    &&& r matches Some(o) && gives(
                        o,
                        Some(value_msg(old(self).spec_kind(), slot, sent)),
                        ring_of(
                            Some(v1m::EncoderRingMode::FromCenter),
                            old(self).spec_hw_idx(),
                            if half { ring_half } else { ring_zero },
                        ),
                        dirty,
                        None,
                    )
                },
                None => r is None && final(self).spec_state() == old(self).spec_state(),
            },
    {
        match reset_plan_of(self.kind, shift) {
            Some((slot, kept, sent, half, dirty)) => {
                self.set_slot(slot, kept);
                let msg = make_value_msg(self.kind, slot, sent);
                Some(outcome(
                    Some(msg),
                    Some(v1m::EncoderRingMode::FromCenter),
                    self.hw_idx,
                    if half { ring_half } else { ring_zero },
                    dirty,
                    None,
                ))
            },
            None => None,
        }
    }

    /// A click: the high-pass filter enables the EQ from its disabled layer and disables it
    /// from its normal and shift layers, telling the other widgets; the band gains reset to
    /// 0.5 (the HM gain keeps 0.5 but sends 0.0); the compressor threshold enables the
    /// first compressor from its disabled layer; saturation switches between in and out.
    /// `ring_half` and `ring_zero` are the ring places of 0.5 and 0.0.
    pub fn on_click(&mut self, ring_half: u8, ring_zero: u8) -> (r: Option<DownstreamOutcome>)
        ensures
            final(self).spec_kind() == old(self).spec_kind(),
            final(self).spec_hw_idx() == old(self).spec_hw_idx(),
            ({
                let k = old(self).spec_kind();
                let st = old(self).spec_state();
                let v = old(self).spec_view();
                let nv = final(self).spec_view();
                let ns = final(self).spec_state();
                if k == KnobKind::Hpf {
                    &&& nv == v && ns == st
                    &&& match v.mode {
                        WidgetMode::Disabled => r matches Some(o) && gives(
                            o,
                            Some(ChannelStripMsg::EnableEq(st.eq_type)),
                            Seq::empty(),
                            7,
                            Some(eq_note(true)),
                        ),
                        WidgetMode::Normal | WidgetMode::Shift => r matches Some(o) && gives(
                            o,
                            Some(ChannelStripMsg::DisableEq),
                            Seq::empty(),
                            7,
                            Some(eq_note(false)),
                        ),
                        _ => r is None,
                    }
                } else if k == KnobKind::CompThresh {
                    if v.mode == WidgetMode::Disabled {
                        &&& ns == KnobState { comp1_enabled: true, ..st }
                        &&& nv == WidgetView { mode: WidgetMode::Normal, ..v }
                        &&& r matches Some(o) && gives(
                            o,
                            Some(ChannelStripMsg::EnableComp1(st.comp1_type)),
                            Seq::empty(),
                            7,
                            Some(comp1_note()),
                        )
                    } else {
                        r is None && nv == v && ns == st
                    }
                } else if k == KnobKind::Saturation {
                    let s = match st.sat_in {
                        SaturationBypass::IN => SaturationBypass::OUT,
                        SaturationBypass::OUT => SaturationBypass::IN,
                    };
                    &&& ns == KnobState { sat_in: s, ..st }
                    &&& same_but(v, nv, false, false, false, true, false) && nv.line2_normal@ == s.spec_label()
                    &&& r matches Some(o) && gives(
                        o,
                        Some(match s {
                            SaturationBypass::IN => ChannelStripMsg::EnableSaturation(st.sat_type),
                            SaturationBypass::OUT => ChannelStripMsg::DisableSaturation,
                        }),
                        Seq::empty(),
                        2,
                        None,
                    )
                } else {
                    &&& nv == v
                    &&& match reset_plan(k, false) {
                        Some((slot, kept, sent, half, dirty)) => {
                            &&& ns == with_slot(st, slot, kept)
                            &&& r matches Some(o) && gives(
                                o,
                                Some(value_msg(k, slot, sent)),
                                ring_of(
                                    Some(v1m::EncoderRingMode::FromCenter),
                                    old(self).spec_hw_idx(),
                                    if half { ring_half } else { ring_zero },
                                ),
                                dirty,
                                None,
                            )
                        },
                        None => r is None && ns == st,
                    }
                }
            }),
    {
        if self.kind == KnobKind::Hpf {
            match self.view.mode {
                WidgetMode::Disabled => Some(outcome(
                    Some(ChannelStripMsg::EnableEq(self.st.eq_type)),
                    None,
                    self.hw_idx,
                    0,
                    7,
                    Some(eq_snapshot(true)),
                )),
                WidgetMode::Normal | WidgetMode::Shift => Some(outcome(
                    Some(ChannelStripMsg::DisableEq),
                    None,
                    self.hw_idx,
                    0,
                    7,
                    Some(eq_snapshot(false)),
                )),
                _ => None,
            }
        } else if self.kind == KnobKind::CompThresh {
            if self.view.mode == WidgetMode::Disabled {
                self.st.comp1_enabled = true;
                self.view.mode = WidgetMode::Normal;
                Some(outcome(
                    Some(ChannelStripMsg::EnableComp1(self.st.comp1_type)),
                    None,
                    self.hw_idx,
                    0,
                    7,
                    Some(comp1_snapshot()),
                ))
            } else {
                None
            }
        } else if self.kind == KnobKind::Saturation {
            let s = self.st.sat_in.next();
            self.st.sat_in = s;
            self.view.line2_normal = s.as_str().to_string();
            let msg = match s {
                SaturationBypass::IN => ChannelStripMsg::EnableSaturation(self.st.sat_type),
                SaturationBypass::OUT => ChannelStripMsg::DisableSaturation,
            };
            Some(outcome(Some(msg), None, self.hw_idx, 0, 2, None))
        } else {
            self.reset(false, ring_half, ring_zero)
        }
    }

    /// A shift-click: the band gains reset as on a click, but the high gain resets its
    /// sides gain to 0.5 instead; the other widgets do nothing.
    pub fn on_shift_click(&mut self, ring_half: u8, ring_zero: u8) -> (r: Option<DownstreamOutcome>)
        ensures
            final(self).spec_kind() == old(self).spec_kind(),
            final(self).spec_hw_idx() == old(self).spec_hw_idx(),
            final(self).spec_view() == old(self).spec_view(),
            match reset_plan(old(self).spec_kind(), true) {
                Some((slot, kept, sent, half, dirty)) => {
                    &&& final(self).spec_state() == with_slot(old(self).spec_state(), slot, kept)
                    &&& r matches Some(o) && gives(
                        o,
                        Some(value_msg(old(self).spec_kind(), slot, sent)),
                        ring_of(
                            Some(v1m::EncoderRingMode::FromCenter),
                            old(self).spec_hw_idx(),
                            if half { ring_half } else { ring_zero },
                        ),
                        dirty,
                        None,
                    )
                },
                None => r is None && final(self).spec_state() == old(self).spec_state(),
            },
    {
        self.reset(true, ring_half, ring_zero)
    }

    /// Take what the snapshot says: the EQ widgets are enabled exactly when it says the EQ
    /// is on (the high-pass filter also takes the EQ type and shows it); the compressor
    /// widgets become enabled when it says the first compressor is on, and take the
    /// compressor types (the threshold also keeps which compressors are on).
    pub fn handle_snapshot(&mut self, snapshot: &ChannelStripSnapshot) -> (r: Option<DownstreamOutcome>)
        ensures
            r is None,
            final(self).spec_kind() == old(self).spec_kind(),
            final(self).spec_hw_idx() == old(self).spec_hw_idx(),
            ({
                let k = old(self).spec_kind();
                let st = old(self).spec_state();
                let v = old(self).spec_view();
                let nv = final(self).spec_view();
                let ns = final(self).spec_state();
                if is_eq(k) {
                    let m = if snapshot.eq_enabled == Some(true) { WidgetMode::Normal } else { WidgetMode::Disabled };
                    if k == KnobKind::Hpf && snapshot.eq_type is Some {
                        let t = snapshot.eq_type->0;
                        &&& ns == KnobState { eq_type: t, ..st }
                        &&& nv.mode == m
                        &&& same_but(v, nv, true, false, true, false, true)
                        &&& nv.line2_disabled@ == t.spec_label() && nv.line2_shift@ == t.spec_label()
                    } else {
                        ns == st && nv == WidgetView { mode: m, ..v }
                    }
                } else if is_comp(k) {
                    let on = if k == KnobKind::CompThresh {
                        match snapshot.comp1_enabled {
                            Some(e) => e,
                            None => st.comp1_enabled,
                        }
                    } else {
                        snapshot.comp1_enabled == Some(true)
                    };
                    let enables = if k == KnobKind::CompThresh {
                        snapshot.comp1_enabled is Some && on
                    } else {
                        on
                    };
                    &&& nv == (if v.mode == WidgetMode::Disabled && enables {
                        WidgetView { mode: WidgetMode::Normal, ..v }
                    } else {
                        v
                    })
                    &&& ns == KnobState {
                        comp1_enabled: if k == KnobKind::CompThresh { on } else { st.comp1_enabled },
                        comp2_enabled: if k == KnobKind::CompThresh {
                            match snapshot.comp2_enabled {
                                Some(e) => e,
                                None => st.comp2_enabled,
                            }
                        } else {
                            st.comp2_enabled
                        },
                        comp1_type: match snapshot.comp1_type {
                            Some(t) => t,
                            None => st.comp1_type,
                        },
                        comp2_type: match snapshot.comp2_type {
                            Some(t) => t,
                            None => st.comp2_type,
                        },
                        ..st
                    }
                } else {
                    nv == v && ns == st
                }
            }),
    {
        let k = self.kind;
        if k == KnobKind::Hpf || k == KnobKind::LowFreq || k == KnobKind::LowGain || k == KnobKind::LmFreq || k
            == KnobKind::LmGain || k == KnobKind::HmFreq || k == KnobKind::HmGain || k == KnobKind::HighFreq || k
            == KnobKind::HighGain {
            self.snapshot_eq(snapshot);
        } else if k == KnobKind::CompThresh || k == KnobKind::CompRatio || k == KnobKind::CompMakeup {
            self.snapshot_comp(snapshot);
        }
        None
    }

    fn snapshot_eq(&mut self, snapshot: &ChannelStripSnapshot)
        requires
            is_eq(old(self).spec_kind()),
        ensures
            final(self).spec_kind() == old(self).spec_kind(),
            final(self).spec_hw_idx() == old(self).spec_hw_idx(),
            ({
                let k = old(self).spec_kind();
                let st = old(self).spec_state();
                let v = old(self).spec_view();
                let nv = final(self).spec_view();
                let ns = final(self).spec_state();
                let m = if snapshot.eq_enabled == Some(true) { WidgetMode::Normal } else { WidgetMode::Disabled };
                if k == KnobKind::Hpf && snapshot.eq_type is Some {
                    let t = snapshot.eq_type->0;
                    &&& ns == KnobState { eq_type: t, ..st }
                    &&& nv.mode == m
                    &&& same_but(v, nv, true, false, true, false, true)
                    &&& nv.line2_disabled@ == t.spec_label() && nv.line2_shift@ == t.spec_label()
                } else {
                    ns == st && nv == WidgetView { mode: m, ..v }
                }
            }),
    {
        self.view.mode = if snapshot.eq_enabled == Some(true) {
            WidgetMode::Normal
        } else {
            WidgetMode::Disabled
        };
        if self.kind == KnobKind::Hpf {
            if let Some(t) = snapshot.eq_type {
                self.st.eq_type = t;
                self.view.line2_disabled = t.as_str().to_string();
                self.view.line2_shift = t.as_str().to_string();
            }
        }
    }

    fn snapshot_comp(&mut self, snapshot: &ChannelStripSnapshot)
        requires
            is_comp(old(self).spec_kind()),
        ensures
            final(self).spec_kind() == old(self).spec_kind(),
            final(self).spec_hw_idx() == old(self).spec_hw_idx(),
            ({
                let k = old(self).spec_kind();
                let st = old(self).spec_state();
                let v = old(self).spec_view();
                let nv = final(self).spec_view();
                let ns = final(self).spec_state();
                let on = if k == KnobKind::CompThresh {
                    match snapshot.comp1_enabled {
                        Some(e) => e,
                        None => st.comp1_enabled,
                    }
                } else {
                    snapshot.comp1_enabled == Some(true)
                };
                let enables = if k == KnobKind::CompThresh {
                    snapshot.comp1_enabled is Some && on
                } else {
                    on
                };
                &&& nv == (if v.mode == WidgetMode::Disabled && enables {
                    WidgetView { mode: WidgetMode::Normal, ..v }
                } else {
                    v
                })
                &&& ns == KnobState {
                    comp1_enabled: if k == KnobKind::CompThresh { on } else { st.comp1_enabled },
                    comp2_enabled: if k == KnobKind::CompThresh {
                        match snapshot.comp2_enabled {
                            Some(e) => e,
                            None => st.comp2_enabled,
                        }
                    } else {
                        st.comp2_enabled
                    },
                    comp1_type: match snapshot.comp1_type {
                        Some(t) => t,
                        None => st.comp1_type,
                    },
                    comp2_type: match snapshot.comp2_type {
                        Some(t) => t,
                        None => st.comp2_type,
                    },
                    ..st
                }
            }),
    {
        let st = self.st;
        let thresh = self.kind == KnobKind::CompThresh;
        let on = if thresh {
            match snapshot.comp1_enabled {
                Some(e) => e,
                None => st.comp1_enabled,
            }
        } else {
            match snapshot.comp1_enabled {
                Some(e) => e,
                None => false,
            }
        };
        let enables = if thresh {
            snapshot.comp1_enabled.is_some() && on
        } else {
            on
        };
        let comp2_enabled = if thresh {
            match snapshot.comp2_enabled {
                Some(e) => e,
                None => st.comp2_enabled,
            }
        } else {
            st.comp2_enabled
        };
        let comp1_type = match snapshot.comp1_type {
            Some(t) => t,
            None => st.comp1_type,
        };
        let comp2_type = match snapshot.comp2_type {
            Some(t) => t,
            None => st.comp2_type,
        };
        self.st = KnobState {
            comp1_enabled: if thresh { on } else { st.comp1_enabled },
            comp2_enabled,
            comp1_type,
            comp2_type,
            ..st
        };
        if self.view.mode == WidgetMode::Disabled && enables {
            self.view.mode = WidgetMode::Normal;
        }
    }

    /// A message from upstream, as `up_plan` says; `ring` is the ring place of the value
    /// the message carries, when it carries one.
    pub fn handle_message_from_upstream(&mut self, msg: ChannelStripMsg, ring: u8) -> (r: UpstreamOutcome)
        ensures
            final(self).spec_kind() == old(self).spec_kind(),
            final(self).spec_hw_idx() == old(self).spec_hw_idx(),
            ({
                let st = old(self).spec_state();
                let v = old(self).spec_view();
                let nv = final(self).spec_view();
                let ns = final(self).spec_state();
                match up_plan(old(self).spec_kind(), msg) {
                    UpPlan::Nothing => nv == v && ns == st && r.downstream_msgs@.len() == 0 && r.dirty.spec_bits() == 0,
                    UpPlan::SetMode { mode, eq_type } => {
                        &&& nv == WidgetView { mode, ..v }
                        &&& ns == match eq_type {
                            Some(t) => KnobState { eq_type: t, ..st },
                            None => st,
                        }
                        &&& r.downstream_msgs@.len() == 0 && r.dirty.spec_bits() == 7
                    },
                    UpPlan::Redraw => nv == v && ns == st && r.downstream_msgs@.len() == 0 && r.dirty.spec_bits() == 7,
                    UpPlan::Value { slot, v: x, ring: mode, dirty } => {
                        &&& nv == v && ns == with_slot(st, slot, x)
                        &&& r.downstream_msgs@ == ring_of(mode, old(self).spec_hw_idx(), ring)
                        &&& r.dirty.spec_bits() == dirty
                    },
                    UpPlan::EqType(t) => nv == v && ns == KnobState { eq_type: t, ..st } && r.downstream_msgs@.len()
                        == 0 && r.dirty.spec_bits() == 2,
                    UpPlan::Band(b) => nv == v && ns == KnobState { band_mode: b, ..st } && r.downstream_msgs@.len()
                        == 0 && r.dirty.spec_bits() == 2,
                }
            }),
    {
        match up_plan_of(self.kind, msg) {
            UpPlan::Nothing => upstream_outcome(None, self.hw_idx, 0, 0),
            UpPlan::SetMode { mode, eq_type } => {
                self.view.mode = mode;
                if let Some(t) = eq_type {
                    self.st.eq_type = t;
                }
                upstream_outcome(None, self.hw_idx, 0, 7)
            },
            UpPlan::Redraw => upstream_outcome(None, self.hw_idx, 0, 7),
            UpPlan::Value { slot, v, ring: mode, dirty } => {
                self.set_slot(slot, v);
                upstream_outcome(mode, self.hw_idx, ring, dirty)
            },
            UpPlan::EqType(t) => {
                self.st.eq_type = t;
                upstream_outcome(None, self.hw_idx, 0, 2)
            },
            UpPlan::Band(b) => {
                self.st.band_mode = b;
                upstream_outcome(None, self.hw_idx, 0, 2)
            },
        }
    }
}

fn eq_snapshot(on: bool) -> (r: ChannelStripSnapshot)
    ensures
        r == eq_note(on),
{
    ChannelStripSnapshot {
        eq_enabled: Some(on),
        eq_type: None,
        eq_pos: None,
        low_mode: None,
        high_mode: None,
        comp1_enabled: None,
        comp2_enabled: None,
        comp1_type: None,
        comp2_type: None,
        comp_1_sidechain_freq: None,
        comp_2_sidechain_freq: None,
        comp_order: None,
    }
}

fn comp1_snapshot() -> (r: ChannelStripSnapshot)
    ensures
        r == comp1_note(),
{
    ChannelStripSnapshot {
        eq_enabled: None,
        eq_type: None,
        eq_pos: None,
        low_mode: None,
        high_mode: None,
        comp1_enabled: Some(true),
        comp2_enabled: None,
        comp1_type: None,
        comp2_type: None,
        comp_1_sidechain_freq: None,
        comp_2_sidechain_freq: None,
        comp_order: None,
    }
}

/// The texts of each widget as it starts: first and second line of the normal layer, of
/// the shift layer, and of the disabled layer.
pub open spec fn initial_lines(kind: KnobKind) -> (Seq<char>, Seq<char>, Seq<char>, Seq<char>, Seq<char>, Seq<char>) {
    match kind {
        KnobKind::Hpf => ("HP Filter"@, "DisblEQ"@, "EQ Type"@, "Digital"@, "Digital"@, "EnablEQ"@),
        KnobKind::LowFreq => ("LowFreq"@, ""@, "LowMode"@, "shelf"@, ""@, ""@),
        KnobKind::LowGain => ("LowGain"@, "zero"@, "LowGain"@, "zero"@, ""@, ""@),
        KnobKind::LmFreq => ("LMFreq"@, "Q"@, "LMFreq"@, "Q"@, ""@, ""@),
        KnobKind::LmGain => ("LMGain"@, "zero"@, "LMGain"@, "zero"@, ""@, ""@),
        KnobKind::HmFreq => ("HMFreq"@, "Q"@, "HMFreq"@, "Q"@, ""@, ""@),
        KnobKind::HmGain => ("HMGain"@, "zero"@, "HMGain"@, "zero"@, ""@, ""@),
        KnobKind::HighFreq => ("Hi Freq"@, "Q"@, "Hi Mode"@, "shelf"@, ""@, ""@),
        KnobKind::HighGain => ("Hi Gain"@, "zero"@, "HiSides"@, "zero"@, ""@, ""@),
        KnobKind::CompThresh => ("CompThr"@, "20ms"@, "Cmp2Thr"@, "20ms"@, "1176"@, "EblCmp1"@),
        KnobKind::CompRatio => ("CompRat"@, "200ms"@, "Cmp2Rat"@, "200ms"@, ""@, ""@),
        KnobKind::CompMakeup => ("CompMkp"@, "SideFreq"@, "Cmp2Mkp"@, "SideFreq"@, ""@, ""@),
        KnobKind::Saturation => ("Saturation"@, "Tape"@, "Saturation"@, "SatIN"@, ""@, ""@),
        KnobKind::Gain => ("Gain"@, "Trim"@, "Gain"@, "Trim"@, ""@, ""@),
    }
}

fn lines_for(kind: KnobKind) -> (r: (&'static str, &'static str, &'static str, &'static str, &'static str, &'static str))
    ensures
        (r.0@, r.1@, r.2@, r.3@, r.4@, r.5@) == initial_lines(kind),
{
    match kind {
        KnobKind::Hpf => ("HP Filter", "DisblEQ", "EQ Type", "Digital", "Digital", "EnablEQ"),
        KnobKind::LowFreq => ("LowFreq", "", "LowMode", "shelf", "", ""),
        KnobKind::LowGain => ("LowGain", "zero", "LowGain", "zero", "", ""),
        KnobKind::LmFreq => ("LMFreq", "Q", "LMFreq", "Q", "", ""),
        KnobKind::LmGain => ("LMGain", "zero", "LMGain", "zero", "", ""),
        KnobKind::HmFreq => ("HMFreq", "Q", "HMFreq", "Q", "", ""),
        KnobKind::HmGain => ("HMGain", "zero", "HMGain", "zero", "", ""),
        KnobKind::HighFreq => ("Hi Freq", "Q", "Hi Mode", "shelf", "", ""),
        KnobKind::HighGain => ("Hi Gain", "zero", "HiSides", "zero", "", ""),
        KnobKind::CompThresh => ("CompThr", "20ms", "Cmp2Thr", "20ms", "1176", "EblCmp1"),
        KnobKind::CompRatio => ("CompRat", "200ms", "Cmp2Rat", "200ms", "", ""),
        KnobKind::CompMakeup => ("CompMkp", "SideFreq", "Cmp2Mkp", "SideFreq", "", ""),
        KnobKind::Saturation => ("Saturation", "Tape", "Saturation", "SatIN", "", ""),
        KnobKind::Gain => ("Gain", "Trim", "Gain", "Trim", "", ""),
    }
}

} // verus!
