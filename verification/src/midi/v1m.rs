//! Messages of the iCON V1-M control surface, and the MIDI bytes that carry them.
use vstd::prelude::*;

use crate::midi::base::{
    channel_bytes, read_message, read_short_message, ChannelPressure, ControlChange, NoteOn, PitchBend,
    ShortMessage,
};
use crate::midi::text::{compact_to_7_bytes, text_compaction};
use vstd::utf8::encode_utf8;
use crate::modes::coalesce::{merge_keeps_key, CoalesceKey, Coalescible};
use crate::modes::mode_manager::Barrier;
use crate::midi::compact::views;

verus! {

#[derive(Clone, Copy, Debug, PartialEq, Eq, Hash, Structural)]
pub enum StereoChannel {
    Left,
    Right,
}

#[derive(Clone, Copy, Debug, PartialEq, Eq, Hash, Structural)]
pub enum Slot {
    DAW1,
    DAW2,
    DAW3,
}

#[derive(Clone, Copy, Debug, PartialEq, Eq, Hash, Structural)]
pub enum DawId {
    Bitwig,
    Cubase,
    ProTools,
    Logic,
    Live,
    Reaper,
    Reason,
    StudioOne,
    FLStudio,
    Cakewalk,
    DigitalPerformer,
    Samplitude,
    Harrison,
    Nuendo,
    Audition,
    Tracktion,
    Ability,
    Luna,
}

#[derive(Clone, Copy, Debug, PartialEq, Eq, Hash, Structural)]
pub enum TouchScreenLayer {
    Blue,
    Green,
    Yellow,
    User1,
    User2,
}

/// Position of a channel fader; `value` holds the bits of the `f64` position, 0.0 at the
/// bottom and 1.0 at the top.
#[derive(Clone, Copy, Debug, PartialEq, Eq, Structural)]
pub struct ChannelFaderMsg {
    pub idx: i32,
    pub value: u64,
}

/// Position of the master fader; `value` holds the bits of the `f64` position.
#[derive(Clone, Copy, Debug, PartialEq, Eq, Structural)]
pub struct MasterFaderMsg {
    pub value: u64,
}

#[derive(Clone, Copy, Debug, PartialEq, Eq, Structural)]
pub struct EncoderTurnCW {
    pub idx: i32,
    pub accel: u8,
}

#[derive(Clone, Copy, Debug, PartialEq, Eq, Structural)]
pub struct EncoderTurnCCW {
    pub idx: i32,
    pub accel: u8,
}

#[derive(Clone, Copy, Debug, PartialEq, Eq, Structural)]
pub struct EncoderPressMsg {
    pub idx: i32,
}

#[derive(Clone, Copy, Debug, PartialEq, Eq, Structural)]
pub struct EncoderReleaseMsg {
    pub idx: i32,
}

#[derive(Clone, Copy, Debug, PartialEq, Eq, Structural)]
pub struct EncoderRingMsg {
    pub idx: i32,
    pub mode: EncoderRingMode,
    pub val: u8,
}

#[derive(Clone, Copy, Debug, PartialEq, Eq, Structural)]
pub enum EncoderRingMode {
    Point,
    FromCenter,
    FromLeft,
    Width,
}

pub const ENCODER_CENTER_MODE_CENTER: u8 = 0x06;

#[derive(Clone, Copy, Debug, PartialEq, Eq, Structural)]
pub struct EncoderRingLEDBlankMsg {
    pub idx: i32,
}

#[derive(Clone, Copy, Debug, PartialEq, Eq, Structural)]
pub enum LEDState {
    Off,
    On,
    Flash,
}

impl From<bool> for LEDState {
    fn from(value: bool) -> (r: Self) {
        if value {
            LEDState::On
        } else {
            LEDState::Off
        }
    }
}

impl vstd::std_specs::convert::FromSpecImpl<bool> for LEDState {
    open spec fn obeys_from_spec() -> bool {
        true
    }

    open spec fn from_spec(value: bool) -> Self {
        if value {
            LEDState::On
        } else {
            LEDState::Off
        }
    }
}

#[derive(Clone, Copy, Debug, PartialEq, Eq, Structural)]
pub struct MutePress {
    pub idx: i32,
}

#[derive(Clone, Copy, Debug, PartialEq, Eq, Structural)]
pub struct MuteRelease {
    pub idx: i32,
}

#[derive(Clone, Copy, Debug, PartialEq, Eq, Structural)]
pub struct MuteLEDMsg {
    pub idx: i32,
    pub state: LEDState,
}

#[derive(Clone, Copy, Debug, PartialEq, Eq, Structural)]
pub struct SoloPress {
    pub idx: i32,
}

#[derive(Clone, Copy, Debug, PartialEq, Eq, Structural)]
pub struct SoloRelease {
    pub idx: i32,
}

#[derive(Clone, Copy, Debug, PartialEq, Eq, Structural)]
pub struct SoloLEDMsg {
    pub idx: i32,
    pub state: LEDState,
}

#[derive(Clone, Copy, Debug, PartialEq, Eq, Structural)]
pub struct ArmPress {
    pub idx: i32,
}

#[derive(Clone, Copy, Debug, PartialEq, Eq, Structural)]
pub struct ArmRelease {
    pub idx: i32,
}

#[derive(Clone, Copy, Debug, PartialEq, Eq, Structural)]
pub struct ArmLEDMsg {
    pub idx: i32,
    pub state: LEDState,
}

#[derive(Clone, Copy, Debug, PartialEq, Eq, Structural)]
pub struct SelectPress {
    pub idx: i32,
}

#[derive(Clone, Copy, Debug, PartialEq, Eq, Structural)]
pub struct SelectRelease {
    pub idx: i32,
}

#[derive(Clone, Copy, Debug, PartialEq, Eq, Structural)]
pub struct SelectLEDMsg {
    pub idx: i32,
    pub state: LEDState,
}

/// Level of a channel meter; `db` holds the bits of the `f64` level in dB.
#[derive(Clone, Copy, Debug, PartialEq, Eq, Structural)]
pub struct ChannelMeterMsg {
    pub idx: i32,
    pub db: u64,
}

/// Level of one side of the master meter; `db` holds the bits of the `f64` level in dB.
#[derive(Clone, Copy, Debug, PartialEq, Eq, Structural)]
pub struct MasterMeterMsg {
    pub channel: StereoChannel,
    pub db: u64,
}

#[derive(Clone, Copy, Debug, PartialEq, Eq, Structural)]
pub struct Color {
    pub r: u8,
    pub g: u8,
    pub b: u8,
}

#[derive(Clone, Debug)]
pub struct TopScribbleStripLine1TextMsg {
    pub idx: i32,
    pub text: String,
}

#[derive(Clone, Debug)]
pub struct TopScribbleStripLine2TextMsg {
    pub idx: i32,
    pub text: String,
}

#[derive(Clone, Debug)]
pub struct BottomScribbleStripLine1TextMsg {
    pub idx: i32,
    pub text: String,
}

#[derive(Clone, Debug)]
pub struct BottomScribbleStripLine2TextMsg {
    pub idx: i32,
    pub text: String,
}

#[derive(Clone, Debug)]
pub struct TopScribbleStripColorMsg {
    pub idx: i32,
    pub color: Color,
}

#[derive(Clone, Debug)]
pub struct SevenSegmentDisplayMsg {
    pub text: String,
}

#[derive(Clone, Debug)]
pub struct TouchScreenSetTextMsg {
    pub slot: Slot,
    pub daw_id: DawId,
    pub row: usize,
    pub column: usize,
    pub layer: TouchScreenLayer,
    pub text: String,
}

#[derive(Clone, Debug)]
pub struct TouchScreenSetButtonBehaviorMsg {
    pub slot: Slot,
    pub daw_id: DawId,
    pub row: usize,
    pub column: usize,
    pub layer: TouchScreenLayer,
    pub midi_channel: u8,
    pub note: u8,
}

#[derive(Clone, Copy, Debug)]
pub enum UpstreamMsg {
    Barrier(Barrier),
    // Channel strip messages
    ChannelFader(ChannelFaderMsg),
    MasterFader(MasterFaderMsg),
    EncoderTurnInc(EncoderTurnCW),
    EncoderTurnDec(EncoderTurnCCW),
    EncoderPress(EncoderPressMsg),
    EncoderRelease(EncoderReleaseMsg),
    MutePress(MutePress),
    MuteRelease(MuteRelease),
    SoloPress(SoloPress),
    SoloRelease(SoloRelease),
    ArmPress(ArmPress),
    ArmRelease(ArmRelease),
    SelectPress(SelectPress),
    SelectRelease(SelectRelease),
    // Encoder assign messages
    TrackPress,
    TrackRelease,
    PanPress,
    PanRelease,
    EQPress,
    EQRelease,
    SendPress,
    SendRelease,
    PluginPress,
    PluginRelease,
    InstPress,
    InstRelease,
    // View messages
    GlobalPress,
    GlobalRelease,
    MIDITracksPress,
    MIDITracksRelease,
    InputsPress,
    InputsRelease,
    AudioTracksPress,
    AudioTracksRelease,
    AudioInstPress,
    AudioInstRelease,
    AuxPress,
    AuxRelease,
    BusesPress,
    BusesRelease,
    OutputsPress,
    OutputsRelease,
    UserPress,
    UserRelease,
    ShiftPress,
    ShiftRelease,
}

#[derive(Clone, Debug)]
pub enum TopScribbleStripMsg {
    Line1Text(TopScribbleStripLine1TextMsg),
    Line2Text(TopScribbleStripLine2TextMsg),
    BackgroundColor(TopScribbleStripColorMsg),
}

#[derive(Clone, Debug)]
pub enum BottomScribbleStripMsg {
    Line1Text(BottomScribbleStripLine1TextMsg),
    Line2Text(BottomScribbleStripLine2TextMsg),
}

#[derive(Clone, Debug)]
pub enum DownstreamMsg {
    Barrier(Barrier),
    // Channel strip messages
    ChannelFader(ChannelFaderMsg),
    MasterFader(MasterFaderMsg),
    EncoderRingLED(EncoderRingMsg),
    MuteLED(MuteLEDMsg),
    SoloLED(SoloLEDMsg),
    ArmLED(ArmLEDMsg),
    SelectLED(SelectLEDMsg),
    ChannelMeter(ChannelMeterMsg),
    MasterMeter(MasterMeterMsg),
    // Scribble strip messages
    TopScribbleStripLine1Text(TopScribbleStripLine1TextMsg),
    TopScribbleStripLine2Text(TopScribbleStripLine2TextMsg),
    TopScribbleStripBackgroundColor(TopScribbleStripColorMsg),
    TopScribbleStripBatch(Vec<TopScribbleStripMsg>),
    BottomScribbleStripLine1Text(BottomScribbleStripLine1TextMsg),
    BottomScribbleStripLine2Text(BottomScribbleStripLine2TextMsg),
    BottomScribbleStripBatch(Vec<BottomScribbleStripMsg>),
    SevenSegmentDisplay(SevenSegmentDisplayMsg),
    TouchScreenSetText(TouchScreenSetTextMsg),
    TouchScreenTextBatch(Vec<TouchScreenSetTextMsg>),
    TouchScreenButtonBehavior(TouchScreenSetButtonBehaviorMsg),
    TouchScreenButtonBehaviorBatch(Vec<TouchScreenSetButtonBehaviorMsg>),
    // Encoder assign messages
    Track(LEDState),
    Pan(LEDState),
    EQ(LEDState),
    Send(LEDState),
    Plugin(LEDState),
    Inst(LEDState),
    // View messages
    Global(LEDState),
    MIDITracks(LEDState),
    Inputs(LEDState),
    AudioTracks(LEDState),
    AudioInst(LEDState),
    Aux(LEDState),
    Buses(LEDState),
    Outputs(LEDState),
    User(LEDState),
}


/// The address of a touch-screen button.
#[derive(Clone, Copy, Debug, PartialEq, Eq, Hash, Structural)]
pub struct TouchScreenAddress {
    pub slot: Slot,
    pub daw_id: DawId,
    pub row: usize,
    pub column: usize,
    pub layer: TouchScreenLayer,
}

/// The address by which downstream messages coalesce: the kind of message and, where
/// there is one, the control it is meant for.
#[derive(Clone, Copy, Debug, PartialEq, Eq, Hash, Structural)]
pub enum DownstreamKey {
    ChannelFader(i32),
    MasterFader,
    EncoderRingLED(i32),
    MuteLED(i32),
    SoloLED(i32),
    ArmLED(i32),
    SelectLED(i32),
    ChannelMeter(i32),
    MasterMeter(StereoChannel),
    TopScribbleStripLine1Text(i32),
    TopScribbleStripLine2Text(i32),
    TopScribbleStripBackgroundColor(i32),
    BottomScribbleStripLine1Text(i32),
    BottomScribbleStripLine2Text(i32),
    SevenSegmentDisplay,
    TouchScreenSetText(TouchScreenAddress),
    TouchScreenButtonBehavior(TouchScreenAddress),
    Track,
    Pan,
    EQ,
    Send,
    Plugin,
    Inst,
    Global,
    MIDITracks,
    Inputs,
    AudioTracks,
    AudioInst,
    Aux,
    Buses,
    Outputs,
    User,
}

impl CoalesceKey for DownstreamKey {
    fn same_key(&self, other: &Self) -> (r: bool) {
        *self == *other
    }
}

impl DownstreamMsg {
    /// The coalescing key: barriers and batches never coalesce.
    pub open spec fn downstream_key(&self) -> Option<DownstreamKey> {
        match self {
            DownstreamMsg::ChannelFader(m) => Some(DownstreamKey::ChannelFader(m.idx)),
            DownstreamMsg::MasterFader(_) => Some(DownstreamKey::MasterFader),
            DownstreamMsg::EncoderRingLED(m) => Some(DownstreamKey::EncoderRingLED(m.idx)),
            DownstreamMsg::MuteLED(m) => Some(DownstreamKey::MuteLED(m.idx)),
            DownstreamMsg::SoloLED(m) => Some(DownstreamKey::SoloLED(m.idx)),
            DownstreamMsg::ArmLED(m) => Some(DownstreamKey::ArmLED(m.idx)),
            DownstreamMsg::SelectLED(m) => Some(DownstreamKey::SelectLED(m.idx)),
            DownstreamMsg::ChannelMeter(m) => Some(DownstreamKey::ChannelMeter(m.idx)),
            DownstreamMsg::MasterMeter(m) => Some(DownstreamKey::MasterMeter(m.channel)),
            DownstreamMsg::TopScribbleStripLine1Text(m) => Some(DownstreamKey::TopScribbleStripLine1Text(m.idx)),
            DownstreamMsg::TopScribbleStripLine2Text(m) => Some(DownstreamKey::TopScribbleStripLine2Text(m.idx)),
            DownstreamMsg::TopScribbleStripBackgroundColor(m) => Some(DownstreamKey::TopScribbleStripBackgroundColor(m.idx)),
            DownstreamMsg::BottomScribbleStripLine1Text(m) => Some(DownstreamKey::BottomScribbleStripLine1Text(m.idx)),
            DownstreamMsg::BottomScribbleStripLine2Text(m) => Some(DownstreamKey::BottomScribbleStripLine2Text(m.idx)),
            DownstreamMsg::SevenSegmentDisplay(_) => Some(DownstreamKey::SevenSegmentDisplay),
            DownstreamMsg::TouchScreenSetText(m) => Some(DownstreamKey::TouchScreenSetText(TouchScreenAddress { slot: m.slot, daw_id: m.daw_id, row: m.row, column: m.column, layer: m.layer })),
            DownstreamMsg::TouchScreenButtonBehavior(m) => Some(DownstreamKey::TouchScreenButtonBehavior(TouchScreenAddress { slot: m.slot, daw_id: m.daw_id, row: m.row, column: m.column, layer: m.layer })),
            DownstreamMsg::Track(_) => Some(DownstreamKey::Track),
            DownstreamMsg::Pan(_) => Some(DownstreamKey::Pan),
            DownstreamMsg::EQ(_) => Some(DownstreamKey::EQ),
            DownstreamMsg::Send(_) => Some(DownstreamKey::Send),
            DownstreamMsg::Plugin(_) => Some(DownstreamKey::Plugin),
            DownstreamMsg::Inst(_) => Some(DownstreamKey::Inst),
            DownstreamMsg::Global(_) => Some(DownstreamKey::Global),
            DownstreamMsg::MIDITracks(_) => Some(DownstreamKey::MIDITracks),
            DownstreamMsg::Inputs(_) => Some(DownstreamKey::Inputs),
            DownstreamMsg::AudioTracks(_) => Some(DownstreamKey::AudioTracks),
            DownstreamMsg::AudioInst(_) => Some(DownstreamKey::AudioInst),
            DownstreamMsg::Aux(_) => Some(DownstreamKey::Aux),
            DownstreamMsg::Buses(_) => Some(DownstreamKey::Buses),
            DownstreamMsg::Outputs(_) => Some(DownstreamKey::Outputs),
            DownstreamMsg::User(_) => Some(DownstreamKey::User),
            DownstreamMsg::Barrier(_) => None,
            DownstreamMsg::TopScribbleStripBatch(_) => None,
            DownstreamMsg::BottomScribbleStripBatch(_) => None,
            DownstreamMsg::TouchScreenTextBatch(_) => None,
            DownstreamMsg::TouchScreenButtonBehaviorBatch(_) => None,
        }
    }

    /// Merging keeps the address of the older message and takes the data of the newer
    /// one; between messages of different kinds the newer one replaces the older.
    pub open spec fn downstream_merge(self, newer: Self) -> Self {
        match (self, newer) {
            (DownstreamMsg::ChannelFader(a), DownstreamMsg::ChannelFader(b)) => DownstreamMsg::ChannelFader(
                ChannelFaderMsg { idx: a.idx, value: b.value },
            ),
            (DownstreamMsg::EncoderRingLED(a), DownstreamMsg::EncoderRingLED(b)) => DownstreamMsg::EncoderRingLED(
                EncoderRingMsg { idx: a.idx, mode: b.mode, val: b.val },
            ),
            (DownstreamMsg::MuteLED(a), DownstreamMsg::MuteLED(b)) => DownstreamMsg::MuteLED(
                MuteLEDMsg { idx: a.idx, state: b.state },
            ),
            (DownstreamMsg::SoloLED(a), DownstreamMsg::SoloLED(b)) => DownstreamMsg::SoloLED(
                SoloLEDMsg { idx: a.idx, state: b.state },
            ),
            (DownstreamMsg::ArmLED(a), DownstreamMsg::ArmLED(b)) => DownstreamMsg::ArmLED(
                ArmLEDMsg { idx: a.idx, state: b.state },
            ),
            (DownstreamMsg::SelectLED(a), DownstreamMsg::SelectLED(b)) => DownstreamMsg::SelectLED(
                SelectLEDMsg { idx: a.idx, state: b.state },
            ),
            (DownstreamMsg::ChannelMeter(a), DownstreamMsg::ChannelMeter(b)) => DownstreamMsg::ChannelMeter(
                ChannelMeterMsg { idx: a.idx, db: b.db },
            ),
            (DownstreamMsg::MasterMeter(a), DownstreamMsg::MasterMeter(b)) => DownstreamMsg::MasterMeter(
                MasterMeterMsg { channel: a.channel, db: b.db },
            ),
            (DownstreamMsg::TopScribbleStripLine1Text(a), DownstreamMsg::TopScribbleStripLine1Text(b)) => DownstreamMsg::TopScribbleStripLine1Text(
                TopScribbleStripLine1TextMsg { idx: a.idx, text: b.text },
            ),
            (DownstreamMsg::TopScribbleStripLine2Text(a), DownstreamMsg::TopScribbleStripLine2Text(b)) => DownstreamMsg::TopScribbleStripLine2Text(
                TopScribbleStripLine2TextMsg { idx: a.idx, text: b.text },
            ),
            (DownstreamMsg::TopScribbleStripBackgroundColor(a), DownstreamMsg::TopScribbleStripBackgroundColor(b)) => DownstreamMsg::TopScribbleStripBackgroundColor(
                TopScribbleStripColorMsg { idx: a.idx, color: b.color },
            ),
            (DownstreamMsg::BottomScribbleStripLine1Text(a), DownstreamMsg::BottomScribbleStripLine1Text(b)) => DownstreamMsg::BottomScribbleStripLine1Text(
                BottomScribbleStripLine1TextMsg { idx: a.idx, text: b.text },
            ),
            (DownstreamMsg::BottomScribbleStripLine2Text(a), DownstreamMsg::BottomScribbleStripLine2Text(b)) => DownstreamMsg::BottomScribbleStripLine2Text(
                BottomScribbleStripLine2TextMsg { idx: a.idx, text: b.text },
            ),
            (DownstreamMsg::TouchScreenSetText(a), DownstreamMsg::TouchScreenSetText(b)) => DownstreamMsg::TouchScreenSetText(
                TouchScreenSetTextMsg { slot: a.slot, daw_id: a.daw_id, row: a.row, column: a.column, layer: a.layer, text: b.text },
            ),
            (DownstreamMsg::TouchScreenButtonBehavior(a), DownstreamMsg::TouchScreenButtonBehavior(b)) => DownstreamMsg::TouchScreenButtonBehavior(
                TouchScreenSetButtonBehaviorMsg { slot: a.slot, daw_id: a.daw_id, row: a.row, column: a.column, layer: a.layer, midi_channel: b.midi_channel, note: b.note },
            ),
            (_, n) => n,
        }
    }
}

/// Last write wins: merging a newer message into a pending one of the same address gives
/// the newer message.
pub proof fn law_merge_keeps_newer(older: DownstreamMsg, newer: DownstreamMsg)
    requires
        older.downstream_key() is Some,
        older.downstream_key() == newer.downstream_key(),
    ensures
        older.downstream_merge(newer) == newer,
{
}

/// Merging keeps a message's address.
pub proof fn lemma_downstream_merge_keeps_key()
    ensures
        merge_keeps_key::<DownstreamMsg>(),
{
    assert forall|a: DownstreamMsg, b: DownstreamMsg|
        a.spec_key() is Some && a.spec_key() == b.spec_key() implies (#[trigger] a.spec_merge(b)).spec_key()
        == a.spec_key() by {
        law_merge_keeps_newer(a, b);
    }
}

impl Coalescible for DownstreamMsg {
    type Key = DownstreamKey;

    open spec fn spec_key(&self) -> Option<DownstreamKey> {
        self.downstream_key()
    }

    open spec fn spec_merge(self, newer: Self) -> Self {
        self.downstream_merge(newer)
    }

    fn key(&self) -> (r: Option<DownstreamKey>) {
        match self {
            DownstreamMsg::ChannelFader(m) => Some(DownstreamKey::ChannelFader(m.idx)),
            DownstreamMsg::MasterFader(_) => Some(DownstreamKey::MasterFader),
            DownstreamMsg::EncoderRingLED(m) => Some(DownstreamKey::EncoderRingLED(m.idx)),
            DownstreamMsg::MuteLED(m) => Some(DownstreamKey::MuteLED(m.idx)),
            DownstreamMsg::SoloLED(m) => Some(DownstreamKey::SoloLED(m.idx)),
            DownstreamMsg::ArmLED(m) => Some(DownstreamKey::ArmLED(m.idx)),
            DownstreamMsg::SelectLED(m) => Some(DownstreamKey::SelectLED(m.idx)),
            DownstreamMsg::ChannelMeter(m) => Some(DownstreamKey::ChannelMeter(m.idx)),
            DownstreamMsg::MasterMeter(m) => Some(DownstreamKey::MasterMeter(m.channel)),
            DownstreamMsg::TopScribbleStripLine1Text(m) => Some(DownstreamKey::TopScribbleStripLine1Text(m.idx)),
            DownstreamMsg::TopScribbleStripLine2Text(m) => Some(DownstreamKey::TopScribbleStripLine2Text(m.idx)),
            DownstreamMsg::TopScribbleStripBackgroundColor(m) => Some(DownstreamKey::TopScribbleStripBackgroundColor(m.idx)),
            DownstreamMsg::BottomScribbleStripLine1Text(m) => Some(DownstreamKey::BottomScribbleStripLine1Text(m.idx)),
            DownstreamMsg::BottomScribbleStripLine2Text(m) => Some(DownstreamKey::BottomScribbleStripLine2Text(m.idx)),
            DownstreamMsg::SevenSegmentDisplay(_) => Some(DownstreamKey::SevenSegmentDisplay),
            DownstreamMsg::TouchScreenSetText(m) => Some(DownstreamKey::TouchScreenSetText(TouchScreenAddress { slot: m.slot, daw_id: m.daw_id, row: m.row, column: m.column, layer: m.layer })),
            DownstreamMsg::TouchScreenButtonBehavior(m) => Some(DownstreamKey::TouchScreenButtonBehavior(TouchScreenAddress { slot: m.slot, daw_id: m.daw_id, row: m.row, column: m.column, layer: m.layer })),
            DownstreamMsg::Track(_) => Some(DownstreamKey::Track),
            DownstreamMsg::Pan(_) => Some(DownstreamKey::Pan),
            DownstreamMsg::EQ(_) => Some(DownstreamKey::EQ),
            DownstreamMsg::Send(_) => Some(DownstreamKey::Send),
            DownstreamMsg::Plugin(_) => Some(DownstreamKey::Plugin),
            DownstreamMsg::Inst(_) => Some(DownstreamKey::Inst),
            DownstreamMsg::Global(_) => Some(DownstreamKey::Global),
            DownstreamMsg::MIDITracks(_) => Some(DownstreamKey::MIDITracks),
            DownstreamMsg::Inputs(_) => Some(DownstreamKey::Inputs),
            DownstreamMsg::AudioTracks(_) => Some(DownstreamKey::AudioTracks),
            DownstreamMsg::AudioInst(_) => Some(DownstreamKey::AudioInst),
            DownstreamMsg::Aux(_) => Some(DownstreamKey::Aux),
            DownstreamMsg::Buses(_) => Some(DownstreamKey::Buses),
            DownstreamMsg::Outputs(_) => Some(DownstreamKey::Outputs),
            DownstreamMsg::User(_) => Some(DownstreamKey::User),
            DownstreamMsg::Barrier(_) => None,
            DownstreamMsg::TopScribbleStripBatch(_) => None,
            DownstreamMsg::BottomScribbleStripBatch(_) => None,
            DownstreamMsg::TouchScreenTextBatch(_) => None,
            DownstreamMsg::TouchScreenButtonBehaviorBatch(_) => None,
        }
    }

    fn merge_from(&mut self, newer: Self) {
        let merged = match (&*self, newer) {
            (DownstreamMsg::ChannelFader(a), DownstreamMsg::ChannelFader(b)) => DownstreamMsg::ChannelFader(
                ChannelFaderMsg { idx: a.idx, value: b.value },
            ),
            (DownstreamMsg::EncoderRingLED(a), DownstreamMsg::EncoderRingLED(b)) => DownstreamMsg::EncoderRingLED(
                EncoderRingMsg { idx: a.idx, mode: b.mode, val: b.val },
            ),
            (DownstreamMsg::MuteLED(a), DownstreamMsg::MuteLED(b)) => DownstreamMsg::MuteLED(
                MuteLEDMsg { idx: a.idx, state: b.state },
            ),
            (DownstreamMsg::SoloLED(a), DownstreamMsg::SoloLED(b)) => DownstreamMsg::SoloLED(
                SoloLEDMsg { idx: a.idx, state: b.state },
            ),
            (DownstreamMsg::ArmLED(a), DownstreamMsg::ArmLED(b)) => DownstreamMsg::ArmLED(
                ArmLEDMsg { idx: a.idx, state: b.state },
            ),
            (DownstreamMsg::SelectLED(a), DownstreamMsg::SelectLED(b)) => DownstreamMsg::SelectLED(
                SelectLEDMsg { idx: a.idx, state: b.state },
            ),
            (DownstreamMsg::ChannelMeter(a), DownstreamMsg::ChannelMeter(b)) => DownstreamMsg::ChannelMeter(
                ChannelMeterMsg { idx: a.idx, db: b.db },
            ),
            (DownstreamMsg::MasterMeter(a), DownstreamMsg::MasterMeter(b)) => DownstreamMsg::MasterMeter(
                MasterMeterMsg { channel: a.channel, db: b.db },
            ),
            (DownstreamMsg::TopScribbleStripLine1Text(a), DownstreamMsg::TopScribbleStripLine1Text(b)) => DownstreamMsg::TopScribbleStripLine1Text(
                TopScribbleStripLine1TextMsg { idx: a.idx, text: b.text },
            ),
            (DownstreamMsg::TopScribbleStripLine2Text(a), DownstreamMsg::TopScribbleStripLine2Text(b)) => DownstreamMsg::TopScribbleStripLine2Text(
                TopScribbleStripLine2TextMsg { idx: a.idx, text: b.text },
            ),
            (DownstreamMsg::TopScribbleStripBackgroundColor(a), DownstreamMsg::TopScribbleStripBackgroundColor(b)) => DownstreamMsg::TopScribbleStripBackgroundColor(
                TopScribbleStripColorMsg { idx: a.idx, color: b.color },
            ),
            (DownstreamMsg::BottomScribbleStripLine1Text(a), DownstreamMsg::BottomScribbleStripLine1Text(b)) => DownstreamMsg::BottomScribbleStripLine1Text(
                BottomScribbleStripLine1TextMsg { idx: a.idx, text: b.text },
            ),
            (DownstreamMsg::BottomScribbleStripLine2Text(a), DownstreamMsg::BottomScribbleStripLine2Text(b)) => DownstreamMsg::BottomScribbleStripLine2Text(
                BottomScribbleStripLine2TextMsg { idx: a.idx, text: b.text },
            ),
            (DownstreamMsg::TouchScreenSetText(a), DownstreamMsg::TouchScreenSetText(b)) => DownstreamMsg::TouchScreenSetText(
                TouchScreenSetTextMsg { slot: a.slot, daw_id: a.daw_id, row: a.row, column: a.column, layer: a.layer, text: b.text },
            ),
            (DownstreamMsg::TouchScreenButtonBehavior(a), DownstreamMsg::TouchScreenButtonBehavior(b)) => DownstreamMsg::TouchScreenButtonBehavior(
                TouchScreenSetButtonBehaviorMsg { slot: a.slot, daw_id: a.daw_id, row: a.row, column: a.column, layer: a.layer, midi_channel: b.midi_channel, note: b.note },
            ),
            (_, n) => n,
        };
        *self = merged;
    }
}


/// Level code of a meter segment (the low nibble of a meter message).
#[derive(Debug, Clone, Copy, PartialEq, Eq, Structural)]
pub enum MeterLevelCode {
    L0,  // < -60 dB
    L1,  // >= -60
    L2,  // >= -50
    L3,  // >= -40
    L4,  // >= -30
    L5,  // >= -20
    L6,  // >= -14
    L7,  // >= -10
    L8,  // >= -8
    L9,  // >= -6
    LA,  // >= -4
    LB,  // >= -2
    LC,  // >=  0
    LD,  // >   0 (100% / over 0 dB)
}

impl MeterLevelCode {
    pub open spec fn nibble(self) -> u8 {
        match self {
            MeterLevelCode::L0 => 0,
            MeterLevelCode::L1 => 1,
            MeterLevelCode::L2 => 2,
            MeterLevelCode::L3 => 3,
            MeterLevelCode::L4 => 4,
            MeterLevelCode::L5 => 5,
            MeterLevelCode::L6 => 6,
            MeterLevelCode::L7 => 7,
            MeterLevelCode::L8 => 8,
            MeterLevelCode::L9 => 9,
            MeterLevelCode::LA => 10,
            MeterLevelCode::LB => 11,
            MeterLevelCode::LC => 12,
            MeterLevelCode::LD => 13,
        }
    }

    pub fn as_nibble(self) -> (r: u8)
        ensures
            r == self.nibble(),
            r <= 0xD,
    {
        match self {
            MeterLevelCode::L0 => 0,
            MeterLevelCode::L1 => 1,
            MeterLevelCode::L2 => 2,
            MeterLevelCode::L3 => 3,
            MeterLevelCode::L4 => 4,
            MeterLevelCode::L5 => 5,
            MeterLevelCode::L6 => 6,
            MeterLevelCode::L7 => 7,
            MeterLevelCode::L8 => 8,
            MeterLevelCode::L9 => 9,
            MeterLevelCode::LA => 10,
            MeterLevelCode::LB => 11,
            MeterLevelCode::LC => 12,
            MeterLevelCode::LD => 13,
        }
    }
}

/// The channel-pressure value `0xsv` of a meter message: strip `idx` (its low nibble) in
/// the high nibble, the level code in the low nibble.
pub open spec fn meter_value(idx: u8, code: MeterLevelCode) -> int {
    (idx % 16) * 16 + code.nibble()
}

/// Meter message for channel strip `idx`, of which the low nibble of its low byte counts
/// and must be at most 7 (strips 0 to 7). Channel meters hold their last value for about
/// 300 ms.
pub fn channel_meter_message(idx: i32, code: MeterLevelCode) -> (r: [u8; 3])
    requires
        (idx as u8) % 16 < 8,
    ensures
        r@ == channel_bytes(0xD0, 0, meter_value(idx as u8, code) as u8, 0),
{
    let v: u8 = (idx as u8 % 16) * 16 + code.as_nibble();
    ChannelPressure { channel: 0 }.message(v)
}

/// Meter message for one side of the master meter, which holds its value for good.
pub fn master_meter_message(channel: StereoChannel, code: MeterLevelCode) -> (r: [u8; 3])
    ensures
        r@ == channel_bytes(
            0xD0,
            1,
            meter_value(
                match channel {
                    StereoChannel::Left => 0u8,
                    StereoChannel::Right => 1u8,
                },
                code,
            ) as u8,
            0,
        ),
{
    let idx: u8 = match channel {
        StereoChannel::Left => 0,
        StereoChannel::Right => 1,
    };
    let v: u8 = idx * 16 + code.as_nibble();
    ChannelPressure { channel: 1 }.message(v)
}

/// Velocity of the Note On that shows an LED state.
pub open spec fn led_velocity(state: LEDState) -> u8 {
    match state {
        LEDState::Off => 0,
        LEDState::On => 127,
        LEDState::Flash => 1,
    }
}

/// The kinds of channel-strip button, each a row of notes on MIDI channel 0.
#[derive(Debug, Clone, Copy, PartialEq, Eq, Structural)]
pub enum ButtonRow {
    Mute,
    Solo,
    Arm,
    Select,
}

/// Note of the button of `row` on strip `idx`.
pub open spec fn button_note(row: ButtonRow, idx: int) -> int {
    match row {
        ButtonRow::Mute => 16 + idx,
        ButtonRow::Solo => 8 + idx,
        ButtonRow::Arm => idx,
        ButtonRow::Select => 24 + idx,
    }
}

/// Message that shows `state` on the LED of the `row` button of strip `idx`, on a
/// surface of `num_channels` strips.
pub fn button_led_message(row: ButtonRow, idx: i32, num_channels: usize, state: LEDState) -> (r: [u8; 3])
    requires
        0 <= idx < num_channels <= 16,
    ensures
        r@ == channel_bytes(0x90, 0, button_note(row, idx as int) as u8, led_velocity(state)),
{
    let i = idx as u8;
    let note: u8 = match row {
        ButtonRow::Mute => 16 + i,
        ButtonRow::Solo => 8 + i,
        ButtonRow::Arm => i,
        ButtonRow::Select => 24 + i,
    };
    let velocity: u8 = match state {
        LEDState::Off => 0,
        LEDState::On => 127,
        LEDState::Flash => 1,
    };
    NoteOn { channel: 0, key_number: note }.message(velocity)
}

/// The value of an encoder ring: the mode in bits 4-5, the position in the low nibble.
pub open spec fn ring_value(mode: EncoderRingMode, val: u8) -> int {
    let m: int = match mode {
        EncoderRingMode::Point => 0,
        EncoderRingMode::FromCenter => 1,
        EncoderRingMode::FromLeft => 2,
        EncoderRingMode::Width => 3,
    };
    m * 16 + val % 16
}

/// Message that sets the LED ring of encoder `msg.idx` (controller 0x30 + idx).
pub fn encoder_ring_message(msg: EncoderRingMsg, num_channels: usize) -> (r: [u8; 3])
    requires
        0 <= msg.idx < num_channels <= 16,
    ensures
        r@ == channel_bytes(0xB0, 0, (0x30 + msg.idx) as u8, ring_value(msg.mode, msg.val) as u8),
{
    let low: u8 = msg.val % 16;
    let v: u8 = match msg.mode {
        EncoderRingMode::Point => low,
        EncoderRingMode::FromCenter => 16 + low,
        EncoderRingMode::FromLeft => 32 + low,
        EncoderRingMode::Width => 48 + low,
    };
    ControlChange { channel: 0, controller_number: 0x30 + msg.idx as u8 }.message(v)
}

/// Message that moves the motor fader of strip `idx` to the 14-bit position `value`.
/// The device panics on a position whose low 16 bits exceed 16383.
pub fn channel_fader_message(idx: i32, num_channels: usize, value: i32) -> (r: [u8; 3])
    requires
        0 <= idx < num_channels <= 16,
        (value as u16) < 16384,
    ensures
        r@ == channel_bytes(0xE0, idx as u8, ((value as u16) % 128) as u8, ((value as u16) / 128) as u8),
{
    PitchBend { channel: idx as u8 }.message(value as u16)
}

/// Message that moves the master fader (MIDI channel 8) to the 14-bit position `value`.
pub fn master_fader_message(value: i32) -> (r: [u8; 3])
    requires
        (value as u16) < 16384,
    ensures
        r@ == channel_bytes(0xE0, 8, ((value as u16) % 128) as u8, ((value as u16) / 128) as u8),
{
    PitchBend { channel: 8 }.message(value as u16)
}

/// The control changes sent to the seven-segment display: digit `i` (controller 0x49 - i)
/// gets the value 0x3d + i, whatever the text.
pub fn seven_segment_messages(text: &str) -> (r: Vec<[u8; 3]>)
    ensures
        r.len() == 7,
        forall|i: int| 0 <= i < 7 ==> (#[trigger] r@[i])@ == channel_bytes(0xB0, 0, (0x49 - i) as u8, (0x3d + i) as u8),
{
    let compacted = compact_to_7_bytes(text);
    let mut r: Vec<[u8; 3]> = Vec::new();
    let mut i: u8 = 0;
    while i < 7
        invariant
            0 <= i <= 7,
            r.len() == i,
            forall|j: int| 0 <= j < i ==> (#[trigger] r@[j])@ == channel_bytes(0xB0, 0, (0x49 - j) as u8, (0x3d + j) as u8),
        decreases 7 - i,
    {
        r.push(ControlChange { channel: 0, controller_number: 0x49 - i }.message(0x3d + i));
        i = i + 1;
    }
    r
}


// ---------------------------------------------------------------------------
// Scribble strips
// ---------------------------------------------------------------------------

/// The UTF-8 bytes of a string.
pub open spec fn string_bytes(s: String) -> Seq<u8> {
    encode_utf8(s@)
}

/// The compactions of `lines`, one after the other.
pub open spec fn compacted_lines(lines: Seq<String>) -> Seq<u8>
    decreases lines.len(),
{
    if lines.len() == 0 {
        seq![]
    } else {
        compacted_lines(lines.drop_last()) + text_compaction(string_bytes(lines.last()))
    }
}

/// Appends the compaction of each line to `out`.
fn append_compacted(out: &mut Vec<u8>, lines: &Vec<String>)
    ensures
        final(out)@ == old(out)@ + compacted_lines(lines@),
{
    let ghost start = out@;
    let mut i: usize = 0;
    while i < lines.len()
        invariant
            0 <= i <= lines.len(),
            out@ == start + compacted_lines(lines@.subrange(0, i as int)),
        decreases lines.len() - i,
    {
        let bytes = compact_to_7_bytes(lines[i].as_str());
        out.extend_from_slice(bytes.as_slice());
        assert(lines@.subrange(0, i + 1).drop_last() =~= lines@.subrange(0, i as int));
        assert(out@ =~= start + compacted_lines(lines@.subrange(0, i + 1)));
        i = i + 1;
    }
    assert(lines@.subrange(0, lines.len() as int) =~= lines@);
}

/// A component of a background color at one fifth of its brightness, rounded to the
/// nearest integer: what scaling by 0.2 in floating point gives for every `u8`.
pub open spec fn fifth(c: u8) -> u8 {
    ((c + 2) / 5) as u8
}

pub open spec fn color_block(colors: Seq<Color>) -> Seq<u8>
    decreases colors.len(),
{
    if colors.len() == 0 {
        seq![]
    } else {
        let c = colors.last();
        color_block(colors.drop_last()) + seq![fifth(c.r), fifth(c.g), fifth(c.b)]
    }
}

fn empty_lines(n: usize) -> (r: Vec<String>)
    ensures
        r.len() == n,
        forall|i: int| 0 <= i < n ==> (#[trigger] r@[i])@ == Seq::<char>::empty(),
{
    let mut r: Vec<String> = Vec::new();
    let mut i: usize = 0;
    while i < n
        invariant
            0 <= i <= n,
            r.len() == i,
            forall|j: int| 0 <= j < i ==> (#[trigger] r@[j])@ == Seq::<char>::empty(),
        decreases n - i,
    {
        r.push(String::new());
        i = i + 1;
    }
    r
}

pub const TOP_TEXT_HEADER: [u8; 7] = [0xf0, 0x00, 0x00, 0x66, 0x14, 0x12, 0x00];

pub const TOP_COLOR_HEADER: [u8; 6] = [0xf0, 0x00, 0x02, 0x4e, 0x16, 0x14];

pub const BOTTOM_TEXT_HEADER: [u8; 7] = [0xf0, 0x00, 0x02, 0x4e, 0x15, 0x13, 0x00];

/// Where the strip a batch message addresses is.
pub open spec fn top_msg_idx(m: TopScribbleStripMsg) -> i32 {
    match m {
        TopScribbleStripMsg::Line1Text(x) => x.idx,
        TopScribbleStripMsg::Line2Text(x) => x.idx,
        TopScribbleStripMsg::BackgroundColor(x) => x.idx,
    }
}

/// The upper strips' lines and colors after the messages of a batch, in order.
pub open spec fn top_batch_applied(
    lines: (Seq<String>, Seq<String>, Seq<Color>),
    msgs: Seq<TopScribbleStripMsg>,
) -> (Seq<String>, Seq<String>, Seq<Color>)
    decreases msgs.len(),
{
    if msgs.len() == 0 {
        lines
    } else {
        let p = top_batch_applied(lines, msgs.drop_last());
        match msgs.last() {
            TopScribbleStripMsg::Line1Text(m) => (p.0.update(m.idx as int, m.text), p.1, p.2),
            TopScribbleStripMsg::Line2Text(m) => (p.0, p.1.update(m.idx as int, m.text), p.2),
            TopScribbleStripMsg::BackgroundColor(m) => (p.0, p.1, p.2.update(m.idx as int, m.color)),
        }
    }
}

/// Where the strip a batch message addresses is.
pub open spec fn bottom_msg_idx(m: BottomScribbleStripMsg) -> i32 {
    match m {
        BottomScribbleStripMsg::Line1Text(x) => x.idx,
        BottomScribbleStripMsg::Line2Text(x) => x.idx,
    }
}

/// The lower strips' lines after the messages of a batch, in order.
pub open spec fn bottom_batch_applied(lines: (Seq<String>, Seq<String>), msgs: Seq<BottomScribbleStripMsg>) -> (
    Seq<String>,
    Seq<String>,
)
    decreases msgs.len(),
{
    if msgs.len() == 0 {
        lines
    } else {
        let p = bottom_batch_applied(lines, msgs.drop_last());
        match msgs.last() {
            BottomScribbleStripMsg::Line1Text(m) => (p.0.update(m.idx as int, m.text), p.1),
            BottomScribbleStripMsg::Line2Text(m) => (p.0, p.1.update(m.idx as int, m.text)),
        }
    }
}

/// Text and background colors of the upper scribble strips, one per channel strip.
pub struct TopScribbleStrips {
    line_1: Vec<String>,
    line_2: Vec<String>,
    background_color: Vec<Color>,
}

impl TopScribbleStrips {
    pub closed spec fn line1(&self) -> Seq<String> {
        self.line_1@
    }

    pub closed spec fn line2(&self) -> Seq<String> {
        self.line_2@
    }

    pub closed spec fn colors(&self) -> Seq<Color> {
        self.background_color@
    }

    pub open spec fn wf(&self) -> bool {
        self.line1().len() == self.line2().len() && self.line2().len() == self.colors().len()
    }

    pub fn new(num_channels: usize) -> (r: Self)
        ensures
            r.wf(),
            r.line1().len() == num_channels,
            forall|i: int| 0 <= i < num_channels ==> (#[trigger] r.line1()[i])@ == Seq::<char>::empty(),
            forall|i: int| 0 <= i < num_channels ==> (#[trigger] r.line2()[i])@ == Seq::<char>::empty(),
            forall|i: int| 0 <= i < num_channels ==> #[trigger] r.colors()[i] == (Color { r: 0, g: 0, b: 0 }),
    {
        let mut colors: Vec<Color> = Vec::new();
        let mut i: usize = 0;
        while i < num_channels
            invariant
                0 <= i <= num_channels,
                colors.len() == i,
                forall|j: int| 0 <= j < i ==> #[trigger] colors@[j] == (Color { r: 0, g: 0, b: 0 }),
            decreases num_channels - i,
        {
            colors.push(Color { r: 0, g: 0, b: 0 });
            i = i + 1;
        }
        TopScribbleStrips {
            line_1: empty_lines(num_channels),
            line_2: empty_lines(num_channels),
            background_color: colors,
        }
    }

    pub fn set_line1(&mut self, msg: TopScribbleStripLine1TextMsg)
        requires
            old(self).wf(),
            0 <= msg.idx < old(self).line1().len(),
        ensures
            final(self).wf(),
            final(self).line1() == old(self).line1().update(msg.idx as int, msg.text),
            final(self).line2() == old(self).line2(),
            final(self).colors() == old(self).colors(),
    {
        self.line_1.set(msg.idx as usize, msg.text);
    }

    pub fn set_line2(&mut self, msg: TopScribbleStripLine2TextMsg)
        requires
            old(self).wf(),
            0 <= msg.idx < old(self).line1().len(),
        ensures
            final(self).wf(),
            final(self).line1() == old(self).line1(),
            final(self).line2() == old(self).line2().update(msg.idx as int, msg.text),
            final(self).colors() == old(self).colors(),
    {
        self.line_2.set(msg.idx as usize, msg.text);
    }

    pub fn set_color(&mut self, msg: TopScribbleStripColorMsg)
        requires
            old(self).wf(),
            0 <= msg.idx < old(self).line1().len(),
        ensures
            final(self).wf(),
            final(self).line1() == old(self).line1(),
            final(self).line2() == old(self).line2(),
            final(self).colors() == old(self).colors().update(msg.idx as int, msg.color),
    {
        self.background_color.set(msg.idx as usize, msg.color);
    }

    /// Apply the messages of a batch in order.
    pub fn set_batch(&mut self, msgs: Vec<TopScribbleStripMsg>)
        requires
            old(self).wf(),
            forall|j: int| 0 <= j < msgs.len() ==> 0 <= #[trigger] top_msg_idx(msgs@[j]) < old(self).line1().len(),
        ensures
            final(self).wf(),
            final(self).line1().len() == old(self).line1().len(),
            (final(self).line1(), final(self).line2(), final(self).colors()) == top_batch_applied(
                (old(self).line1(), old(self).line2(), old(self).colors()),
                msgs@,
            ),
    {
        let ghost all = msgs@;
        let ghost start = (self.line1(), self.line2(), self.colors());
        let mut rest = msgs;
        let mut k: usize = 0;
        let n = rest.len();
        assert(n == all.len());
        while rest.len() > 0
            invariant
                self.wf(),
                self.line1().len() == start.0.len(),
                k + rest.len() == all.len(),
                all.len() <= usize::MAX,
                rest@ == all.subrange(k as int, all.len() as int),
                forall|j: int| 0 <= j < all.len() ==> 0 <= #[trigger] top_msg_idx(all[j]) < start.0.len(),
                (self.line1(), self.line2(), self.colors()) == top_batch_applied(start, all.subrange(0, k as int)),
            decreases rest.len(),
        {
            let m = rest.remove(0);
            assert(all.subrange(0, k + 1).drop_last() =~= all.subrange(0, k as int));
            assert(all.subrange(0, k + 1).last() == m);
            assert(top_msg_idx(all[k as int]) == top_msg_idx(m));
            match m {
                TopScribbleStripMsg::Line1Text(x) => self.set_line1(x),
                TopScribbleStripMsg::Line2Text(x) => self.set_line2(x),
                TopScribbleStripMsg::BackgroundColor(x) => self.set_color(x),
            }
            k = k + 1;
            assert(rest@ =~= all.subrange(k as int, all.len() as int));
        }
        assert(all.subrange(0, all.len() as int) =~= all);
    }

    /// The two system-exclusive messages that show the whole state: the text of all lower
    /// lines then all upper lines, then the background colors at a fifth of their
    /// brightness.
    pub fn write(&self) -> (r: (Vec<u8>, Vec<u8>))
        requires
            self.wf(),
        ensures
            r.0@ == TOP_TEXT_HEADER@ + compacted_lines(self.line2()) + compacted_lines(self.line1())
                + seq![0xf7u8],
            r.1@ == TOP_COLOR_HEADER@ + color_block(self.colors()) + seq![0xf7u8],
    {
        let mut text: Vec<u8> = Vec::new();
        text.extend_from_slice(TOP_TEXT_HEADER.as_slice());
        append_compacted(&mut text, &self.line_2);
        append_compacted(&mut text, &self.line_1);
        text.push(0xf7);
        let mut colors: Vec<u8> = Vec::new();
        colors.extend_from_slice(TOP_COLOR_HEADER.as_slice());
        let ghost start = colors@;
        let mut i: usize = 0;
        while i < self.line_1.len()
            invariant
                self.wf(),
                0 <= i <= self.line_1.len(),
                colors@ == start + color_block(self.background_color@.subrange(0, i as int)),
            decreases self.line_1.len() - i,
        {
            let c = self.background_color[i];
            colors.push(((c.r as u16 + 2) / 5) as u8);
            colors.push(((c.g as u16 + 2) / 5) as u8);
            colors.push(((c.b as u16 + 2) / 5) as u8);
            assert(self.background_color@.subrange(0, i + 1).drop_last()
                =~= self.background_color@.subrange(0, i as int));
            assert(colors@ =~= start + color_block(self.background_color@.subrange(0, i + 1)));
            i = i + 1;
        }
        assert(self.background_color@.subrange(0, self.line_1.len() as int) =~= self.background_color@);
        colors.push(0xf7);
        (text, colors)
    }
}

/// Text of the lower scribble strips, one per channel strip.
pub struct BottomScribbleStrips {
    line_1: Vec<String>,
    line_2: Vec<String>,
}

impl BottomScribbleStrips {
    pub closed spec fn line1(&self) -> Seq<String> {
        self.line_1@
    }

    pub closed spec fn line2(&self) -> Seq<String> {
        self.line_2@
    }

    pub open spec fn wf(&self) -> bool {
        self.line1().len() == self.line2().len()
    }

    pub fn new(num_channels: usize) -> (r: Self)
        ensures
            r.wf(),
            r.line1().len() == num_channels,
            forall|i: int| 0 <= i < num_channels ==> (#[trigger] r.line1()[i])@ == Seq::<char>::empty(),
            forall|i: int| 0 <= i < num_channels ==> (#[trigger] r.line2()[i])@ == Seq::<char>::empty(),
    {
        BottomScribbleStrips { line_1: empty_lines(num_channels), line_2: empty_lines(num_channels) }
    }

    pub fn set_line1(&mut self, msg: BottomScribbleStripLine1TextMsg)
        requires
            old(self).wf(),
            0 <= msg.idx < old(self).line1().len(),
        ensures
            final(self).wf(),
            final(self).line1() == old(self).line1().update(msg.idx as int, msg.text),
            final(self).line2() == old(self).line2(),
    {
        self.line_1.set(msg.idx as usize, msg.text);
    }

    pub fn set_line2(&mut self, msg: BottomScribbleStripLine2TextMsg)
        requires
            old(self).wf(),
            0 <= msg.idx < old(self).line1().len(),
        ensures
            final(self).wf(),
            final(self).line1() == old(self).line1(),
            final(self).line2() == old(self).line2().update(msg.idx as int, msg.text),
    {
        self.line_2.set(msg.idx as usize, msg.text);
    }

    /// Apply the messages of a batch in order.
    pub fn set_batch(&mut self, msgs: Vec<BottomScribbleStripMsg>)
        requires
            old(self).wf(),
            forall|j: int| 0 <= j < msgs.len() ==> 0 <= #[trigger] bottom_msg_idx(msgs@[j]) < old(self).line1().len(),
        ensures
            final(self).wf(),
            final(self).line1().len() == old(self).line1().len(),
            (final(self).line1(), final(self).line2()) == bottom_batch_applied(
                (old(self).line1(), old(self).line2()),
                msgs@,
            ),
    {
        let ghost all = msgs@;
        let ghost start = (self.line1(), self.line2());
        let mut rest = msgs;
        let mut k: usize = 0;
        let n = rest.len();
        assert(n == all.len());
        while rest.len() > 0
            invariant
                self.wf(),
                self.line1().len() == start.0.len(),
                k + rest.len() == all.len(),
                all.len() <= usize::MAX,
                rest@ == all.subrange(k as int, all.len() as int),
                forall|j: int| 0 <= j < all.len() ==> 0 <= #[trigger] bottom_msg_idx(all[j]) < start.0.len(),
                (self.line1(), self.line2()) == bottom_batch_applied(start, all.subrange(0, k as int)),
            decreases rest.len(),
        {
            let m = rest.remove(0);
            assert(all.subrange(0, k + 1).drop_last() =~= all.subrange(0, k as int));
            assert(all.subrange(0, k + 1).last() == m);
            assert(bottom_msg_idx(all[k as int]) == bottom_msg_idx(m));
            match m {
                BottomScribbleStripMsg::Line1Text(x) => self.set_line1(x),
                BottomScribbleStripMsg::Line2Text(x) => self.set_line2(x),
            }
            k = k + 1;
            assert(rest@ =~= all.subrange(k as int, all.len() as int));
        }
        assert(all.subrange(0, all.len() as int) =~= all);
    }

    /// The system-exclusive message that shows the whole state: all upper lines, then
    /// all lower lines.
    pub fn write(&self) -> (r: Vec<u8>)
        requires
            self.wf(),
        ensures
            r@ == BOTTOM_TEXT_HEADER@ + compacted_lines(self.line1()) + compacted_lines(self.line2())
                + seq![0xf7u8],
    {
        let mut text: Vec<u8> = Vec::new();
        text.extend_from_slice(BOTTOM_TEXT_HEADER.as_slice());
        append_compacted(&mut text, &self.line_1);
        append_compacted(&mut text, &self.line_2);
        text.push(0xf7);
        text
    }
}


// ---------------------------------------------------------------------------
// Touch screen
// ---------------------------------------------------------------------------

#[derive(Clone, Debug)]
pub struct TouchScreenButton {
    pub text: String,
    /// (midi_channel, note)
    pub behavior: Option<(u8, u8)>,
}

impl TouchScreenButton {
    pub fn new() -> (r: Self)
        ensures
            r.text@ == Seq::<char>::empty(),
            r.behavior is None,
    {
        TouchScreenButton { text: String::new(), behavior: None }
    }
}

pub const TOUCHSCREEN_COLUMNS: usize = 6;

pub const TOUCHSCREEN_ROWS: usize = 4;

pub const TOUCHSCREEN_LAYERS: usize = 5;

pub const TOUCHSCREEN_BUTTONS: usize = 120;

pub open spec fn slot_code(slot: Slot) -> u8 {
    match slot {
        Slot::DAW1 => 1,
        Slot::DAW2 => 2,
        Slot::DAW3 => 3,
    }
}

pub fn slot_byte(slot: Slot) -> (r: u8)
    ensures
        r == slot_code(slot),
{
    match slot {
        Slot::DAW1 => 1,
        Slot::DAW2 => 2,
        Slot::DAW3 => 3,
    }
}

pub open spec fn daw_code(daw: DawId) -> u8 {
    match daw {
        DawId::Bitwig => 1,
        DawId::Cubase => 2,
        DawId::ProTools => 3,
        DawId::Logic => 4,
        DawId::Live => 5,
        DawId::Reaper => 6,
        DawId::Reason => 7,
        DawId::StudioOne => 8,
        DawId::FLStudio => 9,
        DawId::Cakewalk => 10,
        DawId::DigitalPerformer => 11,
        DawId::Samplitude => 12,
        DawId::Harrison => 13,
        DawId::Nuendo => 14,
        DawId::Audition => 15,
        DawId::Tracktion => 16,
        DawId::Ability => 17,
        DawId::Luna => 18,
    }
}

pub fn daw_byte(daw: DawId) -> (r: u8)
    ensures
        r == daw_code(daw),
        1 <= r <= 18,
{
    match daw {
        DawId::Bitwig => 1,
        DawId::Cubase => 2,
        DawId::ProTools => 3,
        DawId::Logic => 4,
        DawId::Live => 5,
        DawId::Reaper => 6,
        DawId::Reason => 7,
        DawId::StudioOne => 8,
        DawId::FLStudio => 9,
        DawId::Cakewalk => 10,
        DawId::DigitalPerformer => 11,
        DawId::Samplitude => 12,
        DawId::Harrison => 13,
        DawId::Nuendo => 14,
        DawId::Audition => 15,
        DawId::Tracktion => 16,
        DawId::Ability => 17,
        DawId::Luna => 18,
    }
}

pub open spec fn layer_index(layer: TouchScreenLayer) -> usize {
    match layer {
        TouchScreenLayer::Blue => 0,
        TouchScreenLayer::Green => 1,
        TouchScreenLayer::Yellow => 2,
        TouchScreenLayer::User1 => 3,
        TouchScreenLayer::User2 => 4,
    }
}

fn layer_idx(layer: TouchScreenLayer) -> (r: usize)
    ensures
        r == layer_index(layer),
        r < 5,
{
    match layer {
        TouchScreenLayer::Blue => 0,
        TouchScreenLayer::Green => 1,
        TouchScreenLayer::Yellow => 2,
        TouchScreenLayer::User1 => 3,
        TouchScreenLayer::User2 => 4,
    }
}

/// Index of the button at `row`, `column` of `layer` among all the touch-screen buttons.
pub open spec fn button_index(layer: TouchScreenLayer, row: usize, column: usize) -> int {
    layer_index(layer) * 24 + row * 6 + column
}

/// The part (a block of twelve buttons: half a layer) that holds the button at `row`.
pub open spec fn button_part(layer: TouchScreenLayer, row: usize) -> int {
    layer_index(layer) * 2 + row / 2
}

pub struct TouchScreenSetTextContainer {
    pub slot: Slot,
    pub daw_id: DawId,
    pub row: usize,
    pub column: usize,
    pub layer: TouchScreenLayer,
    pub text: String,
}

impl TouchScreenSetTextContainer {
    pub fn button_idx(&self) -> (r: usize)
        requires
            self.row * 6 + self.column + 96 <= usize::MAX,
        ensures
            r == button_index(self.layer, self.row, self.column),
    {
        layer_idx(self.layer) * TOUCHSCREEN_ROWS * TOUCHSCREEN_COLUMNS + self.row * TOUCHSCREEN_COLUMNS
            + self.column
    }

    pub fn part(&self) -> (r: usize)
        ensures
            r == button_part(self.layer, self.row),
    {
        layer_idx(self.layer) * 2 + self.row / 2
    }
}

pub struct TouchScreenSetButtonBehaviorContainer {
    pub slot: Slot,
    pub daw_id: DawId,
    pub row: usize,
    pub column: usize,
    pub layer: TouchScreenLayer,
    pub midi_channel: u8,
    pub note: u8,
}

impl TouchScreenSetButtonBehaviorContainer {
    pub fn button_idx(&self) -> (r: usize)
        requires
            self.row * 6 + self.column + 96 <= usize::MAX,
        ensures
            r == button_index(self.layer, self.row, self.column),
    {
        layer_idx(self.layer) * TOUCHSCREEN_ROWS * TOUCHSCREEN_COLUMNS + self.row * TOUCHSCREEN_COLUMNS
            + self.column
    }

    pub fn part(&self) -> (r: usize)
        ensures
            r == button_part(self.layer, self.row),
    {
        layer_idx(self.layer) * 2 + self.row / 2
    }
}


pub const TOUCHSCREEN_INIT: [u8; 4] = [0xef, 0x7f, 0x7f, 0xf7];

pub const TOUCHSCREEN_MACOS: [u8; 4] = [0xec, 0x2a, 0x01, 0xf7];

pub const TOUCHSCREEN_TEXT_HEADER: [u8; 6] = [0xf0, 0x1d, 0x03, 0x10, 0x09, 0x26];

pub const TOUCHSCREEN_BEHAVIOR_HEADER: [u8; 6] = [0xf0, 0x1d, 0x03, 0x10, 0x09, 0x25];

fn bytes_of(a: &[u8; 4]) -> (r: Vec<u8>)
    ensures
        r@ == a@,
{
    let mut r: Vec<u8> = Vec::new();
    r.extend_from_slice(a.as_slice());
    r
}

/// Whether a text message addresses an existing button.
pub open spec fn text_target_ok(m: TouchScreenSetTextContainer) -> bool {
    button_index(m.layer, m.row, m.column) < 120 && button_part(m.layer, m.row) < 10
}

/// Whether a behavior message addresses a button whose part the device can be sent.
pub open spec fn behavior_target_ok(m: TouchScreenSetButtonBehaviorContainer) -> bool {
    button_index(m.layer, m.row, m.column) < 120 && button_part(m.layer, m.row) < 4
        && m.midi_channel < 255
}

/// The buttons after the texts of `msgs` were written, in order.
pub open spec fn apply_texts(buttons: Seq<TouchScreenButton>, msgs: Seq<TouchScreenSetTextContainer>) -> Seq<
    TouchScreenButton,
>
    decreases msgs.len(),
{
    if msgs.len() == 0 {
        buttons
    } else {
        let b = apply_texts(buttons, msgs.drop_last());
        let m = msgs.last();
        let i = button_index(m.layer, m.row, m.column);
        b.update(i, TouchScreenButton { text: m.text, behavior: b[i].behavior })
    }
}

/// The buttons after the behaviors of `msgs` were set, in order.
pub open spec fn apply_behaviors(
    buttons: Seq<TouchScreenButton>,
    msgs: Seq<TouchScreenSetButtonBehaviorContainer>,
) -> Seq<TouchScreenButton>
    decreases msgs.len(),
{
    if msgs.len() == 0 {
        buttons
    } else {
        let b = apply_behaviors(buttons, msgs.drop_last());
        let m = msgs.last();
        let i = button_index(m.layer, m.row, m.column);
        b.update(i, TouchScreenButton { text: b[i].text, behavior: Some((m.midi_channel, m.note)) })
    }
}

/// Sixteen bytes: the first sixteen of `bytes`, or all of them padded with spaces.
pub open spec fn pad16(bytes: Seq<u8>) -> Seq<u8> {
    if bytes.len() >= 16 {
        bytes.take(16)
    } else {
        bytes + Seq::new((16 - bytes.len()) as nat, |i: int| 0x20u8)
    }
}

/// The padded texts of the `n` buttons from `from` on.
pub open spec fn text_records(buttons: Seq<TouchScreenButton>, from: int, n: nat) -> Seq<u8>
    decreases n,
{
    if n == 0 {
        seq![]
    } else {
        text_records(buttons, from, (n - 1) as nat) + pad16(string_bytes(buttons[from + n - 1].text))
    }
}

/// The eight-byte record of a button's behavior.
pub open spec fn behavior_record(b: TouchScreenButton) -> Seq<u8> {
    match b.behavior {
        Some((channel, note)) => seq![0x09u8, 0x09, (channel + 1) as u8, note, 0x7f, 0x00, 0x00, 0x00],
        None => seq![0x20u8, 0x00, 0x00, 0x00, 0x00, 0x00, 0x00, 0x00],
    }
}

pub open spec fn behavior_records(buttons: Seq<TouchScreenButton>, from: int, n: nat) -> Seq<u8>
    decreases n,
{
    if n == 0 {
        seq![]
    } else {
        behavior_records(buttons, from, (n - 1) as nat) + behavior_record(buttons[from + n - 1])
    }
}

/// The message that switches the device to a slot, which makes it show what was sent.
pub open spec fn switch_slot(slot: Slot, daw: DawId) -> Seq<u8> {
    seq![0xecu8, 0x22, (slot_code(slot) * 32 + daw_code(daw)) as u8]
}

/// The four messages that write the texts of part `p`.
pub open spec fn text_part_messages(buttons: Seq<TouchScreenButton>, slot: Slot, daw: DawId, p: int) -> Seq<
    Seq<u8>,
> {
    seq![
        TOUCHSCREEN_INIT@,
        TOUCHSCREEN_MACOS@,
        TOUCHSCREEN_TEXT_HEADER@ + seq![slot_code(slot), daw_code(daw), p as u8, 0x0c, 0x02, 0x08]
            + text_records(buttons, p * 12, 12) + seq![0xf7u8],
        switch_slot(slot, daw),
    ]
}

/// The four messages that write the behaviors of part `p`.
pub open spec fn behavior_part_messages(
    buttons: Seq<TouchScreenButton>,
    slot: Slot,
    daw: DawId,
    p: int,
) -> Seq<Seq<u8>> {
    seq![
        TOUCHSCREEN_INIT@,
        TOUCHSCREEN_MACOS@,
        TOUCHSCREEN_BEHAVIOR_HEADER@ + seq![(slot_code(slot) * 32 + daw_code(daw)) as u8, p as u8, 0x08]
            + behavior_records(buttons, p * 28, 28) + seq![0xf7u8],
        switch_slot(slot, daw),
    ]
}

/// The messages for the parts from `p` on that `msgs` touch, part by part.
pub open spec fn text_messages_from(
    buttons: Seq<TouchScreenButton>,
    msgs: Seq<TouchScreenSetTextContainer>,
    p: int,
) -> Seq<Seq<u8>>
    decreases 10 - p,
{
    if p < 0 || p >= 10 {
        seq![]
    } else {
        let here = if exists|j: int| 0 <= j < msgs.len() && button_part(msgs[j].layer, msgs[j].row) == p {
            text_part_messages(buttons, msgs[0].slot, msgs[0].daw_id, p)
        } else {
            seq![]
        };
        here + text_messages_from(buttons, msgs, p + 1)
    }
}

pub open spec fn behavior_messages_from(
    buttons: Seq<TouchScreenButton>,
    msgs: Seq<TouchScreenSetButtonBehaviorContainer>,
    p: int,
) -> Seq<Seq<u8>>
    decreases 10 - p,
{
    if p < 0 || p >= 10 {
        seq![]
    } else {
        let here = if exists|j: int| 0 <= j < msgs.len() && button_part(msgs[j].layer, msgs[j].row) == p {
            behavior_part_messages(buttons, msgs[0].slot, msgs[0].daw_id, p)
        } else {
            seq![]
        };
        here + behavior_messages_from(buttons, msgs, p + 1)
    }
}

/// The texts and behaviors of the touch-screen buttons of all layers.
pub struct TouchScreen {
    buttons: Vec<TouchScreenButton>,
}

impl TouchScreen {
    pub closed spec fn buttons(&self) -> Seq<TouchScreenButton> {
        self.buttons@
    }

    pub open spec fn wf(&self) -> bool {
        &&& self.buttons().len() == 120
        &&& forall|i: int|
            0 <= i < 120 ==> ((#[trigger] self.buttons()[i]).behavior matches Some((c, n)) ==> c < 255)
    }

    pub fn new() -> (r: Self)
        ensures
            r.wf(),
            forall|i: int|
                0 <= i < 120 ==> (#[trigger] r.buttons()[i]).text@ == Seq::<char>::empty()
                    && r.buttons()[i].behavior is None,
    {
        let mut buttons: Vec<TouchScreenButton> = Vec::new();
        let mut i: usize = 0;
        while i < TOUCHSCREEN_BUTTONS
            invariant
                0 <= i <= 120,
                buttons.len() == i,
                forall|j: int|
                    0 <= j < i ==> (#[trigger] buttons@[j]).text@ == Seq::<char>::empty()
                        && buttons@[j].behavior is None,
            decreases 120 - i,
        {
            buttons.push(TouchScreenButton::new());
            i = i + 1;
        }
        TouchScreen { buttons }
    }

    fn padded_text(&self, i: usize) -> (r: Vec<u8>)
        requires
            i < self.buttons().len(),
        ensures
            r@ == pad16(string_bytes(self.buttons()[i as int].text)),
    {
        let src = self.buttons[i].text.as_str().as_bytes();
        let mut r: Vec<u8> = Vec::new();
        let mut k: usize = 0;
        while k < 16 && k < src.len()
            invariant
                0 <= k <= 16,
                k <= src.len(),
                src@ == string_bytes(self.buttons()[i as int].text),
                r@ == src@.subrange(0, k as int),
            decreases 16 - k,
        {
            r.push(src[k]);
            k = k + 1;
            assert(r@ =~= src@.subrange(0, k as int));
        }
        let n: usize = k;
        while k < 16
            invariant
                n <= k <= 16,
                n == (if src.len() >= 16 {
                    16
                } else {
                    src.len()
                }),
                r@ == src@.subrange(0, n as int) + Seq::new((k - n) as nat, |j: int| 0x20u8),
            decreases 16 - k,
        {
            r.push(0x20);
            k = k + 1;
            assert(r@ =~= src@.subrange(0, n as int) + Seq::new((k - n) as nat, |j: int| 0x20u8));
        }
        if src.len() >= 16 {
            assert(r@ =~= src@.take(16));
        } else {
            assert(src@.subrange(0, n as int) =~= src@);
        }
        r
    }

    fn behavior_bytes(&self, i: usize) -> (r: Vec<u8>)
        requires
            self.wf(),
            i < 120,
        ensures
            r@ == behavior_record(self.buttons()[i as int]),
    {
        match self.buttons[i].behavior {
            Some((channel, note)) => {
                let r = vec![0x09u8, 0x09, channel + 1, note, 0x7f, 0x00, 0x00, 0x00];
                assert(r@ =~= behavior_record(self.buttons()[i as int]));
                r
            },
            None => {
                let r = vec![0x20u8, 0x00, 0x00, 0x00, 0x00, 0x00, 0x00, 0x00];
                assert(r@ =~= behavior_record(self.buttons()[i as int]));
                r
            },
        }
    }

    /// Sets the behaviors of `messages` on the buttons and returns the messages that
    /// send every part they touched, part by part; slot and DAW are those of the first
    /// message.
    pub fn write_button_behavior(&mut self, messages: Vec<TouchScreenSetButtonBehaviorContainer>) -> (r: Vec<Vec<u8>>)
        requires
            old(self).wf(),
            forall|j: int| 0 <= j < messages.len() ==> behavior_target_ok(#[trigger] messages@[j]),
        ensures
            final(self).wf(),
            final(self).buttons() == apply_behaviors(old(self).buttons(), messages@),
            views(r@) == behavior_messages_from(final(self).buttons(), messages@, 0),
    {
        let mut parts: Vec<bool> = vec![false, false, false, false, false, false, false, false, false, false];
        let ghost start = self.buttons@;
        let mut i: usize = 0;
        while i < messages.len()
            invariant
                0 <= i <= messages.len(),
                forall|j: int| 0 <= j < messages.len() ==> behavior_target_ok(#[trigger] messages@[j]),
                self.wf(),
                self.buttons@ == apply_behaviors(start, messages@.subrange(0, i as int)),
                parts.len() == 10,
                forall|p: int|
                    0 <= p < 10 ==> (#[trigger] parts@[p] <==> exists|j: int|
                        0 <= j < i && button_part(messages@[j].layer, messages@[j].row) == p),
                forall|p: int| 4 <= p < 10 ==> !(#[trigger] parts@[p]),
            decreases messages.len() - i,
        {
            let m = &messages[i];
            let idx = m.button_idx();
            let part = m.part();
            let b = TouchScreenButton {
                text: self.buttons[idx].text.clone(),
                behavior: Some((m.midi_channel, m.note)),
            };
            self.buttons.set(idx, b);
            parts.set(part, true);
            proof {
                assert(messages@.subrange(0, i + 1).drop_last() =~= messages@.subrange(0, i as int));
                assert(self.buttons@ =~= apply_behaviors(start, messages@.subrange(0, i + 1)));
                assert forall|p: int|
                    0 <= p < 10 implies (#[trigger] parts@[p] <==> exists|j: int|
                        0 <= j < i + 1 && button_part(messages@[j].layer, messages@[j].row) == p) by {
                    if parts@[p] && p != part {
                        let j = choose|j: int|
                            0 <= j < i && button_part(messages@[j].layer, messages@[j].row) == p;
                        assert(0 <= j < i + 1 && button_part(messages@[j].layer, messages@[j].row) == p);
                    }
                }
            }
            i = i + 1;
        }
        assert(messages@.subrange(0, messages.len() as int) =~= messages@);
        let mut out: Vec<Vec<u8>> = Vec::new();
        let mut p: usize = 0;
        while p < 10
            invariant
                0 <= p <= 10,
                self.wf(),
                parts.len() == 10,
                forall|q: int|
                    0 <= q < 10 ==> (#[trigger] parts@[q] <==> exists|j: int|
                        0 <= j < messages.len() && button_part(messages@[j].layer, messages@[j].row) == q),
                forall|q: int| 4 <= q < 10 ==> !(#[trigger] parts@[q]),
                views(out@) + behavior_messages_from(self.buttons@, messages@, p as int)
                    == behavior_messages_from(self.buttons@, messages@, 0),
            decreases 10 - p,
        {
            let ghost before = views(out@);
            if parts[p] {
                let slot = slot_byte(messages[0].slot);
                let daw = daw_byte(messages[0].daw_id);
                let mut body: Vec<u8> = Vec::new();
                body.extend_from_slice(TOUCHSCREEN_BEHAVIOR_HEADER.as_slice());
                body.push(slot * 32 + daw);
                body.push(p as u8);
                body.push(0x08);
                let ghost head = body@;
                assert(head =~= TOUCHSCREEN_BEHAVIOR_HEADER@ + seq![(slot * 32 + daw) as u8, p as u8, 0x08]);
                let mut k: usize = 0;
                while k < 28
                    invariant
                        0 <= k <= 28,
                        p < 4,
                        self.wf(),
                        body@ == head + behavior_records(self.buttons@, p * 28, k as nat),
                    decreases 28 - k,
                {
                    let rec = self.behavior_bytes(p * 28 + k);
                    body.extend_from_slice(rec.as_slice());
                    k = k + 1;
                }
                body.push(0xf7);
                let sw = vec![0xec, 0x22, slot * 32 + daw];
                proof {
                    assert(body@ =~= TOUCHSCREEN_BEHAVIOR_HEADER@ + seq![(slot * 32 + daw) as u8, p as u8, 0x08]
                        + behavior_records(self.buttons@, p * 28, 28) + seq![0xf7u8]);
                    assert(sw@ =~= switch_slot(messages@[0].slot, messages@[0].daw_id));
                }
                out.push(bytes_of(&TOUCHSCREEN_INIT));
                out.push(bytes_of(&TOUCHSCREEN_MACOS));
                out.push(body);
                out.push(sw);
                proof {
                    let expected = behavior_part_messages(self.buttons@, messages@[0].slot, messages@[0].daw_id, p as int);
                    assert(views(out@) =~= before + expected);
                }
            }
            p = p + 1;
        }
        out
    }

    /// Writes the texts of `messages` into the buttons and returns the messages that
    /// show every part they touched, part by part; slot and DAW are those of the first
    /// message.
    pub fn write_button_text(&mut self, messages: Vec<TouchScreenSetTextContainer>) -> (r: Vec<Vec<u8>>)
        requires
            old(self).wf(),
            forall|j: int| 0 <= j < messages.len() ==> text_target_ok(#[trigger] messages@[j]),
        ensures
            final(self).wf(),
            final(self).buttons() == apply_texts(old(self).buttons(), messages@),
            views(r@) == text_messages_from(final(self).buttons(), messages@, 0),
    {
        let mut parts: Vec<bool> = vec![false, false, false, false, false, false, false, false, false, false];
        let ghost start = self.buttons@;
        let mut i: usize = 0;
        while i < messages.len()
            invariant
                0 <= i <= messages.len(),
                forall|j: int| 0 <= j < messages.len() ==> text_target_ok(#[trigger] messages@[j]),
                self.wf(),
                self.buttons@ == apply_texts(start, messages@.subrange(0, i as int)),
                parts.len() == 10,
                forall|p: int|
                    0 <= p < 10 ==> (#[trigger] parts@[p] <==> exists|j: int|
                        0 <= j < i && button_part(messages@[j].layer, messages@[j].row) == p),
            decreases messages.len() - i,
        {
            let m = &messages[i];
            let idx = m.button_idx();
            let part = m.part();
            let b = TouchScreenButton { text: m.text.clone(), behavior: self.buttons[idx].behavior };
            self.buttons.set(idx, b);
            parts.set(part, true);
            proof {
                assert(messages@.subrange(0, i + 1).drop_last() =~= messages@.subrange(0, i as int));
                assert(self.buttons@ =~= apply_texts(start, messages@.subrange(0, i + 1)));
                assert forall|p: int|
                    0 <= p < 10 implies (#[trigger] parts@[p] <==> exists|j: int|
                        0 <= j < i + 1 && button_part(messages@[j].layer, messages@[j].row) == p) by {
                    if parts@[p] && p != part {
                        let j = choose|j: int|
                            0 <= j < i && button_part(messages@[j].layer, messages@[j].row) == p;
                        assert(0 <= j < i + 1 && button_part(messages@[j].layer, messages@[j].row) == p);
                    }
                }
            }
            i = i + 1;
        }
        assert(messages@.subrange(0, messages.len() as int) =~= messages@);
        let mut out: Vec<Vec<u8>> = Vec::new();
        let mut p: usize = 0;
        while p < 10
            invariant
                0 <= p <= 10,
                self.wf(),
                parts.len() == 10,
                forall|q: int|
                    0 <= q < 10 ==> (#[trigger] parts@[q] <==> exists|j: int|
                        0 <= j < messages.len() && button_part(messages@[j].layer, messages@[j].row) == q),
                views(out@) + text_messages_from(self.buttons@, messages@, p as int) == text_messages_from(
                    self.buttons@,
                    messages@,
                    0,
                ),
            decreases 10 - p,
        {
            let ghost before = views(out@);
            if parts[p] {
                let slot = slot_byte(messages[0].slot);
                let daw = daw_byte(messages[0].daw_id);
                let mut text: Vec<u8> = Vec::new();
                text.extend_from_slice(TOUCHSCREEN_TEXT_HEADER.as_slice());
                text.push(slot);
                text.push(daw);
                text.push(p as u8);
                text.push(0x0c);
                text.push(0x02);
                text.push(0x08);
                let ghost head = text@;
                assert(head =~= TOUCHSCREEN_TEXT_HEADER@ + seq![slot, daw, p as u8, 0x0c, 0x02, 0x08]);
                let mut k: usize = 0;
                while k < 12
                    invariant
                        0 <= k <= 12,
                        p < 10,
                        self.buttons().len() == 120,
                        text@ == head + text_records(self.buttons@, p * 12, k as nat),
                    decreases 12 - k,
                {
                    let rec = self.padded_text(p * 12 + k);
                    text.extend_from_slice(rec.as_slice());
                    k = k + 1;
                }
                text.push(0xf7);
                let sw = vec![0xec, 0x22, slot * 32 + daw];
                proof {
                    assert(text@ =~= TOUCHSCREEN_TEXT_HEADER@ + seq![slot, daw, p as u8, 0x0c, 0x02, 0x08]
                        + text_records(self.buttons@, p * 12, 12) + seq![0xf7u8]);
                    assert(sw@ =~= switch_slot(messages@[0].slot, messages@[0].daw_id));
                }
                out.push(bytes_of(&TOUCHSCREEN_INIT));
                out.push(bytes_of(&TOUCHSCREEN_MACOS));
                out.push(text);
                out.push(sw);
                proof {
                    let expected = text_part_messages(self.buttons@, messages@[0].slot, messages@[0].daw_id, p as int);
                    assert(views(out@) =~= before + expected);
                }
            }
            p = p + 1;
        }
        out
    }
}


// ---------------------------------------------------------------------------
// Input from the surface
// ---------------------------------------------------------------------------

/// What a message from the surface means. Fader positions are the raw 14-bit values.
#[derive(Clone, Copy, Debug)]
pub enum V1mInput {
    Fader { idx: i32, value: u16 },
    MasterFader { value: u16 },
    Upstream(UpstreamMsg),
}

/// Why a message from the surface could not be read.
#[derive(Clone, Copy, Debug, PartialEq, Eq, Structural)]
pub enum InputError {
    /// The status byte is below 0x80.
    InvalidStatus,
    /// A button sent a velocity other than 0 (release) or 127 (press).
    UnexpectedVelocity(u8),
}

pub open spec fn in_row(k: u8, base: int, n: usize) -> bool {
    base <= k < base + n
}

/// The strip buttons, the global view button (51) and the MIDI-tracks view button (62)
/// that a Note On for key `k` on channel 0 reaches, each as (press, release).
pub open spec fn button_hits(k: u8, n: usize) -> Seq<(UpstreamMsg, UpstreamMsg)> {
    (if in_row(k, 16, n) {
        seq![(UpstreamMsg::MutePress(MutePress { idx: (k - 16) as i32 }), UpstreamMsg::MuteRelease(MuteRelease { idx: (k - 16) as i32 }))]
    } else {
        seq![]
    }) + (if in_row(k, 8, n) {
        seq![(UpstreamMsg::SoloPress(SoloPress { idx: (k - 8) as i32 }), UpstreamMsg::SoloRelease(SoloRelease { idx: (k - 8) as i32 }))]
    } else {
        seq![]
    }) + (if in_row(k, 0, n) {
        seq![(UpstreamMsg::ArmPress(ArmPress { idx: k as i32 }), UpstreamMsg::ArmRelease(ArmRelease { idx: k as i32 }))]
    } else {
        seq![]
    }) + (if in_row(k, 24, n) {
        seq![(UpstreamMsg::SelectPress(SelectPress { idx: (k - 24) as i32 }), UpstreamMsg::SelectRelease(SelectRelease { idx: (k - 24) as i32 }))]
    } else {
        seq![]
    }) + (if k == 51 {
        seq![(UpstreamMsg::GlobalRelease, UpstreamMsg::GlobalPress)]
    } else {
        seq![]
    }) + (if k == 62 {
        seq![(UpstreamMsg::MIDITracksRelease, UpstreamMsg::MIDITracksPress)]
    } else {
        seq![]
    })
}

/// Velocity 127 picks the first of each pair, velocity 0 the second.
pub open spec fn pick(hits: Seq<(UpstreamMsg, UpstreamMsg)>, velocity: u8) -> Seq<V1mInput> {
    hits.map_values(|h: (UpstreamMsg, UpstreamMsg)| V1mInput::Upstream(if velocity == 0 { h.1 } else { h.0 }))
}

/// How the V1-M's input reads, for a surface of `n` strips.
pub open spec fn decode_v1m(n: usize, status: u8, d1: u8, d2: u8) -> Result<Seq<V1mInput>, InputError> {
    match read_short_message(status, d1, d2) {
        None => Err(InputError::InvalidStatus),
        Some(ShortMessage::PitchBend(ch, v)) => Ok(
            (if ch < n {
                seq![V1mInput::Fader { idx: ch as i32, value: v }]
            } else {
                seq![]
            }) + (if ch == 8 {
                seq![V1mInput::MasterFader { value: v }]
            } else {
                seq![]
            }),
        ),
        Some(ShortMessage::ControlChange(ch, c, v)) => Ok(
            if ch == 0 && in_row(c, 0x10, n) {
                if 1 <= v <= 5 {
                    seq![V1mInput::Upstream(UpstreamMsg::EncoderTurnInc(EncoderTurnCW { idx: (c - 0x10) as i32, accel: v }))]
                } else if 65 <= v <= 68 {
                    seq![V1mInput::Upstream(UpstreamMsg::EncoderTurnDec(EncoderTurnCCW { idx: (c - 0x10) as i32, accel: (v - 64) as u8 }))]
                } else {
                    seq![]
                }
            } else {
                seq![]
            },
        ),
        Some(ShortMessage::NoteOn(ch, k, v)) => if ch != 0 {
            Ok(seq![])
        } else if button_hits(k, n).len() > 0 && v != 0 && v != 127 {
            Err(InputError::UnexpectedVelocity(v))
        } else {
            Ok(
                (if in_row(k, 0x20, n) {
                    seq![V1mInput::Upstream(UpstreamMsg::EncoderPress(EncoderPressMsg { idx: (k - 0x20) as i32 }))]
                } else {
                    seq![]
                }) + pick(button_hits(k, n), v),
            )
        },
        Some(ShortMessage::NoteOff(ch, k, v)) => Ok(
            if ch == 0 && in_row(k, 0x20, n) {
                seq![V1mInput::Upstream(UpstreamMsg::EncoderRelease(EncoderReleaseMsg { idx: (k - 0x20) as i32 }))]
            } else {
                seq![]
            },
        ),
        Some(ShortMessage::Other) => Ok(seq![]),
    }
}

fn push_hit(hits: &mut Vec<(UpstreamMsg, UpstreamMsg)>, hit: (UpstreamMsg, UpstreamMsg))
    ensures
        final(hits)@ == old(hits)@ + seq![hit],
{
    let ghost before = hits@;
    hits.push(hit);
    assert(hits@ =~= before + seq![hit]);
}

fn button_hits_exec(k: u8, n: usize) -> (r: Vec<(UpstreamMsg, UpstreamMsg)>)
    requires
        n <= 16,
    ensures
        r@ == button_hits(k, n),
{
    let mut hits: Vec<(UpstreamMsg, UpstreamMsg)> = Vec::new();
    let ki = k as i32;
    if 16 <= k && (k as usize) < 16 + n {
        push_hit(&mut hits, (UpstreamMsg::MutePress(MutePress { idx: ki - 16 }), UpstreamMsg::MuteRelease(MuteRelease { idx: ki - 16 })));
    }
    if 8 <= k && (k as usize) < 8 + n {
        push_hit(&mut hits, (UpstreamMsg::SoloPress(SoloPress { idx: ki - 8 }), UpstreamMsg::SoloRelease(SoloRelease { idx: ki - 8 })));
    }
    if (k as usize) < n {
        push_hit(&mut hits, (UpstreamMsg::ArmPress(ArmPress { idx: ki }), UpstreamMsg::ArmRelease(ArmRelease { idx: ki })));
    }
    if 24 <= k && (k as usize) < 24 + n {
        push_hit(&mut hits, (UpstreamMsg::SelectPress(SelectPress { idx: ki - 24 }), UpstreamMsg::SelectRelease(SelectRelease { idx: ki - 24 })));
    }
    if k == 51 {
        push_hit(&mut hits, (UpstreamMsg::GlobalRelease, UpstreamMsg::GlobalPress));
    }
    if k == 62 {
        push_hit(&mut hits, (UpstreamMsg::MIDITracksRelease, UpstreamMsg::MIDITracksPress));
    }
    assert(hits@ =~= button_hits(k, n));
    hits
}

/// Reads a message from a V1-M with `num_channels` strips.
pub fn decode_input(num_channels: usize, status: u8, d1: u8, d2: u8) -> (r: Result<Vec<V1mInput>, InputError>)
    requires
        num_channels <= 16,
        d1 < 128,
        d2 < 128,
    ensures
        match (r, decode_v1m(num_channels, status, d1, d2)) {
            (Ok(got), Ok(want)) => got@ == want,
            (Err(e), Err(f)) => e == f,
            _ => false,
        },
{
    let n = num_channels;
    let mut out: Vec<V1mInput> = Vec::new();
    match read_message(status, d1, d2) {
        None => {
            return Err(InputError::InvalidStatus);
        },
        Some(ShortMessage::PitchBend(ch, v)) => {
            if (ch as usize) < n {
                out.push(V1mInput::Fader { idx: ch as i32, value: v });
            }
            if ch == 8 {
                out.push(V1mInput::MasterFader { value: v });
            }
        },
        Some(ShortMessage::ControlChange(ch, c, v)) => {
            if ch == 0 && 0x10 <= c && (c as usize) < 0x10 + n {
                if 1 <= v && v <= 5 {
                    out.push(V1mInput::Upstream(UpstreamMsg::EncoderTurnInc(EncoderTurnCW { idx: c as i32 - 0x10, accel: v })));
                } else if 65 <= v && v <= 68 {
                    out.push(V1mInput::Upstream(UpstreamMsg::EncoderTurnDec(EncoderTurnCCW { idx: c as i32 - 0x10, accel: v - 64 })));
                }
            }
        },
        Some(ShortMessage::NoteOn(ch, k, v)) => {
            if ch == 0 {
                let hits = button_hits_exec(k, n);
                if hits.len() > 0 && v != 0 && v != 127 {
                    return Err(InputError::UnexpectedVelocity(v));
                }
                if 0x20 <= k && (k as usize) < 0x20 + n {
                    out.push(V1mInput::Upstream(UpstreamMsg::EncoderPress(EncoderPressMsg { idx: k as i32 - 0x20 })));
                }
                let ghost first = out@;
                let mut j: usize = 0;
                while j < hits.len()
                    invariant
                        0 <= j <= hits.len(),
                        out@ == first + pick(hits@.subrange(0, j as int), v),
                    decreases hits.len() - j,
                {
                    let h = hits[j];
                    out.push(V1mInput::Upstream(if v == 0 { h.1 } else { h.0 }));
                    assert(out@ =~= first + pick(hits@.subrange(0, j + 1), v));
                    j = j + 1;
                }
                assert(hits@.subrange(0, hits.len() as int) =~= hits@);
            }
        },
        Some(ShortMessage::NoteOff(ch, k, v)) => {
            if ch == 0 && 0x20 <= k && (k as usize) < 0x20 + n {
                out.push(V1mInput::Upstream(UpstreamMsg::EncoderRelease(EncoderReleaseMsg { idx: k as i32 - 0x20 })));
            }
        },
        Some(ShortMessage::Other) => {},
    }
    proof {
        assert(out@ =~= decode_v1m(num_channels, status, d1, d2).unwrap());
    }
    Ok(out)
}

// ---------------------------------------------------------------------------
// Messages for the surface
// ---------------------------------------------------------------------------

/// The system-exclusive message with the text of all upper strips' lines.
pub open spec fn top_text_sysex(line1: Seq<String>, line2: Seq<String>) -> Seq<u8> {
    TOP_TEXT_HEADER@ + compacted_lines(line2) + compacted_lines(line1) + seq![0xf7u8]
}

/// The system-exclusive message with the background colors of all upper strips.
pub open spec fn top_color_sysex(colors: Seq<Color>) -> Seq<u8> {
    TOP_COLOR_HEADER@ + color_block(colors) + seq![0xf7u8]
}

/// The system-exclusive message with the text of all lower strips' lines.
pub open spec fn bottom_text_sysex(line1: Seq<String>, line2: Seq<String>) -> Seq<u8> {
    BOTTOM_TEXT_HEADER@ + compacted_lines(line1) + compacted_lines(line2) + seq![0xf7u8]
}

/// The touch-screen container that carries a text message.
pub open spec fn text_container(m: TouchScreenSetTextMsg) -> TouchScreenSetTextContainer {
    TouchScreenSetTextContainer {
        slot: m.slot,
        daw_id: m.daw_id,
        row: m.row,
        column: m.column,
        layer: m.layer,
        text: m.text,
    }
}

/// What a message for the V1-M asks of the program that drives the device.
#[derive(Debug)]
pub enum V1mAction {
    /// Send the barrier back upstream.
    ReflectBarrier(Barrier),
    /// Move the motor fader of a strip; `value_bits` holds the bits of the `f64` position.
    ChannelFader { idx: i32, value_bits: u64 },
    /// Move the master fader.
    MasterFader { value_bits: u64 },
    /// Show a level on a strip's meter; `db_bits` holds the bits of the `f64` level.
    ChannelMeter { idx: i32, db_bits: u64 },
    /// Show a level on a master meter.
    MasterMeter { channel: StereoChannel, db_bits: u64 },
    /// Send these messages, in order, on the main port.
    Main(Vec<Vec<u8>>),
    /// Send these messages, in order, on the configuration port.
    Config(Vec<Vec<u8>>),
    /// Nothing is done with the message.
    Unhandled,
}

/// Whether the device can take `msg`: every strip it addresses exists, and every
/// touch-screen button it writes to can be sent.
pub open spec fn v1m_accepts(n: usize, msg: DownstreamMsg) -> bool {
    match msg {
        DownstreamMsg::ChannelFader(m) => 0 <= m.idx < n,
        DownstreamMsg::EncoderRingLED(m) => 0 <= m.idx < n,
        DownstreamMsg::MuteLED(m) => 0 <= m.idx < n,
        DownstreamMsg::SoloLED(m) => 0 <= m.idx < n,
        DownstreamMsg::ArmLED(m) => 0 <= m.idx < n,
        DownstreamMsg::SelectLED(m) => 0 <= m.idx < n,
        DownstreamMsg::TopScribbleStripLine1Text(m) => 0 <= m.idx < n,
        DownstreamMsg::TopScribbleStripLine2Text(m) => 0 <= m.idx < n,
        DownstreamMsg::TopScribbleStripBackgroundColor(m) => 0 <= m.idx < n,
        DownstreamMsg::TopScribbleStripBatch(ms) => forall|j: int|
            0 <= j < ms.len() ==> 0 <= #[trigger] top_msg_idx(ms@[j]) < n,
        DownstreamMsg::BottomScribbleStripLine1Text(m) => 0 <= m.idx < n,
        DownstreamMsg::BottomScribbleStripLine2Text(m) => 0 <= m.idx < n,
        DownstreamMsg::BottomScribbleStripBatch(ms) => forall|j: int|
            0 <= j < ms.len() ==> 0 <= #[trigger] bottom_msg_idx(ms@[j]) < n,
        DownstreamMsg::TouchScreenSetText(m) => text_target_ok(text_container(m)),
        DownstreamMsg::TouchScreenTextBatch(ms) => forall|j: int|
            0 <= j < ms.len() ==> text_target_ok(text_container(#[trigger] ms@[j])),
        _ => true,
    }
}

fn short_bytes(a: [u8; 3]) -> (r: Vec<u8>)
    ensures
        r@ == a@,
{
    let mut v: Vec<u8> = Vec::new();
    v.extend_from_slice(a.as_slice());
    v
}

fn one_message(a: [u8; 3]) -> (r: Vec<Vec<u8>>)
    ensures
        views(r@) == seq![a@],
{
    let mut v: Vec<Vec<u8>> = Vec::new();
    v.push(short_bytes(a));
    assert(views(v@) =~= seq![a@]);
    v
}

/// The state of a V1-M as the program sees it: what its scribble strips and touch screen
/// show.
pub struct V1mSurface {
    num_channels: usize,
    top_scribbles: TopScribbleStrips,
    bottom_scribbles: BottomScribbleStrips,
    touchscreen: TouchScreen,
}

impl V1mSurface {
    pub closed spec fn spec_num_channels(&self) -> usize {
        self.num_channels
    }

    pub closed spec fn top(&self) -> TopScribbleStrips {
        self.top_scribbles
    }

    pub closed spec fn bottom(&self) -> BottomScribbleStrips {
        self.bottom_scribbles
    }

    pub closed spec fn touch(&self) -> TouchScreen {
        self.touchscreen
    }

    pub open spec fn wf(&self) -> bool {
        &&& self.spec_num_channels() <= 16
        &&& self.top().wf()
        &&& self.top().line1().len() == self.spec_num_channels()
        &&& self.bottom().wf()
        &&& self.bottom().line1().len() == self.spec_num_channels()
        &&& self.touch().wf()
    }

    pub fn new(num_channels: usize) -> (r: Self)
        requires
            num_channels <= 16,
        ensures
            r.wf(),
            r.spec_num_channels() == num_channels,
            forall|i: int| 0 <= i < num_channels ==> (#[trigger] r.top().line1()[i])@ == Seq::<char>::empty(),
            forall|i: int| 0 <= i < num_channels ==> (#[trigger] r.top().line2()[i])@ == Seq::<char>::empty(),
            forall|i: int| 0 <= i < num_channels ==> #[trigger] r.top().colors()[i] == (Color { r: 0, g: 0, b: 0 }),
            forall|i: int| 0 <= i < num_channels ==> (#[trigger] r.bottom().line1()[i])@ == Seq::<char>::empty(),
            forall|i: int| 0 <= i < num_channels ==> (#[trigger] r.bottom().line2()[i])@ == Seq::<char>::empty(),
    {
        V1mSurface {
            num_channels,
            top_scribbles: TopScribbleStrips::new(num_channels),
            bottom_scribbles: BottomScribbleStrips::new(num_channels),
            touchscreen: TouchScreen::new(),
        }
    }

    fn top_messages(&self) -> (r: Vec<Vec<u8>>)
        requires
            self.top().wf(),
        ensures
            views(r@) == seq![
                top_text_sysex(self.top().line1(), self.top().line2()),
                top_color_sysex(self.top().colors()),
            ],
    {
        let (text, colors) = self.top_scribbles.write();
        let mut v: Vec<Vec<u8>> = Vec::new();
        v.push(text);
        v.push(colors);
        assert(views(v@) =~= seq![
            top_text_sysex(self.top().line1(), self.top().line2()),
            top_color_sysex(self.top().colors()),
        ]);
        v
    }

    fn bottom_messages(&self) -> (r: Vec<Vec<u8>>)
        requires
            self.bottom().wf(),
        ensures
            views(r@) == seq![bottom_text_sysex(self.bottom().line1(), self.bottom().line2())],
    {
        let text = self.bottom_scribbles.write();
        let mut v: Vec<Vec<u8>> = Vec::new();
        v.push(text);
        assert(views(v@) =~= seq![bottom_text_sysex(self.bottom().line1(), self.bottom().line2())]);
        v
    }

    /// Take a message for the device: update what the strips and the touch screen show, and
    /// say what is to be sent.
    pub fn handle(&mut self, msg: DownstreamMsg) -> (r: V1mAction)
        requires
            old(self).wf(),
            v1m_accepts(old(self).spec_num_channels(), msg),
        ensures
            final(self).wf(),
            final(self).spec_num_channels() == old(self).spec_num_channels(),
            match msg {
                DownstreamMsg::TopScribbleStripLine1Text(_) | DownstreamMsg::TopScribbleStripLine2Text(_)
                | DownstreamMsg::TopScribbleStripBackgroundColor(_)
                | DownstreamMsg::TopScribbleStripBatch(_) => true,
                _ => final(self).top() == old(self).top(),
            },
            match msg {
                DownstreamMsg::BottomScribbleStripLine1Text(_) | DownstreamMsg::BottomScribbleStripLine2Text(_)
                | DownstreamMsg::BottomScribbleStripBatch(_) => true,
                _ => final(self).bottom() == old(self).bottom(),
            },
            match msg {
                DownstreamMsg::TouchScreenSetText(_) | DownstreamMsg::TouchScreenTextBatch(_) => true,
                _ => final(self).touch() == old(self).touch(),
            },
            match msg {
                DownstreamMsg::Barrier(b) => r matches V1mAction::ReflectBarrier(x) && x == b,
                DownstreamMsg::ChannelFader(m) => r matches V1mAction::ChannelFader { idx, value_bits }
                    && idx == m.idx && value_bits == m.value,
                DownstreamMsg::MasterFader(m) => r matches V1mAction::MasterFader { value_bits }
                    && value_bits == m.value,
                DownstreamMsg::ChannelMeter(m) => r matches V1mAction::ChannelMeter { idx, db_bits }
                    && idx == m.idx && db_bits == m.db,
                DownstreamMsg::MasterMeter(m) => r matches V1mAction::MasterMeter { channel, db_bits }
                    && channel == m.channel && db_bits == m.db,
                DownstreamMsg::EncoderRingLED(m) => r matches V1mAction::Main(v) && views(v@) == seq![
                    channel_bytes(0xB0, 0, (0x30 + m.idx) as u8, ring_value(m.mode, m.val) as u8),
                ],
                DownstreamMsg::MuteLED(m) => r matches V1mAction::Main(v) && views(v@) == seq![
                    channel_bytes(0x90, 0, button_note(ButtonRow::Mute, m.idx as int) as u8, led_velocity(m.state)),
                ],
                DownstreamMsg::SoloLED(m) => r matches V1mAction::Main(v) && views(v@) == seq![
                    channel_bytes(0x90, 0, button_note(ButtonRow::Solo, m.idx as int) as u8, led_velocity(m.state)),
                ],
                DownstreamMsg::ArmLED(m) => r matches V1mAction::Main(v) && views(v@) == seq![
                    channel_bytes(0x90, 0, button_note(ButtonRow::Arm, m.idx as int) as u8, led_velocity(m.state)),
                ],
                DownstreamMsg::SelectLED(m) => r matches V1mAction::Main(v) && views(v@) == seq![
                    channel_bytes(0x90, 0, button_note(ButtonRow::Select, m.idx as int) as u8, led_velocity(m.state)),
                ],
                DownstreamMsg::TopScribbleStripLine1Text(m) => {
                    &&& final(self).top().line1() == old(self).top().line1().update(m.idx as int, m.text)
                    &&& final(self).top().line2() == old(self).top().line2()
                    &&& final(self).top().colors() == old(self).top().colors()
                    &&& r matches V1mAction::Main(v) && views(v@) == seq![
                        top_text_sysex(final(self).top().line1(), final(self).top().line2()),
                        top_color_sysex(final(self).top().colors()),
                    ]
                },
                DownstreamMsg::TopScribbleStripLine2Text(m) => {
                    &&& final(self).top().line1() == old(self).top().line1()
                    &&& final(self).top().line2() == old(self).top().line2().update(m.idx as int, m.text)
                    &&& final(self).top().colors() == old(self).top().colors()
                    &&& r matches V1mAction::Main(v) && views(v@) == seq![
                        top_text_sysex(final(self).top().line1(), final(self).top().line2()),
                        top_color_sysex(final(self).top().colors()),
                    ]
                },
                DownstreamMsg::TopScribbleStripBackgroundColor(m) => {
                    &&& final(self).top().line1() == old(self).top().line1()
                    &&& final(self).top().line2() == old(self).top().line2()
                    &&& final(self).top().colors() == old(self).top().colors().update(m.idx as int, m.color)
                    &&& r matches V1mAction::Main(v) && views(v@) == seq![
                        top_text_sysex(final(self).top().line1(), final(self).top().line2()),
                        top_color_sysex(final(self).top().colors()),
                    ]
                },
                DownstreamMsg::TopScribbleStripBatch(ms) => {
                    &&& (final(self).top().line1(), final(self).top().line2(), final(self).top().colors())
                        == top_batch_applied(
                        (old(self).top().line1(), old(self).top().line2(), old(self).top().colors()),
                        ms@,
                    )
                    &&& r matches V1mAction::Main(v) && views(v@) == seq![
                        top_text_sysex(final(self).top().line1(), final(self).top().line2()),
                        top_color_sysex(final(self).top().colors()),
                    ]
                },
                DownstreamMsg::BottomScribbleStripLine1Text(m) => {
                    &&& final(self).bottom().line1() == old(self).bottom().line1().update(m.idx as int, m.text)
                    &&& final(self).bottom().line2() == old(self).bottom().line2()
                    &&& r matches V1mAction::Main(v) && views(v@) == seq![
                        bottom_text_sysex(final(self).bottom().line1(), final(self).bottom().line2()),
                    ]
                },
                DownstreamMsg::BottomScribbleStripLine2Text(m) => {
                    &&& final(self).bottom().line1() == old(self).bottom().line1()
                    &&& final(self).bottom().line2() == old(self).bottom().line2().update(m.idx as int, m.text)
                    &&& r matches V1mAction::Main(v) && views(v@) == seq![
                        bottom_text_sysex(final(self).bottom().line1(), final(self).bottom().line2()),
                    ]
                },
                DownstreamMsg::BottomScribbleStripBatch(ms) => {
                    &&& (final(self).bottom().line1(), final(self).bottom().line2()) == bottom_batch_applied(
                        (old(self).bottom().line1(), old(self).bottom().line2()),
                        ms@,
                    )
                    &&& r matches V1mAction::Main(v) && views(v@) == seq![
                        bottom_text_sysex(final(self).bottom().line1(), final(self).bottom().line2()),
                    ]
                },
                DownstreamMsg::SevenSegmentDisplay(_) => r matches V1mAction::Main(v) && v.len() == 7
                    && forall|i: int| 0 <= i < 7 ==> (#[trigger] views(v@)[i]) == channel_bytes(
                    0xB0,
                    0,
                    (0x49 - i) as u8,
                    (0x3d + i) as u8,
                ),
                DownstreamMsg::TouchScreenSetText(m) => {
                    &&& final(self).touch().buttons() == apply_texts(old(self).touch().buttons(), seq![text_container(m)])
                    &&& r matches V1mAction::Config(v) && views(v@) == text_messages_from(
                        final(self).touch().buttons(),
                        seq![text_container(m)],
                        0,
                    )
                },
                DownstreamMsg::TouchScreenTextBatch(ms) => {
                    let cs = ms@.map_values(|m: TouchScreenSetTextMsg| text_container(m));
                    &&& final(self).touch().buttons() == apply_texts(old(self).touch().buttons(), cs)
                    &&& r matches V1mAction::Config(v) && views(v@) == text_messages_from(
                        final(self).touch().buttons(),
                        cs,
                        0,
                    )
                },
                _ => r is Unhandled,
            },
    {
        let n = self.num_channels;
        match msg {
            DownstreamMsg::Barrier(b) => V1mAction::ReflectBarrier(b),
            DownstreamMsg::ChannelFader(m) => V1mAction::ChannelFader { idx: m.idx, value_bits: m.value },
            DownstreamMsg::MasterFader(m) => V1mAction::MasterFader { value_bits: m.value },
            DownstreamMsg::ChannelMeter(m) => V1mAction::ChannelMeter { idx: m.idx, db_bits: m.db },
            DownstreamMsg::MasterMeter(m) => V1mAction::MasterMeter { channel: m.channel, db_bits: m.db },
            DownstreamMsg::EncoderRingLED(m) => V1mAction::Main(one_message(encoder_ring_message(m, n))),
            DownstreamMsg::MuteLED(m) => V1mAction::Main(
                one_message(button_led_message(ButtonRow::Mute, m.idx, n, m.state)),
            ),
            DownstreamMsg::SoloLED(m) => V1mAction::Main(
                one_message(button_led_message(ButtonRow::Solo, m.idx, n, m.state)),
            ),
            DownstreamMsg::ArmLED(m) => V1mAction::Main(
                one_message(button_led_message(ButtonRow::Arm, m.idx, n, m.state)),
            ),
            DownstreamMsg::SelectLED(m) => V1mAction::Main(
                one_message(button_led_message(ButtonRow::Select, m.idx, n, m.state)),
            ),
            DownstreamMsg::TopScribbleStripLine1Text(m) => {
                self.top_scribbles.set_line1(m);
                V1mAction::Main(self.top_messages())
            },
            DownstreamMsg::TopScribbleStripLine2Text(m) => {
                self.top_scribbles.set_line2(m);
                V1mAction::Main(self.top_messages())
            },
            DownstreamMsg::TopScribbleStripBackgroundColor(m) => {
                self.top_scribbles.set_color(m);
                V1mAction::Main(self.top_messages())
            },
            DownstreamMsg::TopScribbleStripBatch(ms) => {
                self.top_scribbles.set_batch(ms);
                V1mAction::Main(self.top_messages())
            },
            DownstreamMsg::BottomScribbleStripLine1Text(m) => {
                self.bottom_scribbles.set_line1(m);
                V1mAction::Main(self.bottom_messages())
            },
            DownstreamMsg::BottomScribbleStripLine2Text(m) => {
                self.bottom_scribbles.set_line2(m);
                V1mAction::Main(self.bottom_messages())
            },
            DownstreamMsg::BottomScribbleStripBatch(ms) => {
                self.bottom_scribbles.set_batch(ms);
                V1mAction::Main(self.bottom_messages())
            },
            DownstreamMsg::SevenSegmentDisplay(m) => {
                let codes = seven_segment_messages(m.text.as_str());
                let mut v: Vec<Vec<u8>> = Vec::new();
                let mut i: usize = 0;
                while i < codes.len()
                    invariant
                        codes.len() == 7,
                        0 <= i <= 7,
                        v.len() == i,
                        forall|j: int| 0 <= j < i ==> (#[trigger] v@[j])@ == codes@[j]@,
                    decreases codes.len() - i,
                {
                    v.push(short_bytes(codes[i]));
                    i = i + 1;
                }
                assert forall|j: int| 0 <= j < 7 implies (#[trigger] views(v@)[j]) == channel_bytes(
                    0xB0,
                    0,
                    (0x49 - j) as u8,
                    (0x3d + j) as u8,
                ) by {
                    assert(views(v@)[j] == v@[j]@);
                }
                V1mAction::Main(v)
            },
            DownstreamMsg::TouchScreenSetText(m) => {
                let mut cs: Vec<TouchScreenSetTextContainer> = Vec::new();
                cs.push(
                    TouchScreenSetTextContainer {
                        slot: m.slot,
                        daw_id: m.daw_id,
                        row: m.row,
                        column: m.column,
                        layer: m.layer,
                        text: m.text,
                    },
                );
                assert(cs@ =~= seq![text_container(m)]);
                V1mAction::Config(self.touchscreen.write_button_text(cs))
            },
            DownstreamMsg::TouchScreenTextBatch(ms) => {
                let ghost all = ms@;
                let mut cs: Vec<TouchScreenSetTextContainer> = Vec::new();
                let mut rest = ms;
                let mut k: usize = 0;
                let total = rest.len();
                while rest.len() > 0
                    invariant
                        k + rest.len() == all.len(),
                        total == all.len(),
                        rest@ == all.subrange(k as int, all.len() as int),
                        cs@ == all.subrange(0, k as int).map_values(|m: TouchScreenSetTextMsg| text_container(m)),
                    decreases rest.len(),
                {
                    let m = rest.remove(0);
                    cs.push(
                        TouchScreenSetTextContainer {
                            slot: m.slot,
                            daw_id: m.daw_id,
                            row: m.row,
                            column: m.column,
                            layer: m.layer,
                            text: m.text,
                        },
                    );
                    k = k + 1;
                    assert(rest@ =~= all.subrange(k as int, all.len() as int));
                    assert(cs@ =~= all.subrange(0, k as int).map_values(
                        |m: TouchScreenSetTextMsg| text_container(m),
                    ));
                }
                assert(all.subrange(0, all.len() as int) =~= all);
                assert forall|j: int| 0 <= j < cs.len() implies text_target_ok(#[trigger] cs@[j]) by {
                    assert(cs@[j] == text_container(all[j]));
                }
                V1mAction::Config(self.touchscreen.write_button_text(cs))
            },
            _ => V1mAction::Unhandled,
        }
    }
}

/// The strip buttons are rows of notes on MIDI channel 0, eight apart: arm from note 0,
/// solo from note 8, mute from note 16 and select from note 24, one note per strip.
pub proof fn law_button_rows(i: int)
    ensures
        button_note(ButtonRow::Arm, i) == i,
        button_note(ButtonRow::Solo, i) == 8 + i,
        button_note(ButtonRow::Mute, i) == 16 + i,
        button_note(ButtonRow::Select, i) == 24 + i,
{
}

/// A Note On on channel 0 for a key that one button alone has, and that no encoder has,
/// reads as that button's press or release.
proof fn lemma_single_button(n: usize, k: u8)
    requires
        n <= 16,
        button_hits(k, n).len() == 1,
        !in_row(k, 0x20, n),
    ensures
        decode_v1m(n, 0x90, k, 127) == Ok::<Seq<V1mInput>, InputError>(
            seq![V1mInput::Upstream(button_hits(k, n)[0].0)],
        ),
        decode_v1m(n, 0x90, k, 0) == Ok::<Seq<V1mInput>, InputError>(
            seq![V1mInput::Upstream(button_hits(k, n)[0].1)],
        ),
{
    assert(read_short_message(0x90, k, 127) == Some(ShortMessage::NoteOn(0, k, 127)));
    assert(read_short_message(0x90, k, 0) == Some(ShortMessage::NoteOn(0, k, 0)));
    let e: Seq<V1mInput> = seq![];
    assert(e + pick(button_hits(k, n), 127) =~= seq![V1mInput::Upstream(button_hits(k, n)[0].0)]);
    assert(e + pick(button_hits(k, n), 0) =~= seq![V1mInput::Upstream(button_hits(k, n)[0].1)]);
}

/// A Note On on channel 0 for a key that a button has reads, among others, as that
/// button's press or release.
proof fn lemma_row_hit(n: usize, k: u8, hit: (UpstreamMsg, UpstreamMsg))
    requires
        n <= 16,
        button_hits(k, n).contains(hit),
    ensures
        decode_v1m(n, 0x90, k, 127) matches Ok(s) && s.contains(V1mInput::Upstream(hit.0)),
        decode_v1m(n, 0x90, k, 0) matches Ok(s) && s.contains(V1mInput::Upstream(hit.1)),
{
    assert(read_short_message(0x90, k, 127) == Some(ShortMessage::NoteOn(0, k, 127)));
    assert(read_short_message(0x90, k, 0) == Some(ShortMessage::NoteOn(0, k, 0)));
    let hits = button_hits(k, n);
    let j = choose|j: int| 0 <= j < hits.len() && hits[j] == hit;
    let pre: Seq<V1mInput> = if in_row(k, 0x20, n) {
        seq![V1mInput::Upstream(UpstreamMsg::EncoderPress(EncoderPressMsg { idx: (k - 0x20) as i32 }))]
    } else {
        seq![]
    };
    assert((pre + pick(hits, 127))[pre.len() + j] == V1mInput::Upstream(hit.0));
    assert((pre + pick(hits, 0))[pre.len() + j] == V1mInput::Upstream(hit.1));
}

/// On a surface of at most eight strips, a Note On on channel 0 for the note of strip
/// `i` in a button row reads as that row's press on strip `i` with velocity 127, and as
/// its release with velocity 0, and as nothing else.
pub proof fn law_strip_buttons_decode(n: usize, i: int)
    requires
        0 <= i < n <= 8,
    ensures
        decode_v1m(n, 0x90, (16 + i) as u8, 127) == Ok::<Seq<V1mInput>, InputError>(seq![V1mInput::Upstream(UpstreamMsg::MutePress(MutePress { idx: i as i32 }))]),
        decode_v1m(n, 0x90, (16 + i) as u8, 0) == Ok::<Seq<V1mInput>, InputError>(seq![V1mInput::Upstream(UpstreamMsg::MuteRelease(MuteRelease { idx: i as i32 }))]),
        decode_v1m(n, 0x90, (8 + i) as u8, 127) == Ok::<Seq<V1mInput>, InputError>(seq![V1mInput::Upstream(UpstreamMsg::SoloPress(SoloPress { idx: i as i32 }))]),
        decode_v1m(n, 0x90, (8 + i) as u8, 0) == Ok::<Seq<V1mInput>, InputError>(seq![V1mInput::Upstream(UpstreamMsg::SoloRelease(SoloRelease { idx: i as i32 }))]),
        decode_v1m(n, 0x90, i as u8, 127) == Ok::<Seq<V1mInput>, InputError>(seq![V1mInput::Upstream(UpstreamMsg::ArmPress(ArmPress { idx: i as i32 }))]),
        decode_v1m(n, 0x90, i as u8, 0) == Ok::<Seq<V1mInput>, InputError>(seq![V1mInput::Upstream(UpstreamMsg::ArmRelease(ArmRelease { idx: i as i32 }))]),
        decode_v1m(n, 0x90, (24 + i) as u8, 127) == Ok::<Seq<V1mInput>, InputError>(seq![V1mInput::Upstream(UpstreamMsg::SelectPress(SelectPress { idx: i as i32 }))]),
        decode_v1m(n, 0x90, (24 + i) as u8, 0) == Ok::<Seq<V1mInput>, InputError>(seq![V1mInput::Upstream(UpstreamMsg::SelectRelease(SelectRelease { idx: i as i32 }))]),
{
    assert(button_hits((16 + i) as u8, n) =~= seq![(UpstreamMsg::MutePress(MutePress { idx: i as i32 }), UpstreamMsg::MuteRelease(MuteRelease { idx: i as i32 }))]);
    lemma_single_button(n, (16 + i) as u8);
    assert(button_hits((8 + i) as u8, n) =~= seq![(UpstreamMsg::SoloPress(SoloPress { idx: i as i32 }), UpstreamMsg::SoloRelease(SoloRelease { idx: i as i32 }))]);
    lemma_single_button(n, (8 + i) as u8);
    assert(button_hits(i as u8, n) =~= seq![(UpstreamMsg::ArmPress(ArmPress { idx: i as i32 }), UpstreamMsg::ArmRelease(ArmRelease { idx: i as i32 }))]);
    lemma_single_button(n, i as u8);
    assert(button_hits((24 + i) as u8, n) =~= seq![(UpstreamMsg::SelectPress(SelectPress { idx: i as i32 }), UpstreamMsg::SelectRelease(SelectRelease { idx: i as i32 }))]);
    lemma_single_button(n, (24 + i) as u8);
}

/// On a surface of up to sixteen strips, whose button rows overlap, the note of strip `i`
/// in a row still reads as that row's press and release on strip `i`, among others.
pub proof fn law_strip_buttons_decode_wide(n: usize, i: int)
    requires
        0 <= i < n <= 16,
    ensures
        decode_v1m(n, 0x90, (16 + i) as u8, 127) matches Ok(s) && s.contains(V1mInput::Upstream(UpstreamMsg::MutePress(MutePress { idx: i as i32 }))),
        decode_v1m(n, 0x90, (16 + i) as u8, 0) matches Ok(s) && s.contains(V1mInput::Upstream(UpstreamMsg::MuteRelease(MuteRelease { idx: i as i32 }))),
        decode_v1m(n, 0x90, (8 + i) as u8, 127) matches Ok(s) && s.contains(V1mInput::Upstream(UpstreamMsg::SoloPress(SoloPress { idx: i as i32 }))),
        decode_v1m(n, 0x90, (8 + i) as u8, 0) matches Ok(s) && s.contains(V1mInput::Upstream(UpstreamMsg::SoloRelease(SoloRelease { idx: i as i32 }))),
        decode_v1m(n, 0x90, i as u8, 127) matches Ok(s) && s.contains(V1mInput::Upstream(UpstreamMsg::ArmPress(ArmPress { idx: i as i32 }))),
        decode_v1m(n, 0x90, i as u8, 0) matches Ok(s) && s.contains(V1mInput::Upstream(UpstreamMsg::ArmRelease(ArmRelease { idx: i as i32 }))),
        decode_v1m(n, 0x90, (24 + i) as u8, 127) matches Ok(s) && s.contains(V1mInput::Upstream(UpstreamMsg::SelectPress(SelectPress { idx: i as i32 }))),
        decode_v1m(n, 0x90, (24 + i) as u8, 0) matches Ok(s) && s.contains(V1mInput::Upstream(UpstreamMsg::SelectRelease(SelectRelease { idx: i as i32 }))),
{
    assert(button_hits((16 + i) as u8, n)[0] == (UpstreamMsg::MutePress(MutePress { idx: i as i32 }), UpstreamMsg::MuteRelease(MuteRelease { idx: i as i32 })));
    lemma_row_hit(n, (16 + i) as u8, (UpstreamMsg::MutePress(MutePress { idx: i as i32 }), UpstreamMsg::MuteRelease(MuteRelease { idx: i as i32 })));
    let a: int = if in_row((8 + i) as u8, 16, n) { 1 } else { 0 };
    assert(button_hits((8 + i) as u8, n)[a] == (UpstreamMsg::SoloPress(SoloPress { idx: i as i32 }), UpstreamMsg::SoloRelease(SoloRelease { idx: i as i32 })));
    lemma_row_hit(n, (8 + i) as u8, (UpstreamMsg::SoloPress(SoloPress { idx: i as i32 }), UpstreamMsg::SoloRelease(SoloRelease { idx: i as i32 })));
    let b: int = (if in_row(i as u8, 16, n) { 1int } else { 0 }) + (if in_row(i as u8, 8, n) { 1int } else { 0 });
    assert(button_hits(i as u8, n)[b] == (UpstreamMsg::ArmPress(ArmPress { idx: i as i32 }), UpstreamMsg::ArmRelease(ArmRelease { idx: i as i32 })));
    lemma_row_hit(n, i as u8, (UpstreamMsg::ArmPress(ArmPress { idx: i as i32 }), UpstreamMsg::ArmRelease(ArmRelease { idx: i as i32 })));
    let c: int = if in_row((24 + i) as u8, 16, n) { 1 } else { 0 };
    assert(button_hits((24 + i) as u8, n)[c] == (UpstreamMsg::SelectPress(SelectPress { idx: i as i32 }), UpstreamMsg::SelectRelease(SelectRelease { idx: i as i32 })));
    lemma_row_hit(n, (24 + i) as u8, (UpstreamMsg::SelectPress(SelectPress { idx: i as i32 }), UpstreamMsg::SelectRelease(SelectRelease { idx: i as i32 })));
}

/// The note that shows the LED of a strip button is the note on which that button's press
/// and release come back: on a surface of at most eight strips, a Note On for it with
/// velocity 127 reads as the press of the same button of the same strip.
pub proof fn law_led_note_is_button_note(n: usize, row: ButtonRow, i: int)
    requires
        0 <= i < n <= 8,
    ensures
        decode_v1m(n, 0x90, button_note(row, i) as u8, 127) == Ok::<Seq<V1mInput>, InputError>(seq![
            V1mInput::Upstream(
                match row {
                    ButtonRow::Mute => UpstreamMsg::MutePress(MutePress { idx: i as i32 }),
                    ButtonRow::Solo => UpstreamMsg::SoloPress(SoloPress { idx: i as i32 }),
                    ButtonRow::Arm => UpstreamMsg::ArmPress(ArmPress { idx: i as i32 }),
                    ButtonRow::Select => UpstreamMsg::SelectPress(SelectPress { idx: i as i32 }),
                },
            ),
        ]),
        decode_v1m(n, 0x90, button_note(row, i) as u8, 0) == Ok::<Seq<V1mInput>, InputError>(seq![
            V1mInput::Upstream(
                match row {
                    ButtonRow::Mute => UpstreamMsg::MuteRelease(MuteRelease { idx: i as i32 }),
                    ButtonRow::Solo => UpstreamMsg::SoloRelease(SoloRelease { idx: i as i32 }),
                    ButtonRow::Arm => UpstreamMsg::ArmRelease(ArmRelease { idx: i as i32 }),
                    ButtonRow::Select => UpstreamMsg::SelectRelease(SelectRelease { idx: i as i32 }),
                },
            ),
        ]),
{
    law_strip_buttons_decode(n, i);
}

/// On a surface of at most eight strips, encoder `i` turns on controller 0x10 + i of MIDI
/// channel 0 (values 1 to 5 clockwise with that acceleration, 65 to 68 counter-clockwise
/// with the value less 64), is pressed and released on note 0x20 + i, and fader `i` moves
/// by pitch bend on MIDI channel `i`, whose two data bytes are the low and high seven
/// bits of its position; the master fader moves on MIDI channel 8.
pub proof fn law_encoders_and_faders_decode(n: usize, i: int, lo: u8, hi: u8, v: u8, a: u8)
    requires
        0 <= i < n <= 8,
        lo < 128,
        hi < 128,
    ensures
        1 <= a <= 5 ==> decode_v1m(n, 0xB0, (0x10 + i) as u8, a) == Ok::<Seq<V1mInput>, InputError>(
            seq![V1mInput::Upstream(UpstreamMsg::EncoderTurnInc(EncoderTurnCW { idx: i as i32, accel: a }))],
        ),
        1 <= a <= 4 ==> decode_v1m(n, 0xB0, (0x10 + i) as u8, (64 + a) as u8) == Ok::<Seq<V1mInput>, InputError>(
            seq![V1mInput::Upstream(UpstreamMsg::EncoderTurnDec(EncoderTurnCCW { idx: i as i32, accel: a }))],
        ),
        decode_v1m(n, 0x90, (0x20 + i) as u8, v) == Ok::<Seq<V1mInput>, InputError>(
            seq![V1mInput::Upstream(UpstreamMsg::EncoderPress(EncoderPressMsg { idx: i as i32 }))],
        ),
        decode_v1m(n, 0x80, (0x20 + i) as u8, v) == Ok::<Seq<V1mInput>, InputError>(
            seq![V1mInput::Upstream(UpstreamMsg::EncoderRelease(EncoderReleaseMsg { idx: i as i32 }))],
        ),
        decode_v1m(n, (0xE0 + i) as u8, lo, hi) == Ok::<Seq<V1mInput>, InputError>(
            seq![V1mInput::Fader { idx: i as i32, value: (lo + 128 * hi) as u16 }],
        ),
        decode_v1m(n, 0xE8, lo, hi) == Ok::<Seq<V1mInput>, InputError>(
            seq![V1mInput::MasterFader { value: (lo + 128 * hi) as u16 }],
        ),
{
    let k = (0x20 + i) as u8;
    assert(button_hits(k, n) =~= seq![]);
    let e: Seq<V1mInput> = seq![V1mInput::Upstream(UpstreamMsg::EncoderPress(EncoderPressMsg { idx: i as i32 }))];
    assert(e + pick(button_hits(k, n), v) =~= e);
    let f: Seq<V1mInput> = seq![V1mInput::Fader { idx: i as i32, value: (lo + 128 * hi) as u16 }];
    let z: Seq<V1mInput> = seq![];
    assert(f + z =~= f);
    let m: Seq<V1mInput> = seq![V1mInput::MasterFader { value: (lo + 128 * hi) as u16 }];
    assert(z + m =~= m);
}

/// An LED is put out by velocity 0, lit by 127 and set flashing by 1; an encoder ring's
/// value carries the position in its low four bits and the display mode above them:
/// 0 for a point, 16 for a bar from the centre, 32 for a bar from the left and 48 for a
/// width around the point.
pub proof fn law_led_and_ring_values(val: u8)
    ensures
        led_velocity(LEDState::Off) == 0,
        led_velocity(LEDState::On) == 127,
        led_velocity(LEDState::Flash) == 1,
        ring_value(EncoderRingMode::Point, val) == val % 16,
        ring_value(EncoderRingMode::FromCenter, val) == 16 + val % 16,
        ring_value(EncoderRingMode::FromLeft, val) == 32 + val % 16,
        ring_value(EncoderRingMode::Width, val) == 48 + val % 16,
{
}

/// The codes of the device's protocol: meter levels L0 to LD are the nibbles 0 to 13, the
/// DAW slots 1 to 3, the DAW identities 1 (Bitwig) to 18 (Luna), and the touch-screen
/// layers Blue, Green, Yellow, User 1 and User 2 come in that order from 0.
pub proof fn law_protocol_codes(c: MeterLevelCode, slot: Slot, daw: DawId, layer: TouchScreenLayer)
    ensures
        c is L0 ==> c.nibble() == 0,
        c is L1 ==> c.nibble() == 1,
        c is L2 ==> c.nibble() == 2,
        c is L3 ==> c.nibble() == 3,
        c is L4 ==> c.nibble() == 4,
        c is L5 ==> c.nibble() == 5,
        c is L6 ==> c.nibble() == 6,
        c is L7 ==> c.nibble() == 7,
        c is L8 ==> c.nibble() == 8,
        c is L9 ==> c.nibble() == 9,
        c is LA ==> c.nibble() == 10,
        c is LB ==> c.nibble() == 11,
        c is LC ==> c.nibble() == 12,
        c is LD ==> c.nibble() == 13,
        slot is DAW1 ==> slot_code(slot) == 1,
        slot is DAW2 ==> slot_code(slot) == 2,
        slot is DAW3 ==> slot_code(slot) == 3,
        daw is Bitwig ==> daw_code(daw) == 1,
        daw is Cubase ==> daw_code(daw) == 2,
        daw is ProTools ==> daw_code(daw) == 3,
        daw is Logic ==> daw_code(daw) == 4,
        daw is Live ==> daw_code(daw) == 5,
        daw is Reaper ==> daw_code(daw) == 6,
        daw is Reason ==> daw_code(daw) == 7,
        daw is StudioOne ==> daw_code(daw) == 8,
        daw is FLStudio ==> daw_code(daw) == 9,
        daw is Cakewalk ==> daw_code(daw) == 10,
        daw is DigitalPerformer ==> daw_code(daw) == 11,
        daw is Samplitude ==> daw_code(daw) == 12,
        daw is Harrison ==> daw_code(daw) == 13,
        daw is Nuendo ==> daw_code(daw) == 14,
        daw is Audition ==> daw_code(daw) == 15,
        daw is Tracktion ==> daw_code(daw) == 16,
        daw is Ability ==> daw_code(daw) == 17,
        daw is Luna ==> daw_code(daw) == 18,
        layer is Blue ==> layer_index(layer) == 0,
        layer is Green ==> layer_index(layer) == 1,
        layer is Yellow ==> layer_index(layer) == 2,
        layer is User1 ==> layer_index(layer) == 3,
        layer is User2 ==> layer_index(layer) == 4,
{
}

/// A background color component is dimmed to the whole number nearest to one fifth of it
/// (there is never a tie): five times the result is within two of the component.
pub proof fn law_fifth_is_nearest(c: u8)
    ensures
        c <= 5 * fifth(c) + 2,
        5 * fifth(c) <= c + 2,
{
}

} // verus!
