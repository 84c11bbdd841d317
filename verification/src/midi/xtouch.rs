//! Messages of the Behringer X-Touch control surface, and the bytes that carry them.
use vstd::prelude::*;
use vstd::string::StringSliceAdditionalSpecFns;
use vstd::utf8::encode_utf8;

use crate::midi::base::{
    channel_bytes, read_message, read_short_message, ControlChange, NoteOn, PitchBend, ShortMessage,
};
use crate::midi::compact::{
    alnum_then_zeros, ascii, compact_bytes, compact_spec, is_alnum, is_angle, lemma_compactions_agree,
    lemma_compaction_ascii, lemma_zero_padded_shape,
};
use crate::midi::text::text_compaction;
use crate::modes::mode_manager::Barrier;

verus! {

/// The compaction used for the X-Touch: only letters, digits and separators are kept,
/// and the result is padded with zero bytes.
pub open spec fn xtouch_compaction(bytes: Seq<u8>) -> Seq<u8> {
    compact_spec(bytes, false, 0, false)
}

/// Compacts a `&str` into exactly 7 ASCII bytes using camelCase conventions,
/// vowel stripping, double-consonant compression, and null-padding.
pub fn compact_to_7_bytes(input: &str) -> (r: Vec<u8>)
    ensures
        r@ == xtouch_compaction(input.spec_bytes()),
        r.len() == 7,
{
    compact_bytes(input.as_bytes(), false, 0, false)
}

/// The compaction is always ASCII.
pub proof fn law_xtouch_compaction_is_ascii(bytes: Seq<u8>)
    ensures
        ascii(xtouch_compaction(bytes)),
{
    lemma_compaction_ascii(bytes, false, 0, false);
}

/// Every compaction is seven bytes: letters and digits (separators and other bytes
/// dropped), then zero bytes.
pub proof fn law_xtouch_compaction_shape(bytes: Seq<u8>)
    ensures
        alnum_then_zeros(xtouch_compaction(bytes)),
{
    lemma_zero_padded_shape(bytes);
}

/// Text with a letter or digit and no angle bracket compacts alike for the X-Touch and for
/// the V1-M, but for the padding: zero bytes here, spaces there.
pub proof fn law_compactions_differ_only_in_padding(bytes: Seq<u8>)
    requires
        exists|i: int| 0 <= i < bytes.len() && is_alnum(#[trigger] bytes[i]),
        forall|i: int| 0 <= i < bytes.len() ==> !is_angle(#[trigger] bytes[i]),
    ensures
        forall|j: int|
            0 <= j < 7 ==> #[trigger] text_compaction(bytes)[j] == if xtouch_compaction(bytes)[j] == 0 {
                32u8
            } else {
                xtouch_compaction(bytes)[j]
            },
{
    lemma_compactions_agree(bytes);
}

/// Absolute fader position; `value` holds the bits of the `f64` position.
#[derive(Clone, Copy, Debug, PartialEq, Eq, Structural)]
pub struct FaderAbsMsg {
    pub idx: i32,
    pub value: u64,
}

#[derive(Clone, Copy, Debug, PartialEq, Eq, Structural)]
pub struct EncoderTurnCW {
    pub idx: i32,
}

#[derive(Clone, Copy, Debug, PartialEq, Eq, Structural)]
pub struct EncoderTurnCCW {
    pub idx: i32,
}

#[derive(Clone, Copy, Debug, PartialEq, Eq, Structural)]
pub struct EncoderPressMsg {
    pub idx: i32,
}

#[derive(Clone, Copy, Debug, PartialEq, Eq, Structural)]
pub struct EncoderReleaseMsg {
    pub idx: i32,
}

#[derive(Clone, Copy, Debug, PartialEq, Eq, Structural)]
pub struct EncoderRingMsg {
    pub idx: i32,
    pub mode: EncoderRingMode,
    pub val: u8,
}

#[derive(Clone, Copy, Debug, PartialEq, Eq, Structural)]
pub enum EncoderRingMode {
    Point,
    FromCenter,
    FromLeft,
    Width,
}

#[derive(Clone, Copy, Debug, PartialEq, Eq, Structural)]
pub struct EncoderRingLEDBlankMsg {
    pub idx: i32,
}

#[derive(Clone, Copy, Debug, PartialEq, Eq, Structural)]
pub enum LEDState {
    Off,
    On,
    Flash,
}

impl From<bool> for LEDState {
    fn from(value: bool) -> (r: Self) {
        if value {
            LEDState::On
        } else {
            LEDState::Off
        }
    }
}

impl vstd::std_specs::convert::FromSpecImpl<bool> for LEDState {
    open spec fn obeys_from_spec() -> bool {
        true
    }

    open spec fn from_spec(value: bool) -> Self {
        if value {
            LEDState::On
        } else {
            LEDState::Off
        }
    }
}

#[derive(Clone, Copy, Debug, PartialEq, Eq, Structural)]
pub struct MutePress {
    pub idx: i32,
}

#[derive(Clone, Copy, Debug, PartialEq, Eq, Structural)]
pub struct MuteRelease {
    pub idx: i32,
}

#[derive(Clone, Copy, Debug, PartialEq, Eq, Structural)]
pub struct MuteLEDMsg {
    pub idx: i32,
    pub state: LEDState,
}

#[derive(Clone, Copy, Debug, PartialEq, Eq, Structural)]
pub struct SoloPress {
    pub idx: i32,
}

#[derive(Clone, Copy, Debug, PartialEq, Eq, Structural)]
pub struct SoloRelease {
    pub idx: i32,
}

#[derive(Clone, Copy, Debug, PartialEq, Eq, Structural)]
pub struct SoloLEDMsg {
    pub idx: i32,
    pub state: LEDState,
}

#[derive(Clone, Copy, Debug, PartialEq, Eq, Structural)]
pub struct ArmPress {
    pub idx: i32,
}

#[derive(Clone, Copy, Debug, PartialEq, Eq, Structural)]
pub struct ArmRelease {
    pub idx: i32,
}

#[derive(Clone, Copy, Debug, PartialEq, Eq, Structural)]
pub struct ArmLEDMsg {
    pub idx: i32,
    pub state: LEDState,
}

#[derive(Clone, Copy, Debug, PartialEq, Eq, Structural)]
pub struct SelectPress {
    pub idx: i32,
}

#[derive(Clone, Copy, Debug, PartialEq, Eq, Structural)]
pub struct SelectRelease {
    pub idx: i32,
}

#[derive(Clone, Copy, Debug, PartialEq, Eq, Structural)]
pub struct SelectLEDMsg {
    pub idx: i32,
    pub state: LEDState,
}

#[derive(Clone, Copy, Debug, PartialEq, Eq, Structural)]
pub enum Color {
    Off,
    Red,
    Green,
    Yellow,
    Blue,
    Magenta,
    Cyan,
    Grey,
}

#[derive(Clone, Debug)]
pub struct ScribbleStripLine1TextMsg {
    pub idx: i32,
    pub text: String,
}

#[derive(Clone, Debug)]
pub struct ScribbleStripLine2TextMsg {
    pub idx: i32,
    pub text: String,
}

#[derive(Clone, Debug)]
pub struct ScribbleStripBackgroundColorMsg {
    pub idx: i32,
    pub color: Color,
}

#[derive(Clone, Copy, Debug)]
pub enum UpstreamMsg {
    Barrier(Barrier),
    // Channel strip messages
    FaderAbs(FaderAbsMsg),
    EncoderTurnInc(EncoderTurnCW),
    EncoderTurnDec(EncoderTurnCCW),
    EncoderPress(EncoderPressMsg),
    EncoderRelease(EncoderReleaseMsg),
    MutePress(MutePress),
    MuteRelease(MuteRelease),
    SoloPress(SoloPress),
    SoloRelease(SoloRelease),
    ArmPress(ArmPress),
    ArmRelease(ArmRelease),
    SelectPress(SelectPress),
    SelectRelease(SelectRelease),
    // Encoder assign messages
    TrackPress,
    TrackRelease,
    PanPress,
    PanRelease,
    EQPress,
    EQRelease,
    SendPress,
    SendRelease,
    PluginPress,
    PluginRelease,
    InstPress,
    InstRelease,
    // View messages
    GlobalPress,
    GlobalRelease,
    MIDITracksPress,
    MIDITracksRelease,
    InputsPress,
    InputsRelease,
    AudioTracksPress,
    AudioTracksRelease,
    AudioInstPress,
    AudioInstRelease,
    AuxPress,
    AuxRelease,
    BusesPress,
    BusesRelease,
    OutputsPress,
    OutputsRelease,
    UserPress,
    UserRelease,
}

#[derive(Debug)]
pub enum DownstreamMsg {
    Barrier(Barrier),
    // Channel strip messages
    FaderAbs(FaderAbsMsg),
    EncoderRingLED(EncoderRingMsg),
    MuteLED(MuteLEDMsg),
    SoloLED(SoloLEDMsg),
    ArmLED(ArmLEDMsg),
    SelectLED(SelectLEDMsg),
    // Scribble strip messages
    ScribbleStripLine1Text(ScribbleStripLine1TextMsg),
    ScribbleStripLine2Text(ScribbleStripLine2TextMsg),
    ScribbleStripBackgroundColor(ScribbleStripBackgroundColorMsg),
    // Encoder assign messages
    Track(LEDState),
    Pan(LEDState),
    EQ(LEDState),
    Send(LEDState),
    Plugin(LEDState),
    Inst(LEDState),
    // View messages
    Global(LEDState),
    MIDITracks(LEDState),
    Inputs(LEDState),
    AudioTracks(LEDState),
    AudioInst(LEDState),
    Aux(LEDState),
    Buses(LEDState),
    Outputs(LEDState),
    User(LEDState),
}

/// The X-Touch compactions of `lines`, one after the other.
pub open spec fn compacted_lines(lines: Seq<String>) -> Seq<u8>
    decreases lines.len(),
{
    if lines.len() == 0 {
        seq![]
    } else {
        compacted_lines(lines.drop_last()) + xtouch_compaction(encode_utf8(lines.last()@))
    }
}

fn append_compacted(out: &mut Vec<u8>, lines: &Vec<String>)
    ensures
        final(out)@ == old(out)@ + compacted_lines(lines@),
{
    let ghost start = out@;
    let mut i: usize = 0;
    while i < lines.len()
        invariant
            0 <= i <= lines.len(),
            out@ == start + compacted_lines(lines@.subrange(0, i as int)),
        decreases lines.len() - i,
    {
        let bytes = compact_to_7_bytes(lines[i].as_str());
        out.extend_from_slice(bytes.as_slice());
        assert(lines@.subrange(0, i + 1).drop_last() =~= lines@.subrange(0, i as int));
        assert(out@ =~= start + compacted_lines(lines@.subrange(0, i + 1)));
        i = i + 1;
    }
    assert(lines@.subrange(0, lines.len() as int) =~= lines@);
}

pub const SCRIBBLE_TEXT_HEADER: [u8; 7] = [0xf0, 0x00, 0x00, 0x66, 0x14, 0x12, 0x00];

pub const SCRIBBLE_COLOR_HEADER: [u8; 6] = [0xf0, 0x00, 0x00, 0x66, 0x14, 0x72];

/// The byte sent for each strip in the color message, whatever its background color
/// (black text on a lit background, both lines in their default mode).
pub const SCRIBBLE_COLOR_BYTE: u8 = 0x4b;

/// Text and background colors of the scribble strips, one per channel strip.
pub struct ScribbleStrips {
    line_1: Vec<String>,
    line_2: Vec<String>,
    background_color: Vec<Color>,
}

impl ScribbleStrips {
    pub closed spec fn line1(&self) -> Seq<String> {
        self.line_1@
    }

    pub closed spec fn line2(&self) -> Seq<String> {
        self.line_2@
    }

    pub closed spec fn colors(&self) -> Seq<Color> {
        self.background_color@
    }

    pub open spec fn wf(&self) -> bool {
        self.line1().len() == self.line2().len() && self.line2().len() == self.colors().len()
    }

    pub fn new(num_channels: usize) -> (r: Self)
        ensures
            r.wf(),
            r.line1().len() == num_channels,
            forall|i: int| 0 <= i < num_channels ==> (#[trigger] r.line1()[i])@ == Seq::<char>::empty(),
            forall|i: int| 0 <= i < num_channels ==> (#[trigger] r.line2()[i])@ == Seq::<char>::empty(),
            forall|i: int| 0 <= i < num_channels ==> #[trigger] r.colors()[i] == Color::Blue,
    {
        let mut l1: Vec<String> = Vec::new();
        let mut l2: Vec<String> = Vec::new();
        let mut colors: Vec<Color> = Vec::new();
        let mut i: usize = 0;
        while i < num_channels
            invariant
                0 <= i <= num_channels,
                l1.len() == i,
                l2.len() == i,
                colors.len() == i,
                forall|j: int| 0 <= j < i ==> (#[trigger] l1@[j])@ == Seq::<char>::empty(),
                forall|j: int| 0 <= j < i ==> (#[trigger] l2@[j])@ == Seq::<char>::empty(),
                forall|j: int| 0 <= j < i ==> #[trigger] colors@[j] == Color::Blue,
            decreases num_channels - i,
        {
            l1.push(String::new());
            l2.push(String::new());
            colors.push(Color::Blue);
            i = i + 1;
        }
        ScribbleStrips { line_1: l1, line_2: l2, background_color: colors }
    }

    pub fn set_line1(&mut self, msg: ScribbleStripLine1TextMsg)
        requires
            old(self).wf(),
            0 <= msg.idx < old(self).line1().len(),
        ensures
            final(self).wf(),
            final(self).line1() == old(self).line1().update(msg.idx as int, msg.text),
            final(self).line2() == old(self).line2(),
            final(self).colors() == old(self).colors(),
    {
        self.line_1.set(msg.idx as usize, msg.text);
    }

    pub fn set_line2(&mut self, msg: ScribbleStripLine2TextMsg)
        requires
            old(self).wf(),
            0 <= msg.idx < old(self).line1().len(),
        ensures
            final(self).wf(),
            final(self).line1() == old(self).line1(),
            final(self).line2() == old(self).line2().update(msg.idx as int, msg.text),
            final(self).colors() == old(self).colors(),
    {
        self.line_2.set(msg.idx as usize, msg.text);
    }

    pub fn set_color(&mut self, msg: ScribbleStripBackgroundColorMsg)
        requires
            old(self).wf(),
            0 <= msg.idx < old(self).line1().len(),
        ensures
            final(self).wf(),
            final(self).line1() == old(self).line1(),
            final(self).line2() == old(self).line2(),
            final(self).colors() == old(self).colors().update(msg.idx as int, msg.color),
    {
        self.background_color.set(msg.idx as usize, msg.color);
    }

    /// The two system-exclusive messages that show the whole state: the text of all upper
    /// lines then all lower lines, then one color byte per strip.
    pub fn write(&self) -> (r: (Vec<u8>, Vec<u8>))
        requires
            self.wf(),
        ensures
            r.0@ == SCRIBBLE_TEXT_HEADER@ + compacted_lines(self.line1()) + compacted_lines(self.line2())
                + seq![0xf7u8],
            r.1@ == SCRIBBLE_COLOR_HEADER@ + Seq::new(self.line1().len(), |i: int| SCRIBBLE_COLOR_BYTE)
                + seq![0xf7u8],
    {
        let mut text: Vec<u8> = Vec::new();
        text.extend_from_slice(SCRIBBLE_TEXT_HEADER.as_slice());
        append_compacted(&mut text, &self.line_1);
        append_compacted(&mut text, &self.line_2);
        text.push(0xf7);
        let mut colors: Vec<u8> = Vec::new();
        colors.extend_from_slice(SCRIBBLE_COLOR_HEADER.as_slice());
        let ghost start = colors@;
        let mut i: usize = 0;
        while i < self.line_1.len()
            invariant
                0 <= i <= self.line_1.len(),
                colors@ == start + Seq::new(i as nat, |j: int| SCRIBBLE_COLOR_BYTE),
            decreases self.line_1.len() - i,
        {
            colors.push(SCRIBBLE_COLOR_BYTE);
            i = i + 1;
            assert(colors@ =~= start + Seq::new(i as nat, |j: int| SCRIBBLE_COLOR_BYTE));
        }
        colors.push(0xf7);
        (text, colors)
    }
}

// ---------------------------------------------------------------------------
// Messages to the surface
// ---------------------------------------------------------------------------

/// Velocity of the Note On that shows an LED state.
pub open spec fn led_velocity(state: LEDState) -> u8 {
    match state {
        LEDState::Off => 0,
        LEDState::On => 127,
        LEDState::Flash => 1,
    }
}

/// The kinds of channel-strip button, each a row of notes on MIDI channel 0.
#[derive(Debug, Clone, Copy, PartialEq, Eq, Structural)]
pub enum ButtonRow {
    Mute,
    Solo,
    Arm,
    Select,
}

/// Note of the button of `row` on strip `idx`.
pub open spec fn button_note(row: ButtonRow, idx: int) -> int {
    match row {
        ButtonRow::Mute => 16 + idx,
        ButtonRow::Solo => 8 + idx,
        ButtonRow::Arm => idx,
        ButtonRow::Select => 24 + idx,
    }
}

/// Message that shows `state` on the LED of the `row` button of strip `idx`, on a
/// surface of `num_channels` strips.
pub fn button_led_message(row: ButtonRow, idx: i32, num_channels: usize, state: LEDState) -> (r: [u8; 3])
    requires
        0 <= idx < num_channels <= 16,
    ensures
        r@ == channel_bytes(0x90, 0, button_note(row, idx as int) as u8, led_velocity(state)),
{
    let i = idx as u8;
    let note: u8 = match row {
        ButtonRow::Mute => 16 + i,
        ButtonRow::Solo => 8 + i,
        ButtonRow::Arm => i,
        ButtonRow::Select => 24 + i,
    };
    let velocity: u8 = match state {
        LEDState::Off => 0,
        LEDState::On => 127,
        LEDState::Flash => 1,
    };
    NoteOn { channel: 0, key_number: note }.message(velocity)
}

/// The value of an encoder ring: the mode in bits 4-5, the position in the low nibble.
pub open spec fn ring_value(mode: EncoderRingMode, val: u8) -> int {
    let m: int = match mode {
        EncoderRingMode::Point => 0,
        EncoderRingMode::FromCenter => 1,
        EncoderRingMode::FromLeft => 2,
        EncoderRingMode::Width => 3,
    };
    m * 16 + val % 16
}

/// Message that sets the LED ring of encoder `msg.idx` (controller 0x30 + idx).
pub fn encoder_ring_message(msg: EncoderRingMsg, num_channels: usize) -> (r: [u8; 3])
    requires
        0 <= msg.idx < num_channels <= 16,
    ensures
        r@ == channel_bytes(0xB0, 0, (0x30 + msg.idx) as u8, ring_value(msg.mode, msg.val) as u8),
{
    let low: u8 = msg.val % 16;
    let v: u8 = match msg.mode {
        EncoderRingMode::Point => low,
        EncoderRingMode::FromCenter => 16 + low,
        EncoderRingMode::FromLeft => 32 + low,
        EncoderRingMode::Width => 48 + low,
    };
    ControlChange { channel: 0, controller_number: 0x30 + msg.idx as u8 }.message(v)
}

/// Message that moves the motor fader of strip `idx` (pitch bend on MIDI channel `idx`)
/// to the 14-bit position `value`. The device panics on a position whose low 16 bits
/// exceed 16383.
pub fn fader_message(idx: i32, num_channels: usize, value: i32) -> (r: [u8; 3])
    requires
        0 <= idx < num_channels <= 16,
        (value as u16) < 16384,
    ensures
        r@ == channel_bytes(0xE0, idx as u8, ((value as u16) % 128) as u8, ((value as u16) / 128) as u8),
{
    PitchBend { channel: idx as u8 }.message(value as u16)
}

// ---------------------------------------------------------------------------
// Input from the surface
// ---------------------------------------------------------------------------

/// What a message from the surface means. Fader positions are the raw 14-bit values.
#[derive(Clone, Copy, Debug)]
pub enum XTouchInput {
    Fader { idx: i32, value: u16 },
    Upstream(UpstreamMsg),
}

/// Why a message from the surface could not be read.
#[derive(Clone, Copy, Debug, PartialEq, Eq, Structural)]
pub enum InputError {
    /// The status byte is below 0x80.
    InvalidStatus,
    /// A button sent a velocity other than 0 or 127.
    UnexpectedVelocity(u8),
    /// An encoder turned with a value other than 1 (clockwise) or 65 (counter-clockwise).
    UnexpectedTurn(u8),
}

pub open spec fn in_row(k: u8, base: int, n: usize) -> bool {
    base <= k < base + n
}

/// The strip buttons, the global view button (51) and the MIDI-tracks view button (62)
/// that a Note On for key `k` on channel 0 reaches, each as (what velocity 127 sends,
/// what velocity 0 sends).
pub open spec fn button_hits(k: u8, n: usize) -> Seq<(UpstreamMsg, UpstreamMsg)> {
    (if in_row(k, 16, n) {
        seq![(UpstreamMsg::MutePress(MutePress { idx: (k - 16) as i32 }), UpstreamMsg::MuteRelease(MuteRelease { idx: (k - 16) as i32 }))]
    } else {
        seq![]
    }) + (if in_row(k, 8, n) {
        seq![(UpstreamMsg::SoloPress(SoloPress { idx: (k - 8) as i32 }), UpstreamMsg::SoloRelease(SoloRelease { idx: (k - 8) as i32 }))]
    } else {
        seq![]
    }) + (if in_row(k, 0, n) {
        seq![(UpstreamMsg::ArmPress(ArmPress { idx: k as i32 }), UpstreamMsg::ArmRelease(ArmRelease { idx: k as i32 }))]
    } else {
        seq![]
    }) + (if in_row(k, 24, n) {
        seq![(UpstreamMsg::SelectPress(SelectPress { idx: (k - 24) as i32 }), UpstreamMsg::SelectRelease(SelectRelease { idx: (k - 24) as i32 }))]
    } else {
        seq![]
    }) + (if k == 51 {
        seq![(UpstreamMsg::GlobalRelease, UpstreamMsg::GlobalPress)]
    } else {
        seq![]
    }) + (if k == 62 {
        seq![(UpstreamMsg::MIDITracksRelease, UpstreamMsg::MIDITracksPress)]
    } else {
        seq![]
    })
}

/// Velocity 127 picks the first of each pair, velocity 0 the second.
pub open spec fn pick(hits: Seq<(UpstreamMsg, UpstreamMsg)>, velocity: u8) -> Seq<XTouchInput> {
    hits.map_values(|h: (UpstreamMsg, UpstreamMsg)| XTouchInput::Upstream(if velocity == 0 { h.1 } else { h.0 }))
}

/// How the X-Touch's input reads, for a surface of `n` strips.
pub open spec fn decode_xtouch(n: usize, status: u8, d1: u8, d2: u8) -> Result<Seq<XTouchInput>, InputError> {
    match read_short_message(status, d1, d2) {
        None => Err(InputError::InvalidStatus),
        Some(ShortMessage::PitchBend(ch, v)) => Ok(
            if ch < n {
                seq![XTouchInput::Fader { idx: ch as i32, value: v }]
            } else {
                seq![]
            },
        ),
        Some(ShortMessage::ControlChange(ch, c, v)) => if ch == 0 && in_row(c, 0x10, n) {
            if v == 1 {
                Ok(seq![XTouchInput::Upstream(UpstreamMsg::EncoderTurnInc(EncoderTurnCW { idx: (c - 0x10) as i32 }))])
            } else if v == 65 {
                Ok(seq![XTouchInput::Upstream(UpstreamMsg::EncoderTurnDec(EncoderTurnCCW { idx: (c - 0x10) as i32 }))])
            } else {
                Err(InputError::UnexpectedTurn(v))
            }
        } else {
            Ok(seq![])
        },
        Some(ShortMessage::NoteOn(ch, k, v)) => if ch != 0 {
            Ok(seq![])
        } else if button_hits(k, n).len() > 0 && v != 0 && v != 127 {
            Err(InputError::UnexpectedVelocity(v))
        } else {
            Ok(
                (if in_row(k, 0x20, n) {
                    seq![XTouchInput::Upstream(UpstreamMsg::EncoderPress(EncoderPressMsg { idx: (k - 0x20) as i32 }))]
                } else {
                    seq![]
                }) + pick(button_hits(k, n), v),
            )
        },
        Some(ShortMessage::NoteOff(ch, k, v)) => Ok(
            if ch == 0 && in_row(k, 0x20, n) {
                seq![XTouchInput::Upstream(UpstreamMsg::EncoderRelease(EncoderReleaseMsg { idx: (k - 0x20) as i32 }))]
            } else {
                seq![]
            },
        ),
        Some(ShortMessage::Other) => Ok(seq![]),
    }
}

fn push_hit(hits: &mut Vec<(UpstreamMsg, UpstreamMsg)>, hit: (UpstreamMsg, UpstreamMsg))
    ensures
        final(hits)@ == old(hits)@ + seq![hit],
{
    let ghost before = hits@;
    hits.push(hit);
    assert(hits@ =~= before + seq![hit]);
}

fn button_hits_exec(k: u8, n: usize) -> (r: Vec<(UpstreamMsg, UpstreamMsg)>)
    requires
        n <= 16,
    ensures
        r@ == button_hits(k, n),
{
    let mut hits: Vec<(UpstreamMsg, UpstreamMsg)> = Vec::new();
    let ki = k as i32;
    if 16 <= k && (k as usize) < 16 + n {
        push_hit(&mut hits, (UpstreamMsg::MutePress(MutePress { idx: ki - 16 }), UpstreamMsg::MuteRelease(MuteRelease { idx: ki - 16 })));
    }
    if 8 <= k && (k as usize) < 8 + n {
        push_hit(&mut hits, (UpstreamMsg::SoloPress(SoloPress { idx: ki - 8 }), UpstreamMsg::SoloRelease(SoloRelease { idx: ki - 8 })));
    }
    if (k as usize) < n {
        push_hit(&mut hits, (UpstreamMsg::ArmPress(ArmPress { idx: ki }), UpstreamMsg::ArmRelease(ArmRelease { idx: ki })));
    }
    if 24 <= k && (k as usize) < 24 + n {
        push_hit(&mut hits, (UpstreamMsg::SelectPress(SelectPress { idx: ki - 24 }), UpstreamMsg::SelectRelease(SelectRelease { idx: ki - 24 })));
    }
    if k == 51 {
        push_hit(&mut hits, (UpstreamMsg::GlobalRelease, UpstreamMsg::GlobalPress));
    }
    if k == 62 {
        push_hit(&mut hits, (UpstreamMsg::MIDITracksRelease, UpstreamMsg::MIDITracksPress));
    }
    assert(hits@ =~= button_hits(k, n));
    hits
}

/// Reads a message from an X-Touch with `num_channels` strips.
pub fn decode_input(num_channels: usize, status: u8, d1: u8, d2: u8) -> (r: Result<Vec<XTouchInput>, InputError>)
    requires
        num_channels <= 16,
        d1 < 128,
        d2 < 128,
    ensures
        match (r, decode_xtouch(num_channels, status, d1, d2)) {
            (Ok(got), Ok(want)) => got@ == want,
            (Err(e), Err(f)) => e == f,
            _ => false,
        },
{
    let n = num_channels;
    let mut out: Vec<XTouchInput> = Vec::new();
    match read_message(status, d1, d2) {
        None => {
            return Err(InputError::InvalidStatus);
        },
        Some(ShortMessage::PitchBend(ch, v)) => {
            if (ch as usize) < n {
                out.push(XTouchInput::Fader { idx: ch as i32, value: v });
            }
        },
        Some(ShortMessage::ControlChange(ch, c, v)) => {
            if ch == 0 && 0x10 <= c && (c as usize) < 0x10 + n {
                if v == 1 {
                    out.push(XTouchInput::Upstream(UpstreamMsg::EncoderTurnInc(EncoderTurnCW { idx: c as i32 - 0x10 })));
                } else if v == 65 {
                    out.push(XTouchInput::Upstream(UpstreamMsg::EncoderTurnDec(EncoderTurnCCW { idx: c as i32 - 0x10 })));
                } else {
                    return Err(InputError::UnexpectedTurn(v));
                }
            }
        },
        Some(ShortMessage::NoteOn(ch, k, v)) => {
            if ch == 0 {
                let hits = button_hits_exec(k, n);
                if hits.len() > 0 && v != 0 && v != 127 {
                    return Err(InputError::UnexpectedVelocity(v));
                }
                if 0x20 <= k && (k as usize) < 0x20 + n {
                    out.push(XTouchInput::Upstream(UpstreamMsg::EncoderPress(EncoderPressMsg { idx: k as i32 - 0x20 })));
                }
                let ghost first = out@;
                let mut j: usize = 0;
                while j < hits.len()
                    invariant
                        0 <= j <= hits.len(),
                        out@ == first + pick(hits@.subrange(0, j as int), v),
                    decreases hits.len() - j,
                {
                    let h = hits[j];
                    out.push(XTouchInput::Upstream(if v == 0 { h.1 } else { h.0 }));
                    assert(out@ =~= first + pick(hits@.subrange(0, j + 1), v));
                    j = j + 1;
                }
                assert(hits@.subrange(0, hits.len() as int) =~= hits@);
            }
        },
        Some(ShortMessage::NoteOff(ch, k, v)) => {
            if ch == 0 && 0x20 <= k && (k as usize) < 0x20 + n {
                out.push(XTouchInput::Upstream(UpstreamMsg::EncoderRelease(EncoderReleaseMsg { idx: k as i32 - 0x20 })));
            }
        },
        Some(ShortMessage::Other) => {},
    }
    proof {
        assert(out@ =~= decode_xtouch(num_channels, status, d1, d2).unwrap());
    }
    Ok(out)
}

// ---------------------------------------------------------------------------
// Driving the surface
// ---------------------------------------------------------------------------

/// The system-exclusive message with the text of all strips' lines.
pub open spec fn scribble_text_sysex(line1: Seq<String>, line2: Seq<String>) -> Seq<u8> {
    SCRIBBLE_TEXT_HEADER@ + compacted_lines(line1) + compacted_lines(line2) + seq![0xf7u8]
}

/// The system-exclusive message with the strips' color byte, one per strip.
pub open spec fn scribble_color_sysex(n: nat) -> Seq<u8> {
    SCRIBBLE_COLOR_HEADER@ + Seq::new(n, |i: int| SCRIBBLE_COLOR_BYTE) + seq![0xf7u8]
}

/// What a message for the X-Touch asks of the program that drives the device.
#[derive(Debug)]
pub enum XTouchAction {
    /// Send the barrier back upstream.
    ReflectBarrier(Barrier),
    /// Move the motor fader of a strip; `value_bits` holds the bits of the `f64` position.
    Fader { idx: i32, value_bits: u64 },
    /// Send these messages, in order.
    Send(Vec<Vec<u8>>),
}

/// Whether the device can take `msg`: it is one the device shows, and the strip it
/// addresses exists.
pub open spec fn xtouch_accepts(n: usize, msg: DownstreamMsg) -> bool {
    match msg {
        DownstreamMsg::Barrier(_) => true,
        DownstreamMsg::FaderAbs(m) => 0 <= m.idx < n,
        DownstreamMsg::EncoderRingLED(m) => 0 <= m.idx < n,
        DownstreamMsg::MuteLED(m) => 0 <= m.idx < n,
        DownstreamMsg::SoloLED(m) => 0 <= m.idx < n,
        DownstreamMsg::ArmLED(m) => 0 <= m.idx < n,
        DownstreamMsg::SelectLED(m) => 0 <= m.idx < n,
        DownstreamMsg::ScribbleStripLine1Text(m) => 0 <= m.idx < n,
        DownstreamMsg::ScribbleStripLine2Text(m) => 0 <= m.idx < n,
        DownstreamMsg::ScribbleStripBackgroundColor(m) => 0 <= m.idx < n,
        _ => false,
    }
}

fn one_short(a: [u8; 3]) -> (r: Vec<Vec<u8>>)
    ensures
        r@.len() == 1,
        r@[0]@ == a@,
{
    let mut b: Vec<u8> = Vec::new();
    b.extend_from_slice(a.as_slice());
    let mut v: Vec<Vec<u8>> = Vec::new();
    v.push(b);
    v
}

/// The state of an X-Touch as the program sees it: what its scribble strips show.
pub struct XTouchSurface {
    num_channels: usize,
    scribbles: ScribbleStrips,
}

impl XTouchSurface {
    pub closed spec fn spec_num_channels(&self) -> usize {
        self.num_channels
    }

    pub closed spec fn strips(&self) -> ScribbleStrips {
        self.scribbles
    }

    pub open spec fn wf(&self) -> bool {
        &&& self.spec_num_channels() <= 16
        &&& self.strips().wf()
        &&& self.strips().line1().len() == self.spec_num_channels()
    }

    pub fn new(num_channels: usize) -> (r: Self)
        requires
            num_channels <= 16,
        ensures
            r.wf(),
            r.spec_num_channels() == num_channels,
            forall|i: int| 0 <= i < num_channels ==> (#[trigger] r.strips().line1()[i])@ == Seq::<char>::empty(),
            forall|i: int| 0 <= i < num_channels ==> (#[trigger] r.strips().line2()[i])@ == Seq::<char>::empty(),
            forall|i: int| 0 <= i < num_channels ==> #[trigger] r.strips().colors()[i] == Color::Blue,
    {
        XTouchSurface { num_channels, scribbles: ScribbleStrips::new(num_channels) }
    }

    fn strip_messages(&self) -> (r: Vec<Vec<u8>>)
        requires
            self.strips().wf(),
        ensures
            r@.len() == 2,
            r@[0]@ == scribble_text_sysex(self.strips().line1(), self.strips().line2()),
            r@[1]@ == scribble_color_sysex(self.strips().line1().len()),
    {
        let (text, colors) = self.scribbles.write();
        let mut v: Vec<Vec<u8>> = Vec::new();
        v.push(text);
        v.push(colors);
        v
    }

    /// Take a message for the device: update what the strips show, and say what is to be
    /// sent.
    pub fn handle(&mut self, msg: DownstreamMsg) -> (r: XTouchAction)
        requires
            old(self).wf(),
            xtouch_accepts(old(self).spec_num_channels(), msg),
        ensures
            final(self).wf(),
            final(self).spec_num_channels() == old(self).spec_num_channels(),
            match msg {
                DownstreamMsg::ScribbleStripLine1Text(_) | DownstreamMsg::ScribbleStripLine2Text(_)
                | DownstreamMsg::ScribbleStripBackgroundColor(_) => true,
                _ => final(self).strips() == old(self).strips(),
            },
            match msg {
                DownstreamMsg::Barrier(b) => r matches XTouchAction::ReflectBarrier(x) && x == b,
                DownstreamMsg::FaderAbs(m) => r matches XTouchAction::Fader { idx, value_bits }
                    && idx == m.idx && value_bits == m.value,
                DownstreamMsg::EncoderRingLED(m) => r matches XTouchAction::Send(v) && v@.len() == 1
                    && v@[0]@ == channel_bytes(0xB0, 0, (0x30 + m.idx) as u8, ring_value(m.mode, m.val) as u8),
                DownstreamMsg::MuteLED(m) => r matches XTouchAction::Send(v) && v@.len() == 1 && v@[0]@
                    == channel_bytes(0x90, 0, button_note(ButtonRow::Mute, m.idx as int) as u8, led_velocity(m.state)),
                DownstreamMsg::SoloLED(m) => r matches XTouchAction::Send(v) && v@.len() == 1 && v@[0]@
                    == channel_bytes(0x90, 0, button_note(ButtonRow::Solo, m.idx as int) as u8, led_velocity(m.state)),
                DownstreamMsg::ArmLED(m) => r matches XTouchAction::Send(v) && v@.len() == 1 && v@[0]@
                    == channel_bytes(0x90, 0, button_note(ButtonRow::Arm, m.idx as int) as u8, led_velocity(m.state)),
                DownstreamMsg::SelectLED(m) => r matches XTouchAction::Send(v) && v@.len() == 1 && v@[0]@
                    == channel_bytes(0x90, 0, button_note(ButtonRow::Select, m.idx as int) as u8, led_velocity(m.state)),
                DownstreamMsg::ScribbleStripLine1Text(m) => {
                    &&& final(self).strips().line1() == old(self).strips().line1().update(m.idx as int, m.text)
                    &&& final(self).strips().line2() == old(self).strips().line2()
                    &&& final(self).strips().colors() == old(self).strips().colors()
                    &&& r matches XTouchAction::Send(v) && v@.len() == 2
                        && v@[0]@ == scribble_text_sysex(final(self).strips().line1(), final(self).strips().line2())
                        && v@[1]@ == scribble_color_sysex(final(self).strips().line1().len())
                },
                DownstreamMsg::ScribbleStripLine2Text(m) => {
                    &&& final(self).strips().line1() == old(self).strips().line1()
                    &&& final(self).strips().line2() == old(self).strips().line2().update(m.idx as int, m.text)
                    &&& final(self).strips().colors() == old(self).strips().colors()
                    &&& r matches XTouchAction::Send(v) && v@.len() == 2
                        && v@[0]@ == scribble_text_sysex(final(self).strips().line1(), final(self).strips().line2())
                        && v@[1]@ == scribble_color_sysex(final(self).strips().line1().len())
                },
                DownstreamMsg::ScribbleStripBackgroundColor(m) => {
                    &&& final(self).strips().line1() == old(self).strips().line1()
                    &&& final(self).strips().line2() == old(self).strips().line2()
                    &&& final(self).strips().colors() == old(self).strips().colors().update(m.idx as int, m.color)
                    &&& r matches XTouchAction::Send(v) && v@.len() == 2
                        && v@[0]@ == scribble_text_sysex(final(self).strips().line1(), final(self).strips().line2())
                        && v@[1]@ == scribble_color_sysex(final(self).strips().line1().len())
                },
                _ => false,
            },
    {
        let n = self.num_channels;
        match msg {
            DownstreamMsg::Barrier(b) => XTouchAction::ReflectBarrier(b),
            DownstreamMsg::FaderAbs(m) => XTouchAction::Fader { idx: m.idx, value_bits: m.value },
            DownstreamMsg::EncoderRingLED(m) => XTouchAction::Send(one_short(encoder_ring_message(m, n))),
            DownstreamMsg::MuteLED(m) => XTouchAction::Send(
                one_short(button_led_message(ButtonRow::Mute, m.idx, n, m.state)),
            ),
            DownstreamMsg::SoloLED(m) => XTouchAction::Send(
                one_short(button_led_message(ButtonRow::Solo, m.idx, n, m.state)),
            ),
            DownstreamMsg::ArmLED(m) => XTouchAction::Send(
                one_short(button_led_message(ButtonRow::Arm, m.idx, n, m.state)),
            ),
            DownstreamMsg::SelectLED(m) => XTouchAction::Send(
                one_short(button_led_message(ButtonRow::Select, m.idx, n, m.state)),
            ),
            DownstreamMsg::ScribbleStripLine1Text(m) => {
                self.scribbles.set_line1(m);
                XTouchAction::Send(self.strip_messages())
            },
            DownstreamMsg::ScribbleStripLine2Text(m) => {
                self.scribbles.set_line2(m);
                XTouchAction::Send(self.strip_messages())
            },
            DownstreamMsg::ScribbleStripBackgroundColor(m) => {
                self.scribbles.set_color(m);
                XTouchAction::Send(self.strip_messages())
            },
            _ => XTouchAction::Send(Vec::new()),
        }
    }
}

/// The strip buttons are rows of notes on MIDI channel 0, eight apart: arm from note 0,
/// solo from note 8, mute from note 16 and select from note 24, one note per strip.
pub proof fn law_button_rows(i: int)
    ensures
        button_note(ButtonRow::Arm, i) == i,
        button_note(ButtonRow::Solo, i) == 8 + i,
        button_note(ButtonRow::Mute, i) == 16 + i,
        button_note(ButtonRow::Select, i) == 24 + i,
{
}

/// A Note On on channel 0 for a key that one button alone has, and that no encoder has,
/// reads as that button's press or release.
proof fn lemma_single_button(n: usize, k: u8)
    requires
        n <= 16,
        button_hits(k, n).len() == 1,
        !in_row(k, 0x20, n),
    ensures
        decode_xtouch(n, 0x90, k, 127) == Ok::<Seq<XTouchInput>, InputError>(
            seq![XTouchInput::Upstream(button_hits(k, n)[0].0)],
        ),
        decode_xtouch(n, 0x90, k, 0) == Ok::<Seq<XTouchInput>, InputError>(
            seq![XTouchInput::Upstream(button_hits(k, n)[0].1)],
        ),
{
    assert(read_short_message(0x90, k, 127) == Some(ShortMessage::NoteOn(0, k, 127)));
    assert(read_short_message(0x90, k, 0) == Some(ShortMessage::NoteOn(0, k, 0)));
    let e: Seq<XTouchInput> = seq![];
    assert(e + pick(button_hits(k, n), 127) =~= seq![XTouchInput::Upstream(button_hits(k, n)[0].0)]);
    assert(e + pick(button_hits(k, n), 0) =~= seq![XTouchInput::Upstream(button_hits(k, n)[0].1)]);
}

/// A Note On on channel 0 for a key that a button has reads, among others, as that
/// button's press or release.
proof fn lemma_row_hit(n: usize, k: u8, hit: (UpstreamMsg, UpstreamMsg))
    requires
        n <= 16,
        button_hits(k, n).contains(hit),
    ensures
        decode_xtouch(n, 0x90, k, 127) matches Ok(s) && s.contains(XTouchInput::Upstream(hit.0)),
        decode_xtouch(n, 0x90, k, 0) matches Ok(s) && s.contains(XTouchInput::Upstream(hit.1)),
{
    assert(read_short_message(0x90, k, 127) == Some(ShortMessage::NoteOn(0, k, 127)));
    assert(read_short_message(0x90, k, 0) == Some(ShortMessage::NoteOn(0, k, 0)));
    let hits = button_hits(k, n);
    let j = choose|j: int| 0 <= j < hits.len() && hits[j] == hit;
    let pre: Seq<XTouchInput> = if in_row(k, 0x20, n) {
        seq![XTouchInput::Upstream(UpstreamMsg::EncoderPress(EncoderPressMsg { idx: (k - 0x20) as i32 }))]
    } else {
        seq![]
    };
    assert((pre + pick(hits, 127))[pre.len() + j] == XTouchInput::Upstream(hit.0));
    assert((pre + pick(hits, 0))[pre.len() + j] == XTouchInput::Upstream(hit.1));
}

/// On a surface of at most eight strips, a Note On on channel 0 for the note of strip
/// `i` in a button row reads as that row's press on strip `i` with velocity 127, and as
/// its release with velocity 0, and as nothing else.
pub proof fn law_strip_buttons_decode(n: usize, i: int)
    requires
        0 <= i < n <= 8,
    ensures
        decode_xtouch(n, 0x90, (16 + i) as u8, 127) == Ok::<Seq<XTouchInput>, InputError>(seq![XTouchInput::Upstream(UpstreamMsg::MutePress(MutePress { idx: i as i32 }))]),
        decode_xtouch(n, 0x90, (16 + i) as u8, 0) == Ok::<Seq<XTouchInput>, InputError>(seq![XTouchInput::Upstream(UpstreamMsg::MuteRelease(MuteRelease { idx: i as i32 }))]),
        decode_xtouch(n, 0x90, (8 + i) as u8, 127) == Ok::<Seq<XTouchInput>, InputError>(seq![XTouchInput::Upstream(UpstreamMsg::SoloPress(SoloPress { idx: i as i32 }))]),
        decode_xtouch(n, 0x90, (8 + i) as u8, 0) == Ok::<Seq<XTouchInput>, InputError>(seq![XTouchInput::Upstream(UpstreamMsg::SoloRelease(SoloRelease { idx: i as i32 }))]),
        decode_xtouch(n, 0x90, i as u8, 127) == Ok::<Seq<XTouchInput>, InputError>(seq![XTouchInput::Upstream(UpstreamMsg::ArmPress(ArmPress { idx: i as i32 }))]),
        decode_xtouch(n, 0x90, i as u8, 0) == Ok::<Seq<XTouchInput>, InputError>(seq![XTouchInput::Upstream(UpstreamMsg::ArmRelease(ArmRelease { idx: i as i32 }))]),
        decode_xtouch(n, 0x90, (24 + i) as u8, 127) == Ok::<Seq<XTouchInput>, InputError>(seq![XTouchInput::Upstream(UpstreamMsg::SelectPress(SelectPress { idx: i as i32 }))]),
        decode_xtouch(n, 0x90, (24 + i) as u8, 0) == Ok::<Seq<XTouchInput>, InputError>(seq![XTouchInput::Upstream(UpstreamMsg::SelectRelease(SelectRelease { idx: i as i32 }))]),
{
    assert(button_hits((16 + i) as u8, n) =~= seq![(UpstreamMsg::MutePress(MutePress { idx: i as i32 }), UpstreamMsg::MuteRelease(MuteRelease { idx: i as i32 }))]);
    lemma_single_button(n, (16 + i) as u8);
    assert(button_hits((8 + i) as u8, n) =~= seq![(UpstreamMsg::SoloPress(SoloPress { idx: i as i32 }), UpstreamMsg::SoloRelease(SoloRelease { idx: i as i32 }))]);
    lemma_single_button(n, (8 + i) as u8);
    assert(button_hits(i as u8, n) =~= seq![(UpstreamMsg::ArmPress(ArmPress { idx: i as i32 }), UpstreamMsg::ArmRelease(ArmRelease { idx: i as i32 }))]);
    lemma_single_button(n, i as u8);
    assert(button_hits((24 + i) as u8, n) =~= seq![(UpstreamMsg::SelectPress(SelectPress { idx: i as i32 }), UpstreamMsg::SelectRelease(SelectRelease { idx: i as i32 }))]);
    lemma_single_button(n, (24 + i) as u8);
}

/// On a surface of up to sixteen strips, whose button rows overlap, the note of strip `i`
/// in a row still reads as that row's press and release on strip `i`, among others.
pub proof fn law_strip_buttons_decode_wide(n: usize, i: int)
    requires
        0 <= i < n <= 16,
    ensures
        decode_xtouch(n, 0x90, (16 + i) as u8, 127) matches Ok(s) && s.contains(XTouchInput::Upstream(UpstreamMsg::MutePress(MutePress { idx: i as i32 }))),
        decode_xtouch(n, 0x90, (16 + i) as u8, 0) matches Ok(s) && s.contains(XTouchInput::Upstream(UpstreamMsg::MuteRelease(MuteRelease { idx: i as i32 }))),
        decode_xtouch(n, 0x90, (8 + i) as u8, 127) matches Ok(s) && s.contains(XTouchInput::Upstream(UpstreamMsg::SoloPress(SoloPress { idx: i as i32 }))),
        decode_xtouch(n, 0x90, (8 + i) as u8, 0) matches Ok(s) && s.contains(XTouchInput::Upstream(UpstreamMsg::SoloRelease(SoloRelease { idx: i as i32 }))),
        decode_xtouch(n, 0x90, i as u8, 127) matches Ok(s) && s.contains(XTouchInput::Upstream(UpstreamMsg::ArmPress(ArmPress { idx: i as i32 }))),
        decode_xtouch(n, 0x90, i as u8, 0) matches Ok(s) && s.contains(XTouchInput::Upstream(UpstreamMsg::ArmRelease(ArmRelease { idx: i as i32 }))),
        decode_xtouch(n, 0x90, (24 + i) as u8, 127) matches Ok(s) && s.contains(XTouchInput::Upstream(UpstreamMsg::SelectPress(SelectPress { idx: i as i32 }))),
        decode_xtouch(n, 0x90, (24 + i) as u8, 0) matches Ok(s) && s.contains(XTouchInput::Upstream(UpstreamMsg::SelectRelease(SelectRelease { idx: i as i32 }))),
{
    assert(button_hits((16 + i) as u8, n)[0] == (UpstreamMsg::MutePress(MutePress { idx: i as i32 }), UpstreamMsg::MuteRelease(MuteRelease { idx: i as i32 })));
    lemma_row_hit(n, (16 + i) as u8, (UpstreamMsg::MutePress(MutePress { idx: i as i32 }), UpstreamMsg::MuteRelease(MuteRelease { idx: i as i32 })));
    let a: int = if in_row((8 + i) as u8, 16, n) { 1 } else { 0 };
    assert(button_hits((8 + i) as u8, n)[a] == (UpstreamMsg::SoloPress(SoloPress { idx: i as i32 }), UpstreamMsg::SoloRelease(SoloRelease { idx: i as i32 })));
    lemma_row_hit(n, (8 + i) as u8, (UpstreamMsg::SoloPress(SoloPress { idx: i as i32 }), UpstreamMsg::SoloRelease(SoloRelease { idx: i as i32 })));
    let b: int = (if in_row(i as u8, 16, n) { 1int } else { 0 }) + (if in_row(i as u8, 8, n) { 1int } else { 0 });
    assert(button_hits(i as u8, n)[b] == (UpstreamMsg::ArmPress(ArmPress { idx: i as i32 }), UpstreamMsg::ArmRelease(ArmRelease { idx: i as i32 })));
    lemma_row_hit(n, i as u8, (UpstreamMsg::ArmPress(ArmPress { idx: i as i32 }), UpstreamMsg::ArmRelease(ArmRelease { idx: i as i32 })));
    let c: int = if in_row((24 + i) as u8, 16, n) { 1 } else { 0 };
    assert(button_hits((24 + i) as u8, n)[c] == (UpstreamMsg::SelectPress(SelectPress { idx: i as i32 }), UpstreamMsg::SelectRelease(SelectRelease { idx: i as i32 })));
    lemma_row_hit(n, (24 + i) as u8, (UpstreamMsg::SelectPress(SelectPress { idx: i as i32 }), UpstreamMsg::SelectRelease(SelectRelease { idx: i as i32 })));
}

/// The note that shows the LED of a strip button is the note on which that button's press
/// and release come back: on a surface of at most eight strips, a Note On for it with
/// velocity 127 reads as the press of the same button of the same strip.
pub proof fn law_led_note_is_button_note(n: usize, row: ButtonRow, i: int)
    requires
        0 <= i < n <= 8,
    ensures
        decode_xtouch(n, 0x90, button_note(row, i) as u8, 127) == Ok::<Seq<XTouchInput>, InputError>(seq![
            XTouchInput::Upstream(
                match row {
                    ButtonRow::Mute => UpstreamMsg::MutePress(MutePress { idx: i as i32 }),
                    ButtonRow::Solo => UpstreamMsg::SoloPress(SoloPress { idx: i as i32 }),
                    ButtonRow::Arm => UpstreamMsg::ArmPress(ArmPress { idx: i as i32 }),
                    ButtonRow::Select => UpstreamMsg::SelectPress(SelectPress { idx: i as i32 }),
                },
            ),
        ]),
        decode_xtouch(n, 0x90, button_note(row, i) as u8, 0) == Ok::<Seq<XTouchInput>, InputError>(seq![
            XTouchInput::Upstream(
                match row {
                    ButtonRow::Mute => UpstreamMsg::MuteRelease(MuteRelease { idx: i as i32 }),
                    ButtonRow::Solo => UpstreamMsg::SoloRelease(SoloRelease { idx: i as i32 }),
                    ButtonRow::Arm => UpstreamMsg::ArmRelease(ArmRelease { idx: i as i32 }),
                    ButtonRow::Select => UpstreamMsg::SelectRelease(SelectRelease { idx: i as i32 }),
                },
            ),
        ]),
{
    law_strip_buttons_decode(n, i);
}

/// On a surface of at most eight strips, encoder `i` turns on controller 0x10 + i of MIDI
/// channel 0 (value 1 clockwise, 65 counter-clockwise), is pressed and released on note
/// 0x20 + i, and fader `i` moves by pitch bend on MIDI channel `i`, whose two data bytes
/// are the low and high seven bits of its position.
pub proof fn law_encoders_and_faders_decode(n: usize, i: int, lo: u8, hi: u8, v: u8)
    requires
        0 <= i < n <= 8,
        lo < 128,
        hi < 128,
    ensures
        decode_xtouch(n, 0xB0, (0x10 + i) as u8, 1) == Ok::<Seq<XTouchInput>, InputError>(
            seq![XTouchInput::Upstream(UpstreamMsg::EncoderTurnInc(EncoderTurnCW { idx: i as i32 }))],
        ),
        decode_xtouch(n, 0xB0, (0x10 + i) as u8, 65) == Ok::<Seq<XTouchInput>, InputError>(
            seq![XTouchInput::Upstream(UpstreamMsg::EncoderTurnDec(EncoderTurnCCW { idx: i as i32 }))],
        ),
        decode_xtouch(n, 0x90, (0x20 + i) as u8, v) == Ok::<Seq<XTouchInput>, InputError>(
            seq![XTouchInput::Upstream(UpstreamMsg::EncoderPress(EncoderPressMsg { idx: i as i32 }))],
        ),
        decode_xtouch(n, 0x80, (0x20 + i) as u8, v) == Ok::<Seq<XTouchInput>, InputError>(
            seq![XTouchInput::Upstream(UpstreamMsg::EncoderRelease(EncoderReleaseMsg { idx: i as i32 }))],
        ),
        decode_xtouch(n, (0xE0 + i) as u8, lo, hi) == Ok::<Seq<XTouchInput>, InputError>(
            seq![XTouchInput::Fader { idx: i as i32, value: (lo + 128 * hi) as u16 }],
        ),
{
    let k = (0x20 + i) as u8;
    assert(button_hits(k, n) =~= seq![]);
    let e: Seq<XTouchInput> = seq![XTouchInput::Upstream(UpstreamMsg::EncoderPress(EncoderPressMsg { idx: i as i32 }))];
    assert(e + pick(button_hits(k, n), v) =~= e);
}

/// An LED is put out by velocity 0, lit by 127 and set flashing by 1; an encoder ring's
/// value carries the position in its low four bits and the display mode above them:
/// 0 for a point, 16 for a bar from the centre, 32 for a bar from the left and 48 for a
/// width around the point.
pub proof fn law_led_and_ring_values(val: u8)
    ensures
        led_velocity(LEDState::Off) == 0,
        led_velocity(LEDState::On) == 127,
        led_velocity(LEDState::Flash) == 1,
        ring_value(EncoderRingMode::Point, val) == val % 16,
        ring_value(EncoderRingMode::FromCenter, val) == 16 + val % 16,
        ring_value(EncoderRingMode::FromLeft, val) == 32 + val % 16,
        ring_value(EncoderRingMode::Width, val) == 48 + val % 16,
{
}

} // verus!
