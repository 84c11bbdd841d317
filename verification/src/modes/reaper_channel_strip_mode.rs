//! The channel strip mode shows the widgets of one track's channel strip on the
//! scribble strips, a bank of channels at a time. This part decides what the scribble
//! strips are sent, and when.
use vstd::prelude::*;

use crate::midi::v1m;
use crate::modes::color::RgbColor;
use crate::modes::guid::TrackGuid;
use crate::modes::mode_manager::{ModeAction, ToV1m, TransitionRequest};
use crate::modes::reaper_channel_strip_router::{ChannelStripMsg, ChannelStripRouter, FxAdapterKind};
use crate::modes::reaper_channel_strip_widgets::DownstreamOutcome;
use crate::modes::reaper_faders_buttons_core::VolumeFadersCore;
use crate::modes::widget::{Dirty, EncoderTurn};

verus! {

/// What a widget shows on its scribble strip.
#[derive(Clone, Debug)]
pub struct StripFace {
    pub line1: String,
    pub line2: String,
    pub color: RgbColor,
}

/// Which widgets the scribble strips show: `num_channels` of them from the one at the
/// bank offset, as far as there are widgets.
pub open spec fn shown_count(widgets: int, channel_offset: int, num_channels: int) -> int {
    if channel_offset >= widgets {
        0
    } else if channel_offset + num_channels <= widgets {
        num_channels
    } else {
        widgets - channel_offset
    }
}

/// Whether `msg` is a batch of first lines for the widgets shown.
pub open spec fn is_line1_batch(msg: v1m::DownstreamMsg, faces: Seq<StripFace>, offset: int, count: int) -> bool {
    msg matches v1m::DownstreamMsg::TopScribbleStripBatch(v) && v@.len() == count && forall|k: int|
        0 <= k < count ==> (#[trigger] v@[k] matches v1m::TopScribbleStripMsg::Line1Text(m) && m.idx
            == k as i32 && m.text@ == faces[offset + k].line1@)
}

/// Whether `msg` is a batch of second lines for the widgets shown.
pub open spec fn is_line2_batch(msg: v1m::DownstreamMsg, faces: Seq<StripFace>, offset: int, count: int) -> bool {
    msg matches v1m::DownstreamMsg::TopScribbleStripBatch(v) && v@.len() == count && forall|k: int|
        0 <= k < count ==> (#[trigger] v@[k] matches v1m::TopScribbleStripMsg::Line2Text(m) && m.idx
            == k as i32 && m.text@ == faces[offset + k].line2@)
}

/// Whether `msg` is a batch of colors for the widgets shown.
pub open spec fn is_color_batch(msg: v1m::DownstreamMsg, faces: Seq<StripFace>, offset: int, count: int) -> bool {
    msg matches v1m::DownstreamMsg::TopScribbleStripBatch(v) && v@.len() == count && forall|k: int|
        0 <= k < count ==> (#[trigger] v@[k] matches v1m::TopScribbleStripMsg::BackgroundColor(m)
            && m.idx == k as i32 && m.color == (v1m::Color {
            r: faces[offset + k].color.red,
            g: faces[offset + k].color.green,
            b: faces[offset + k].color.blue,
        }))
}

/// Which of the three batches a tick sends, in order: first lines, second lines, colors.
pub open spec fn batches_due(d: u8) -> Seq<int> {
    let a: Seq<int> = if d & 1 != 0 { seq![0int] } else { Seq::empty() };
    let b: Seq<int> = if d & 2 != 0 { seq![1int] } else { Seq::empty() };
    let c: Seq<int> = if d & 4 != 0 { seq![2int] } else { Seq::empty() };
    a + b + c
}

/// Whether `msg` is batch `kind` (0: first lines, 1: second lines, 2: colors).
pub open spec fn is_batch(kind: int, msg: v1m::DownstreamMsg, faces: Seq<StripFace>, offset: int, count: int) -> bool {
    if kind == 0 {
        is_line1_batch(msg, faces, offset, count)
    } else if kind == 1 {
        is_line2_batch(msg, faces, offset, count)
    } else {
        is_color_batch(msg, faces, offset, count)
    }
}

/// A message for the surface as the mode sends it: an encoder ring is moved from the
/// widget's index to its channel in the bank shown.
pub open spec fn in_bank(msg: v1m::DownstreamMsg, offset: usize) -> v1m::DownstreamMsg {
    match msg {
        v1m::DownstreamMsg::EncoderRingLED(r) => v1m::DownstreamMsg::EncoderRingLED(
            v1m::EncoderRingMsg { idx: (r.idx - (offset as i32)) as i32, ..r },
        ),
        _ => msg,
    }
}

/// Whether moving every encoder ring of `msgs` to the bank at `offset` stays within
/// `i32`.
pub open spec fn rings_fit(msgs: Seq<v1m::DownstreamMsg>, offset: usize) -> bool {
    forall|k: int|
        0 <= k < msgs.len() ==> (#[trigger] msgs[k] matches v1m::DownstreamMsg::EncoderRingLED(r)
            ==> i32::MIN <= r.idx - (offset as i32) <= i32::MAX)
}

/// Where the router sends each widget message, in order: the adapter, track and chain
/// position of each that has somewhere to go.
pub open spec fn routes_of(router: ChannelStripRouter, msgs: Seq<ChannelStripMsg>) -> Seq<(FxAdapterKind, TrackGuid, i32, ChannelStripMsg)>
    decreases msgs.len(),
{
    if msgs.len() == 0 {
        Seq::empty()
    } else {
        let rest = routes_of(router, msgs.drop_last());
        let m = msgs.last();
        let route = if m.spec_kind() == Some(crate::modes::reaper_channel_strip_router::FxCategory::Eq) {
            match router.slot_states()[0].active {
                Some(i) => Some((i.spec.adapter, router.track(), 0i32)),
                None => None,
            }
        } else {
            None
        };
        match route {
            Some((a, t, x)) => rest.push((a, t, x, m)),
            None => rest,
        }
    }
}

/// What a widget is asked to handle.
#[derive(Clone, Copy, Debug, PartialEq, Eq, Structural)]
pub enum WidgetInput {
    /// The encoder was pressed: a click.
    Click,
    /// The encoder was turned.
    Turn(EncoderTurn),
}

/// What the channel strip mode does with a message from the surface.
#[derive(Clone, Copy, Debug, PartialEq, Eq, Structural)]
pub enum StripStep {
    /// Nothing more than this action: a view button, or a message this mode ignores.
    Action(ModeAction),
    /// Hand shift (pressed or released) to every widget, and apply each outcome with
    /// `apply_downstream_outcome`.
    AllWidgetsShift { pressed: bool },
    /// Hand `input` to the widget at `widget` (the encoder's channel plus the bank
    /// offset), and apply its outcome with `apply_downstream_outcome`.
    Widget { widget: usize, input: WidgetInput },
    /// Ask the DAW to select `guid`, then take `action`, which opens that track's strip.
    Select { guid: TrackGuid, action: ModeAction },
    /// Hand the message to the faders and buttons core.
    Core,
}

/// Whether a message from the surface can be routed: an encoder must name a channel at
/// or after the first, whose widget index fits a `usize`, and a select button one of the
/// channels the core drives.
pub open spec fn strip_msg_acceptable(msg: v1m::UpstreamMsg, offset: usize, channels: int) -> bool {
    match msg {
        v1m::UpstreamMsg::EncoderPress(m) => 0 <= m.idx && m.idx + offset <= usize::MAX,
        v1m::UpstreamMsg::EncoderTurnInc(m) => 0 <= m.idx && m.idx + offset <= usize::MAX,
        v1m::UpstreamMsg::EncoderTurnDec(m) => 0 <= m.idx && m.idx + offset <= usize::MAX,
        v1m::UpstreamMsg::SelectPress(m) => 0 <= m.idx < channels,
        _ => true,
    }
}

/// How the channel strip mode routes a message from the surface, with the bank at
/// `offset`, the strip's track `selected`, and `hw` the tracks on the core's channels.
pub open spec fn strip_step(offset: usize, selected: TrackGuid, hw: Seq<Option<TrackGuid>>, msg: v1m::UpstreamMsg) -> StripStep {
    match msg {
        v1m::UpstreamMsg::ShiftPress => StripStep::AllWidgetsShift { pressed: true },
        v1m::UpstreamMsg::ShiftRelease => StripStep::AllWidgetsShift { pressed: false },
        v1m::UpstreamMsg::EncoderPress(m) => StripStep::Widget {
            widget: (m.idx + offset) as usize,
            input: WidgetInput::Click,
        },
        v1m::UpstreamMsg::EncoderTurnInc(m) => StripStep::Widget {
            widget: (m.idx + offset) as usize,
            input: WidgetInput::Turn(EncoderTurn::Inc { accel: m.accel }),
        },
        v1m::UpstreamMsg::EncoderTurnDec(m) => StripStep::Widget {
            widget: (m.idx + offset) as usize,
            input: WidgetInput::Turn(EncoderTurn::Dec { accel: m.accel }),
        },
        v1m::UpstreamMsg::GlobalPress => StripStep::Action(
            ModeAction::Transition(TransitionRequest::ToReaperVolumePan { selected_track_guid: Some(selected) }),
        ),
        v1m::UpstreamMsg::MIDITracksPress => StripStep::Action(
            ModeAction::Transition(TransitionRequest::ToReaperSends { selected_track_guid: selected }),
        ),
        v1m::UpstreamMsg::InputsPress => StripStep::Action(ModeAction::NoAction),
        v1m::UpstreamMsg::SelectPress(m) => match hw[m.idx as int] {
            Some(g) => if g != selected {
                StripStep::Select {
                    guid: g,
                    action: ModeAction::Transition(TransitionRequest::ToReaperChannelStrip { selected_track_guid: g }),
                }
            } else {
                StripStep::Action(ModeAction::NoAction)
            },
            None => StripStep::Action(ModeAction::NoAction),
        },
        _ => StripStep::Core,
    }
}

/// The part of the channel strip mode that drives the scribble strips: the bank shown,
/// the track whose strip it is, and which parts of the strips must be sent again.
pub struct ChannelStripMode {
    num_channels: usize,
    channel_offset: usize,
    selected_track_guid: TrackGuid,
    dirty: Dirty,
}

impl ChannelStripMode {
    pub closed spec fn num_channels(&self) -> usize {
        self.num_channels
    }

    pub closed spec fn channel_offset(&self) -> usize {
        self.channel_offset
    }

    pub closed spec fn selected(&self) -> TrackGuid {
        self.selected_track_guid
    }

    /// The parts still to be sent, as bits: first line 1, second line 2, color 4.
    pub closed spec fn dirty_bits(&self) -> u8 {
        self.dirty.bits
    }

    /// A mode on a track with everything on the scribble strips still to be sent.
    pub fn new(num_channels: usize, channel_offset: usize, selected_track_guid: TrackGuid) -> (r: Self)
        ensures
            r.num_channels() == num_channels,
            r.channel_offset() == channel_offset,
            r.selected() == selected_track_guid,
            r.dirty_bits() == 0b111,
    {
        let dirty = Dirty::none().union(Dirty::line1()).union(Dirty::line2()).union(Dirty::color());
        assert(0u8 | 1u8 | 2u8 | 4u8 == 7u8) by (bit_vector);
        ChannelStripMode { num_channels, channel_offset, selected_track_guid, dirty }
    }
    /// The index of the first widget shown.
    pub fn offset(&self) -> (r: usize)
        ensures
            r == self.channel_offset(),
    {
        self.channel_offset
    }

    /// Show the previous bank of eight widgets, if there is one, and mark the scribble
    /// strips to be sent again.
    pub fn bank_left8(&mut self)
        ensures
            old(self).channel_offset() > 7 ==> final(self).channel_offset() == old(self).channel_offset() - 8
                && final(self).dirty_bits() == old(self).dirty_bits() | 0b111,
            old(self).channel_offset() <= 7 ==> *final(self) == *old(self),
            final(self).num_channels() == old(self).num_channels(),
            final(self).selected() == old(self).selected(),
    {
        if self.channel_offset > 7 {
            self.channel_offset = self.channel_offset - 8;
            self.dirty = self.dirty.union(Dirty::all());
        }
    }

    /// Show the next bank of eight widgets and mark the scribble strips to be sent again.
    pub fn bank_right8(&mut self)
        requires
            old(self).channel_offset() + 8 <= usize::MAX,
        ensures
            final(self).channel_offset() == old(self).channel_offset() + 8,
            final(self).dirty_bits() == old(self).dirty_bits() | 0b111,
            final(self).num_channels() == old(self).num_channels(),
            final(self).selected() == old(self).selected(),
    {
        self.channel_offset = self.channel_offset + 8;
        self.dirty = self.dirty.union(Dirty::all());
    }

    /// The mode a view button asks for: global for volume and pan, MIDI tracks for the
    /// sends of this mode's track; any other message asks for nothing here.
    pub fn handle_mode_press(&self, msg: v1m::UpstreamMsg) -> (r: ModeAction)
        ensures
            r == match msg {
                v1m::UpstreamMsg::GlobalPress => ModeAction::Transition(
                    TransitionRequest::ToReaperVolumePan { selected_track_guid: Some(self.selected()) },
                ),
                v1m::UpstreamMsg::MIDITracksPress => ModeAction::Transition(
                    TransitionRequest::ToReaperSends { selected_track_guid: self.selected() },
                ),
                _ => ModeAction::NoAction,
            },
    {
        match msg {
            v1m::UpstreamMsg::GlobalPress => ModeAction::Transition(
                TransitionRequest::ToReaperVolumePan { selected_track_guid: Some(self.selected_track_guid) },
            ),
            v1m::UpstreamMsg::MIDITracksPress => ModeAction::Transition(
                TransitionRequest::ToReaperSends { selected_track_guid: self.selected_track_guid },
            ),
            _ => ModeAction::NoAction,
        }
    }

    /// Route a message from the surface (see `strip_step`): shift goes to every widget,
    /// an encoder to the widget of its channel in the bank shown, the view buttons ask
    /// for their mode, a select button on another track asks for that track's strip, and
    /// everything else goes to the faders and buttons core.
    pub fn handle_msg_from_downstream(&self, msg: v1m::UpstreamMsg, core: &VolumeFadersCore) -> (r: StripStep)
        requires
            strip_msg_acceptable(msg, self.channel_offset(), core.assignments().len() as int),
        ensures
            r == strip_step(self.channel_offset(), self.selected(), core.assignments(), msg),
    {
        match msg {
            v1m::UpstreamMsg::ShiftPress => StripStep::AllWidgetsShift { pressed: true },
            v1m::UpstreamMsg::ShiftRelease => StripStep::AllWidgetsShift { pressed: false },
            v1m::UpstreamMsg::EncoderPress(m) => StripStep::Widget {
                widget: m.idx as usize + self.channel_offset,
                input: WidgetInput::Click,
            },
            v1m::UpstreamMsg::EncoderTurnInc(m) => StripStep::Widget {
                widget: m.idx as usize + self.channel_offset,
                input: WidgetInput::Turn(EncoderTurn::Inc { accel: m.accel }),
            },
            v1m::UpstreamMsg::EncoderTurnDec(m) => StripStep::Widget {
                widget: m.idx as usize + self.channel_offset,
                input: WidgetInput::Turn(EncoderTurn::Dec { accel: m.accel }),
            },
            v1m::UpstreamMsg::GlobalPress | v1m::UpstreamMsg::MIDITracksPress => StripStep::Action(
                self.handle_mode_press(msg),
            ),
            v1m::UpstreamMsg::InputsPress => StripStep::Action(ModeAction::NoAction),
            v1m::UpstreamMsg::SelectPress(m) => match core.get_guid_for_hw_channel(m.idx as usize) {
                Some(g) => {
                    if g != self.selected_track_guid {
                        StripStep::Select {
                            guid: g,
                            action: ModeAction::Transition(
                                TransitionRequest::ToReaperChannelStrip { selected_track_guid: g },
                            ),
                        }
                    } else {
                        StripStep::Action(ModeAction::NoAction)
                    }
                },
                None => StripStep::Action(ModeAction::NoAction),
            },
            _ => StripStep::Core,
        }
    }

    /// Carry out what a widget's handling of a surface message asks: mark what it changed
    /// on the scribble strips, send its surface messages (encoder rings moved to the bank
    /// shown), and return where the router sends its messages for the plugins. Handing a
    /// snapshot to the other widgets is left to the caller, which holds them.
    pub fn apply_downstream_outcome<I: ToV1m>(
        &mut self,
        outcome: DownstreamOutcome,
        router: &ChannelStripRouter,
        io: &mut I,
    ) -> (r: Vec<(FxAdapterKind, TrackGuid, i32, ChannelStripMsg)>)
        requires
            rings_fit(outcome.downstream_msgs@, old(self).channel_offset()),
        ensures
            final(self).dirty_bits() == old(self).dirty_bits() | outcome.dirty.spec_bits(),
            final(self).num_channels() == old(self).num_channels(),
            final(self).channel_offset() == old(self).channel_offset(),
            final(self).selected() == old(self).selected(),
            final(io).handed_to_v1m() == old(io).handed_to_v1m() + outcome.downstream_msgs@.map_values(
                |m: v1m::DownstreamMsg| in_bank(m, old(self).channel_offset()),
            ),
            r@ == routes_of(*router, outcome.upstream_msgs@),
    {
        self.dirty = self.dirty.union(outcome.dirty);
        let offset = self.channel_offset;
        let ghost start = io.handed_to_v1m();
        let ghost msgs = outcome.downstream_msgs@;
        let mut downs = outcome.downstream_msgs;
        let ghost mut done: int = 0;
        while downs.len() > 0
            invariant
                0 <= done <= msgs.len(),
                downs@ == msgs.skip(done),
                offset == self.channel_offset,
                rings_fit(msgs, offset),
                io.handed_to_v1m() == start + msgs.take(done).map_values(
                    |m: v1m::DownstreamMsg| in_bank(m, offset),
                ),
            decreases downs.len(),
        {
            let m = downs.remove(0);
            assert(m == msgs[done]);
            let out = match m {
                v1m::DownstreamMsg::EncoderRingLED(ring) => {
                    let mut moved = ring;
                    moved.idx = ring.idx - offset as i32;
                    v1m::DownstreamMsg::EncoderRingLED(moved)
                },
                other => other,
            };
            io.send_to_v1m(out);
            proof {
                assert(msgs.take(done + 1) =~= msgs.take(done).push(msgs[done]));
                assert(msgs.take(done + 1).map_values(|m: v1m::DownstreamMsg| in_bank(m, offset)) =~= msgs.take(
                    done,
                ).map_values(|m: v1m::DownstreamMsg| in_bank(m, offset)).push(in_bank(msgs[done], offset)));
                done = done + 1;
                assert(downs@ =~= msgs.skip(done));
            }
        }
        assert(msgs.take(done) =~= msgs);
        let ups = outcome.upstream_msgs;
        let mut routes: Vec<(FxAdapterKind, TrackGuid, i32, ChannelStripMsg)> = Vec::new();
        let mut i: usize = 0;
        while i < ups.len()
            invariant
                0 <= i <= ups.len(),
                routes@ == routes_of(*router, ups@.take(i as int)),
            decreases ups.len() - i,
        {
            let m = ups[i];
            proof {
                assert(ups@.take(i + 1).drop_last() =~= ups@.take(i as int));
            }
            match router.translate_message_from_downstream(m) {
                Some((adapter, track, fx_index)) => routes.push((adapter, track, fx_index, m)),
                None => {},
            }
            i = i + 1;
        }
        assert(ups@.take(ups@.len() as int) =~= ups@);
        routes
    }

    /// Send the parts of the scribble strips that changed, each as one batch for the
    /// widgets shown (first lines, then second lines, then colors), and mark all sent.
    pub fn on_tick<I: ToV1m>(&mut self, faces: &Vec<StripFace>, io: &mut I) -> (r: ModeAction)
        requires
            old(self).channel_offset() + old(self).num_channels() <= usize::MAX,
        ensures
            r == ModeAction::NoAction,
            final(self).dirty_bits() == 0,
            final(self).num_channels() == old(self).num_channels(),
            final(self).channel_offset() == old(self).channel_offset(),
            final(self).selected() == old(self).selected(),
            ({
                let due = batches_due(old(self).dirty_bits());
                let before = old(io).handed_to_v1m();
                let after = final(io).handed_to_v1m();
                let count = shown_count(
                    faces@.len() as int,
                    old(self).channel_offset() as int,
                    old(self).num_channels() as int,
                );
                &&& after.len() == before.len() + due.len()
                &&& after.subrange(0, before.len() as int) == before
                &&& forall|k: int|
                    0 <= k < due.len() ==> is_batch(
                        due[k],
                        #[trigger] after[before.len() + k],
                        faces@,
                        old(self).channel_offset() as int,
                        count,
                    )
            }),
    {
        let ghost before = io.handed_to_v1m();
        let ghost d = self.dirty.bits;
        let ghost count = shown_count(faces@.len() as int, self.channel_offset as int, self.num_channels as int);
        let ghost offset = self.channel_offset as int;
        let ghost mut due: Seq<int> = Seq::empty();
        if self.dirty.intersects(Dirty::line1()) {
            let b = line1_batch(faces, self.channel_offset, self.num_channels);
            io.send_to_v1m(b);
            proof {
                due = due.push(0);
            }
        }
        let ghost after1 = io.handed_to_v1m();
        assert(after1.len() == before.len() + due.len());
        assert(forall|k: int| 0 <= k < due.len() ==> is_batch(due[k], #[trigger] after1[before.len() + k], faces@, offset, count));
        if self.dirty.intersects(Dirty::line2()) {
            let b = line2_batch(faces, self.channel_offset, self.num_channels);
            io.send_to_v1m(b);
            proof {
                due = due.push(1);
            }
        }
        let ghost after2 = io.handed_to_v1m();
        assert(after2.len() == before.len() + due.len());
        assert forall|k: int| 0 <= k < due.len() implies is_batch(due[k], #[trigger] after2[before.len() + k], faces@, offset, count) by {
            if k < after1.len() - before.len() {
                assert(after2[before.len() + k] == after1[before.len() + k]);
            }
        }
        if self.dirty.intersects(Dirty::color()) {
            let b = color_batch(faces, self.channel_offset, self.num_channels);
            io.send_to_v1m(b);
            proof {
                due = due.push(2);
            }
        }
        let ghost after3 = io.handed_to_v1m();
        assert forall|k: int| 0 <= k < due.len() implies is_batch(due[k], #[trigger] after3[before.len() + k], faces@, offset, count) by {
            if k < after2.len() - before.len() {
                assert(after3[before.len() + k] == after2[before.len() + k]);
            }
        }
        assert(due =~= batches_due(d));
        assert(after3.subrange(0, before.len() as int) =~= before);
        self.dirty = Dirty::none();
        ModeAction::NoAction
    }
}

/// The first lines of the widgets shown.
fn line1_batch(faces: &Vec<StripFace>, offset: usize, num_channels: usize) -> (r: v1m::DownstreamMsg)
    requires
        offset + num_channels <= usize::MAX,
    ensures
        is_line1_batch(r, faces@, offset as int, shown_count(faces@.len() as int, offset as int, num_channels as int)),
{
    let mut msgs: Vec<v1m::TopScribbleStripMsg> = Vec::new();
    let mut i = offset;
    while i < faces.len() && i < offset + num_channels
        invariant
            offset <= i,
            i == offset || i <= faces.len(),
            i <= offset + num_channels,
            offset + num_channels <= usize::MAX,
            msgs@.len() == i - offset,
            forall|k: int|
                0 <= k < msgs@.len() ==> (#[trigger] msgs@[k] matches v1m::TopScribbleStripMsg::Line1Text(m)
                    && m.idx == k as i32 && m.text@ == faces@[offset + k].line1@),
        decreases faces.len() - i,
    {
        let idx = (i - offset) as i32;
        msgs.push(v1m::TopScribbleStripMsg::Line1Text(
            v1m::TopScribbleStripLine1TextMsg { idx, text: faces[i].line1.clone() },
        ));
        i = i + 1;
    }
    v1m::DownstreamMsg::TopScribbleStripBatch(msgs)
}

/// The second lines of the widgets shown.
fn line2_batch(faces: &Vec<StripFace>, offset: usize, num_channels: usize) -> (r: v1m::DownstreamMsg)
    requires
        offset + num_channels <= usize::MAX,
    ensures
        is_line2_batch(r, faces@, offset as int, shown_count(faces@.len() as int, offset as int, num_channels as int)),
{
    let mut msgs: Vec<v1m::TopScribbleStripMsg> = Vec::new();
    let mut i = offset;
    while i < faces.len() && i < offset + num_channels
        invariant
            offset <= i,
            i == offset || i <= faces.len(),
            i <= offset + num_channels,
            offset + num_channels <= usize::MAX,
            msgs@.len() == i - offset,
            forall|k: int|
                0 <= k < msgs@.len() ==> (#[trigger] msgs@[k] matches v1m::TopScribbleStripMsg::Line2Text(m)
                    && m.idx == k as i32 && m.text@ == faces@[offset + k].line2@),
        decreases faces.len() - i,
    {
        let idx = (i - offset) as i32;
        msgs.push(v1m::TopScribbleStripMsg::Line2Text(
            v1m::TopScribbleStripLine2TextMsg { idx, text: faces[i].line2.clone() },
        ));
        i = i + 1;
    }
    v1m::DownstreamMsg::TopScribbleStripBatch(msgs)
}

/// The colors of the widgets shown.
fn color_batch(faces: &Vec<StripFace>, offset: usize, num_channels: usize) -> (r: v1m::DownstreamMsg)
    requires
        offset + num_channels <= usize::MAX,
    ensures
        is_color_batch(r, faces@, offset as int, shown_count(faces@.len() as int, offset as int, num_channels as int)),
{
    let mut msgs: Vec<v1m::TopScribbleStripMsg> = Vec::new();
    let mut i = offset;
    while i < faces.len() && i < offset + num_channels
        invariant
            offset <= i,
            i == offset || i <= faces.len(),
            i <= offset + num_channels,
            offset + num_channels <= usize::MAX,
            msgs@.len() == i - offset,
            forall|k: int|
                0 <= k < msgs@.len() ==> (#[trigger] msgs@[k] matches v1m::TopScribbleStripMsg::BackgroundColor(m)
                    && m.idx == k as i32 && m.color == (v1m::Color {
                    r: faces@[offset + k].color.red,
                    g: faces@[offset + k].color.green,
                    b: faces@[offset + k].color.blue,
                })),
        decreases faces.len() - i,
    {
        let idx = (i - offset) as i32;
        let c = faces[i].color;
        msgs.push(v1m::TopScribbleStripMsg::BackgroundColor(
            v1m::TopScribbleStripColorMsg { idx, color: v1m::Color { r: c.red, g: c.green, b: c.blue } },
        ));
        i = i + 1;
    }
    v1m::DownstreamMsg::TopScribbleStripBatch(msgs)
}

} // verus!
