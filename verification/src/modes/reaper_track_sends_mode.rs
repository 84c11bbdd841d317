//! A mode that puts the sends of the selected DAW track on the channel strips: each
//! send the DAW reports gets the channel of its index, with its level on the fader and
//! its pan on the encoder ring.
use vstd::prelude::*;

use crate::midi::v1m;
use crate::modes::guid::{assigned_once, find_slot, slot_of, TrackGuid};
use crate::modes::mode_manager::{ModeAction, ToV1m, TransitionRequest};
use crate::modes::track_data::DataMsg;
use crate::table::{
    find_guid, has_entry, insert_guid, lemma_assoc_insert_unique, lookup, unique_keys,
};

verus! {

/// Level and pan last reported for a send, as the bits of `f32` values.
#[derive(Clone, Copy, Debug, PartialEq, Eq, Structural)]
pub struct TrackSendInfo {
    pub level: u32,
    pub pan: u32,
}

/// A send nothing has been reported for: level and pan 0.0.
pub open spec fn default_send_info() -> TrackSendInfo {
    TrackSendInfo { level: 0, pan: 0 }
}

impl TrackSendInfo {
    pub fn new() -> (r: Self)
        ensures
            r == default_send_info(),
    {
        TrackSendInfo { level: 0, pan: 0 }
    }
}

/// What handling a message makes the sends mode do, in order.
#[derive(Clone, Debug)]
pub enum SendsEffect {
    /// Send this message to the control surface.
    Surface(v1m::DownstreamMsg),
    /// Put the fader of channel `idx` at a send level (bits of an `f32`).
    FaderToLevel { idx: i32, level: u32 },
    /// Show a pan (bits of an `f32`) on the encoder ring of channel `idx`, from the centre.
    RingToPan { idx: i32, pan: u32 },
    /// Ask the DAW to select this track.
    SelectTrack(TrackGuid),
    /// Ask the DAW to set a send of a track to a fader position (bits of an `f64`).
    SendLevelFromFader { track_guid: TrackGuid, send_index: i32, position: u64 },
}

/// The channel of `g` as a message index; channel 0 when it has none.
pub open spec fn channel_or_first(hw: Seq<Option<TrackGuid>>, g: TrackGuid) -> i32 {
    match slot_of(hw, g) {
        Some(i) => i as i32,
        None => 0,
    }
}

/// What is known of send `g`; the default when nothing is.
pub open spec fn send_info(states: Seq<(TrackGuid, TrackSendInfo)>, g: TrackGuid) -> TrackSendInfo {
    match lookup(states, g) {
        Some(info) => info,
        None => default_send_info(),
    }
}

/// The table with an entry for `g`, added with the default if it had none.
pub open spec fn with_default(states: Seq<(TrackGuid, TrackSendInfo)>, g: TrackGuid) -> Seq<
    (TrackGuid, TrackSendInfo),
> {
    if has_entry(states, g) {
        states
    } else {
        states.push((g, default_send_info()))
    }
}

/// The sends mode: which send is on each of the `N` channels, what was last reported of
/// each send, and the track whose sends are shown.
pub struct ReaperTrackSendsMode<const N: usize> {
    hw_assignments: Vec<Option<TrackGuid>>,
    track_send_states: Vec<(TrackGuid, TrackSendInfo)>,
    selected_track_guid: TrackGuid,
}

/// Whether `f` is `o` after a report from the DAW, with `effects` what the mode did.
pub open spec fn after_upstream<const N: usize>(
    o: ReaperTrackSendsMode<N>,
    msg: DataMsg,
    f: ReaperTrackSendsMode<N>,
    effects: Seq<SendsEffect>,
) -> bool {
    let hw = o.assignments();
    let unchanged = f.assignments() == hw && f.send_states() == o.send_states() && f.selected()
        == o.selected();
    match msg {
        DataMsg::Name { track_guid, name } => {
            let idx = channel_or_first(hw, track_guid);
            &&& unchanged
            &&& effects.len() == 2
            &&& effects[0] matches SendsEffect::Surface(
                v1m::DownstreamMsg::TopScribbleStripLine1Text(m),
            ) && m.idx == idx && m.text@ == name@
            &&& effects[1] matches SendsEffect::Surface(
                v1m::DownstreamMsg::BottomScribbleStripLine2Text(m),
            ) && m.idx == idx && m.text@ == name@
        },
        DataMsg::Selected { track_guid, selected } => if selected && track_guid != o.selected() {
            &&& f.assignments() == hw
            &&& f.send_states() == o.send_states()
            &&& f.selected() == track_guid
            &&& effects == seq![
                SendsEffect::Surface(
                    v1m::DownstreamMsg::SelectLED(
                        v1m::SelectLEDMsg {
                            idx: channel_or_first(hw, track_guid),
                            state: v1m::LEDState::On,
                        },
                    ),
                ),
            ]
        } else {
            unchanged && effects.len() == 0
        },
        DataMsg::SendIndex { track_guid, send_guid, send_index } => {
            let info = send_info(o.send_states(), send_guid);
            let tail = seq![
                SendsEffect::FaderToLevel { idx: send_index, level: info.level },
                SendsEffect::RingToPan { idx: send_index, pan: info.pan },
            ];
            if track_guid != o.selected() || !(0 <= send_index < hw.len()) {
                unchanged && effects.len() == 0
            } else {
                match slot_of(hw, send_guid) {
                    Some(i) => if i as i32 == send_index {
                        unchanged && effects.len() == 0
                    } else {
                        &&& f.assignments() == hw.update(i, None).update(
                            send_index as int,
                            Some(send_guid),
                        )
                        &&& f.send_states() == with_default(o.send_states(), send_guid)
                        &&& f.selected() == o.selected()
                        &&& effects == seq![
                            SendsEffect::Surface(
                                v1m::DownstreamMsg::ChannelFader(
                                    v1m::ChannelFaderMsg { idx: i as i32, value: 0 },
                                ),
                            ),
                            SendsEffect::Surface(
                                v1m::DownstreamMsg::EncoderRingLED(
                                    v1m::EncoderRingMsg {
                                        idx: i as i32,
                                        mode: v1m::EncoderRingMode::Point,
                                        val: v1m::ENCODER_CENTER_MODE_CENTER,
                                    },
                                ),
                            ),
                        ] + tail
                    },
                    None => {
                        &&& f.assignments() == hw.update(send_index as int, Some(send_guid))
                        &&& f.send_states() == with_default(o.send_states(), send_guid)
                        &&& f.selected() == o.selected()
                        &&& effects == tail
                    },
                }
            }
        },
        DataMsg::SendLevel { track_guid, send_index, level } => {
            if track_guid == o.selected() && 0 <= send_index < hw.len() && hw[send_index as int] is Some {
                let g = hw[send_index as int]->0;
                &&& f.assignments() == hw
                &&& f.send_states() == crate::table::assoc_insert(
                    o.send_states(),
                    g,
                    TrackSendInfo { level, pan: send_info(o.send_states(), g).pan },
                )
                &&& f.selected() == o.selected()
                &&& effects == seq![SendsEffect::FaderToLevel { idx: send_index, level }]
            } else {
                unchanged && effects.len() == 0
            }
        },
        DataMsg::SendPan { track_guid, send_index, pan } => {
            if track_guid == o.selected() && 0 <= send_index < hw.len() && hw[send_index as int] is Some {
                let g = hw[send_index as int]->0;
                &&& f.assignments() == hw
                &&& f.send_states() == crate::table::assoc_insert(
                    o.send_states(),
                    g,
                    TrackSendInfo { level: send_info(o.send_states(), g).level, pan },
                )
                &&& f.selected() == o.selected()
                &&& effects == seq![SendsEffect::RingToPan { idx: send_index, pan }]
            } else {
                unchanged && effects.len() == 0
            }
        },
        _ => unchanged && effects.len() == 0,
    }
}

/// The effect of a message from the control surface: the action asked of the mode
/// manager and what the mode did.
pub open spec fn from_surface(
    hw: Seq<Option<TrackGuid>>,
    selected: TrackGuid,
    msg: v1m::UpstreamMsg,
) -> (ModeAction, Seq<SendsEffect>) {
    match msg {
        v1m::UpstreamMsg::GlobalPress => (
            ModeAction::Transition(
                TransitionRequest::ToReaperVolumePan { selected_track_guid: Some(selected) },
            ),
            Seq::empty(),
        ),
        v1m::UpstreamMsg::InputsPress => (
            ModeAction::Transition(
                TransitionRequest::ToReaperChannelStrip { selected_track_guid: selected },
            ),
            Seq::empty(),
        ),
        v1m::UpstreamMsg::SelectPress(m) => match hw[m.idx as int] {
            Some(g) => if g != selected {
                (
                    ModeAction::Transition(
                        TransitionRequest::ToReaperSends { selected_track_guid: g },
                    ),
                    seq![SendsEffect::SelectTrack(g)],
                )
            } else {
                (ModeAction::NoAction, Seq::empty())
            },
            None => (ModeAction::NoAction, Seq::empty()),
        },
        v1m::UpstreamMsg::ChannelFader(m) => if hw[m.idx as int] is Some {
            (
                ModeAction::NoAction,
                seq![
                    SendsEffect::SendLevelFromFader {
                        track_guid: selected,
                        send_index: m.idx,
                        position: m.value,
                    },
                ],
            )
        } else {
            (ModeAction::NoAction, Seq::empty())
        },
        _ => (ModeAction::NoAction, Seq::empty()),
    }
}

/// Whether a message from the control surface can be handled: a select press or a fader
/// move must come from one of the `n` channels.
pub open spec fn surface_acceptable(msg: v1m::UpstreamMsg, n: int) -> bool {
    match msg {
        v1m::UpstreamMsg::SelectPress(m) => 0 <= m.idx < n,
        v1m::UpstreamMsg::ChannelFader(m) => 0 <= m.idx < n,
        _ => true,
    }
}

/// Whether `msg` is what the sends mode sends for `channel` at `step` of the steps that
/// blank a channel when the mode starts: those of a reset, but for the select LED.
pub open spec fn is_blank_msg(msg: v1m::DownstreamMsg, channel: int, step: int) -> bool {
    crate::modes::reset::is_reset_msg(msg, channel, if step == 0 { 0 } else { step + 1 })
}

/// How many messages blank a channel when the sends mode starts.
pub const BLANK_STEPS: usize = 10;

impl<const N: usize> ReaperTrackSendsMode<N> {
    /// The send on each channel.
    pub closed spec fn assignments(&self) -> Seq<Option<TrackGuid>> {
        self.hw_assignments@
    }

    /// What was last reported of each send, as a table of unique keys.
    pub closed spec fn send_states(&self) -> Seq<(TrackGuid, TrackSendInfo)> {
        self.track_send_states@
    }

    /// The track whose sends are shown.
    pub closed spec fn selected(&self) -> TrackGuid {
        self.selected_track_guid
    }

    pub open spec fn wf(&self) -> bool {
        &&& self.assignments().len() == N
        &&& assigned_once(self.assignments())
        &&& unique_keys(self.send_states())
    }

    /// No send on any channel, nothing known of any send.
    pub fn new(selected_track_guid: TrackGuid) -> (r: Self)
        ensures
            r.wf(),
            r.assignments() == Seq::new(N as nat, |i: int| None::<TrackGuid>),
            r.send_states() == Seq::<(TrackGuid, TrackSendInfo)>::empty(),
            r.selected() == selected_track_guid,
    {
        let mut hw_assignments: Vec<Option<TrackGuid>> = Vec::new();
        let mut i: usize = 0;
        while i < N
            invariant
                0 <= i <= N,
                hw_assignments@ == Seq::new(i as nat, |j: int| None::<TrackGuid>),
            decreases N - i,
        {
            hw_assignments.push(None);
            i = i + 1;
            assert(hw_assignments@ =~= Seq::new(i as nat, |j: int| None::<TrackGuid>));
        }
        ReaperTrackSendsMode { hw_assignments, track_send_states: Vec::new(), selected_track_guid }
    }

    /// Blank every channel: fader down, buttons dark, ring at its centre point,
    /// scribble strips blank and black.
    pub fn init<I: ToV1m>(self, io: &mut I) -> (r: Self)
        ensures
            r == self,
            final(io).handed_to_v1m().len() == old(io).handed_to_v1m().len() + BLANK_STEPS * N,
            final(io).handed_to_v1m().subrange(0, old(io).handed_to_v1m().len() as int) == old(
                io,
            ).handed_to_v1m(),
            forall|j: int|
                0 <= j < BLANK_STEPS * N ==> is_blank_msg(
                    #[trigger] final(io).handed_to_v1m()[old(io).handed_to_v1m().len() + j],
                    j / BLANK_STEPS as int,
                    j % BLANK_STEPS as int,
                ),
    {
        let ghost start = io.handed_to_v1m();
        let mut i: usize = 0;
        while i < N
            invariant
                0 <= i <= N,
                io.handed_to_v1m().len() == start.len() + BLANK_STEPS * i,
                io.handed_to_v1m().subrange(0, start.len() as int) == start,
                forall|j: int|
                    0 <= j < BLANK_STEPS * i ==> is_blank_msg(
                        #[trigger] io.handed_to_v1m()[start.len() + j],
                        j / BLANK_STEPS as int,
                        j % BLANK_STEPS as int,
                    ),
            decreases N - i,
        {
            let ghost before = io.handed_to_v1m();
            let idx = i as i32;
            io.send_to_v1m(v1m::DownstreamMsg::ChannelFader(v1m::ChannelFaderMsg { idx, value: 0 }));
            io.send_to_v1m(
                v1m::DownstreamMsg::MuteLED(v1m::MuteLEDMsg { idx, state: v1m::LEDState::Off }),
            );
            io.send_to_v1m(
                v1m::DownstreamMsg::SoloLED(v1m::SoloLEDMsg { idx, state: v1m::LEDState::Off }),
            );
            io.send_to_v1m(
                v1m::DownstreamMsg::ArmLED(v1m::ArmLEDMsg { idx, state: v1m::LEDState::Off }),
            );
            io.send_to_v1m(
                v1m::DownstreamMsg::EncoderRingLED(
                    v1m::EncoderRingMsg {
                        idx,
                        mode: v1m::EncoderRingMode::Point,
                        val: v1m::ENCODER_CENTER_MODE_CENTER,
                    },
                ),
            );
            io.send_to_v1m(
                v1m::DownstreamMsg::TopScribbleStripLine1Text(
                    v1m::TopScribbleStripLine1TextMsg { idx, text: String::new() },
                ),
            );
            io.send_to_v1m(
                v1m::DownstreamMsg::TopScribbleStripLine2Text(
                    v1m::TopScribbleStripLine2TextMsg { idx, text: String::new() },
                ),
            );
            io.send_to_v1m(
                v1m::DownstreamMsg::TopScribbleStripBackgroundColor(
                    v1m::TopScribbleStripColorMsg { idx, color: v1m::Color { r: 0, g: 0, b: 0 } },
                ),
            );
            io.send_to_v1m(
                v1m::DownstreamMsg::BottomScribbleStripLine1Text(
                    v1m::BottomScribbleStripLine1TextMsg { idx, text: String::new() },
                ),
            );
            io.send_to_v1m(
                v1m::DownstreamMsg::BottomScribbleStripLine2Text(
                    v1m::BottomScribbleStripLine2TextMsg { idx, text: String::new() },
                ),
            );
            proof {
                let after = io.handed_to_v1m();
                let n0 = before.len() as int;
                let s = start.len() as int;
                assert(after.len() == n0 + 10);
                assert forall|q: int| 0 <= q < n0 implies after[q] == before[q] by {}
                assert(after.subrange(0, s) =~= start) by {
                    assert forall|q: int| 0 <= q < s implies after[q] == start[q] by {
                        assert(before.subrange(0, s)[q] == before[q]);
                    }
                }
                assert forall|j: int| 0 <= j < BLANK_STEPS * (i + 1) implies is_blank_msg(
                    #[trigger] after[s + j],
                    j / BLANK_STEPS as int,
                    j % BLANK_STEPS as int,
                ) by {
                    if j < BLANK_STEPS * i {
                        assert(after[s + j] == before[s + j]);
                    } else {
                        let k = j - BLANK_STEPS * i;
                        assert(0 <= k < 10);
                        assert(j / 10 == i as int);
                        assert(j % 10 == k);
                    }
                }
            }
            i = i + 1;
        }
        self
    }

    /// The send on channel `hw_channel`, if any.
    fn get_guid_for_hw_channel(&self, hw_channel: usize) -> (r: Option<TrackGuid>)
        requires
            hw_channel < self.assignments().len(),
        ensures
            r == self.assignments()[hw_channel as int],
    {
        self.hw_assignments[hw_channel]
    }

    /// The channel send `guid` sits on, if any.
    pub fn find_hw_channel(&self, guid: TrackGuid) -> (r: Option<usize>)
        requires
            self.wf(),
        ensures
            r is Some <==> slot_of(self.assignments(), guid) is Some,
            r matches Some(i) ==> slot_of(self.assignments(), guid) == Some(i as int),
    {
        find_slot(&self.hw_assignments, guid)
    }

    /// What is known of send `g`, with an entry made for it if it had none.
    fn entry_or_default(&mut self, g: TrackGuid) -> (r: TrackSendInfo)
        requires
            unique_keys(old(self).send_states()),
        ensures
            r == send_info(old(self).send_states(), g),
            final(self).send_states() == with_default(old(self).send_states(), g),
            unique_keys(final(self).send_states()),
            final(self).assignments() == old(self).assignments(),
            final(self).selected() == old(self).selected(),
    {
        proof {
            lemma_assoc_insert_unique(self.send_states(), g, default_send_info());
        }
        match find_guid(&self.track_send_states, g) {
            Some(j) => self.track_send_states[j].1,
            None => {
                let info = TrackSendInfo::new();
                self.track_send_states.push((g, info));
                info
            },
        }
    }

    /// What is known of send `g`; the default when nothing is.
    fn current_info(&self, g: TrackGuid) -> (r: TrackSendInfo)
        requires
            unique_keys(self.send_states()),
        ensures
            r == send_info(self.send_states(), g),
    {
        match find_guid(&self.track_send_states, g) {
            Some(j) => self.track_send_states[j].1,
            None => TrackSendInfo::new(),
        }
    }

    /// The channel of `g` as a message index; channel 0 when it has none.
    fn channel_index(&self, g: TrackGuid) -> (r: i32)
        requires
            self.wf(),
        ensures
            r == channel_or_first(self.assignments(), g),
    {
        match self.find_hw_channel(g) {
            Some(i) => i as i32,
            None => 0,
        }
    }

    /// Handle a report from the DAW about a track. Only the sends of the selected track
    /// are followed; a send index puts that send on the channel of its index, taking it
    /// off the channel it was on, and is ignored when it names no channel.
    pub fn handle_msg_from_upstream(&mut self, msg: DataMsg) -> (r: (ModeAction, Vec<SendsEffect>))
        requires
            old(self).wf(),
        ensures
            final(self).wf(),
            r.0 == ModeAction::NoAction,
            after_upstream(*old(self), msg, *final(self), r.1@),
    {
        let ghost o = *self;
        let mut effects: Vec<SendsEffect> = Vec::new();
        match msg {
            DataMsg::Name { track_guid, name } => {
                let idx = self.channel_index(track_guid);
                let text = name.clone();
                effects.push(
                    SendsEffect::Surface(
                        v1m::DownstreamMsg::TopScribbleStripLine1Text(
                            v1m::TopScribbleStripLine1TextMsg { idx, text },
                        ),
                    ),
                );
                effects.push(
                    SendsEffect::Surface(
                        v1m::DownstreamMsg::BottomScribbleStripLine2Text(
                            v1m::BottomScribbleStripLine2TextMsg { idx, text: name },
                        ),
                    ),
                );
            },
            DataMsg::Selected { track_guid, selected } => {
                if track_guid == self.selected_track_guid && selected {
                } else if selected {
                    self.selected_track_guid = track_guid;
                    let idx = self.channel_index(track_guid);
                    effects.push(
                        SendsEffect::Surface(
                            v1m::DownstreamMsg::SelectLED(
                                v1m::SelectLEDMsg { idx, state: v1m::LEDState::On },
                            ),
                        ),
                    );
                    assert(effects@ =~= seq![
                        SendsEffect::Surface(
                            v1m::DownstreamMsg::SelectLED(
                                v1m::SelectLEDMsg {
                                    idx: channel_or_first(o.assignments(), track_guid),
                                    state: v1m::LEDState::On,
                                },
                            ),
                        ),
                    ]);
                }
            },
            DataMsg::SendIndex { track_guid, send_guid, send_index } => {
                // A send index past the channels is ignored.
                if track_guid == self.selected_track_guid && 0 <= send_index
                    && (send_index as usize) < self.hw_assignments.len() {
                    let found = self.find_hw_channel(send_guid);
                    let unchanged = match found {
                        Some(index) => index as i32 == send_index,
                        None => false,
                    };
                    if !unchanged {
                        let ghost hw = self.assignments();
                        proof {
                            match slot_of(hw, send_guid) {
                                Some(i) => {
                                    assert forall|c: int| 0 <= c < hw.len() && c != i implies hw[c]
                                        != Some(send_guid) by {
                                        if c < i {
                                            assert(hw[c] != hw[i]);
                                        } else {
                                            assert(hw[i] != hw[c]);
                                        }
                                    }
                                },
                                None => {},
                            }
                        }
                        match found {
                            Some(index) => {
                                self.hw_assignments.set(index, None);
                                effects.push(
                                    SendsEffect::Surface(
                                        v1m::DownstreamMsg::ChannelFader(
                                            v1m::ChannelFaderMsg { idx: index as i32, value: 0 },
                                        ),
                                    ),
                                );
                                effects.push(
                                    SendsEffect::Surface(
                                        v1m::DownstreamMsg::EncoderRingLED(
                                            v1m::EncoderRingMsg {
                                                idx: index as i32,
                                                mode: v1m::EncoderRingMode::Point,
                                                val: v1m::ENCODER_CENTER_MODE_CENTER,
                                            },
                                        ),
                                    ),
                                );
                            },
                            None => {},
                        }
                        let ghost cleared = self.assignments();
                        assert(forall|c: int| 0 <= c < cleared.len() ==> cleared[c] != Some(send_guid));
                        assert(assigned_once(cleared));
                        self.hw_assignments.set(send_index as usize, Some(send_guid));
                        proof {
                            let hw2 = self.assignments();
                            let k = send_index as int;
                            assert forall|a: int, b: int|
                                0 <= a < b < hw2.len() && (#[trigger] hw2[a]) is Some implies hw2[a]
                                    != #[trigger] hw2[b] by {
                                if a != k && b != k {
                                    assert(cleared[a] != cleared[b]);
                                }
                            }
                        }
                        let info = self.entry_or_default(send_guid);
                        effects.push(SendsEffect::FaderToLevel { idx: send_index, level: info.level });
                        effects.push(SendsEffect::RingToPan { idx: send_index, pan: info.pan });
                        proof {
                            let tail = seq![
                                SendsEffect::FaderToLevel { idx: send_index, level: info.level },
                                SendsEffect::RingToPan { idx: send_index, pan: info.pan },
                            ];
                            match found {
                                Some(index) => {
                                    assert(effects@ =~= seq![
                                        SendsEffect::Surface(
                                            v1m::DownstreamMsg::ChannelFader(
                                                v1m::ChannelFaderMsg { idx: index as i32, value: 0 },
                                            ),
                                        ),
                                        SendsEffect::Surface(
                                            v1m::DownstreamMsg::EncoderRingLED(
                                                v1m::EncoderRingMsg {
                                                    idx: index as i32,
                                                    mode: v1m::EncoderRingMode::Point,
                                                    val: v1m::ENCODER_CENTER_MODE_CENTER,
                                                },
                                            ),
                                        ),
                                    ] + tail);
                                    assert(self.assignments() =~= hw.update(index as int, None).update(
                                        send_index as int,
                                        Some(send_guid),
                                    ));
                                },
                                None => {
                                    assert(effects@ =~= tail);
                                    assert(self.assignments() =~= hw.update(send_index as int, Some(send_guid)));
                                },
                            }
                        }
                    }
                }
            },
            DataMsg::SendLevel { track_guid, send_index, level } => {
                if track_guid == self.selected_track_guid && send_index >= 0 && (send_index as usize)
                    < self.hw_assignments.len() {
                    match self.hw_assignments[send_index as usize] {
                        Some(g) => {
                            let info = self.current_info(g);
                            insert_guid(&mut self.track_send_states, g, TrackSendInfo { level, pan: info.pan });
                            effects.push(SendsEffect::FaderToLevel { idx: send_index, level });
                            assert(effects@ =~= seq![SendsEffect::FaderToLevel { idx: send_index, level }]);
                        },
                        None => {},
                    }
                }
            },
            DataMsg::SendPan { track_guid, send_index, pan } => {
                if track_guid == self.selected_track_guid && send_index >= 0 && (send_index as usize)
                    < self.hw_assignments.len() {
                    match self.hw_assignments[send_index as usize] {
                        Some(g) => {
                            let info = self.current_info(g);
                            insert_guid(&mut self.track_send_states, g, TrackSendInfo { level: info.level, pan });
                            effects.push(SendsEffect::RingToPan { idx: send_index, pan });
                            assert(effects@ =~= seq![SendsEffect::RingToPan { idx: send_index, pan }]);
                        },
                        None => {},
                    }
                }
            },
            _ => {},
        }
        assert(after_upstream(o, msg, *self, effects@));
        (ModeAction::NoAction, effects)
    }

    /// Handle a message from the control surface: the view buttons ask for other modes,
    /// a select press on a channel with a send selects that track in the DAW and moves
    /// to its sends, a fader move sets the level of the send on its channel.
    pub fn handle_msg_from_downstream(&mut self, msg: v1m::UpstreamMsg) -> (r: (ModeAction, Vec<SendsEffect>))
        requires
            old(self).wf(),
            surface_acceptable(msg, N as int),
        ensures
            *final(self) == *old(self),
            (r.0, r.1@) == from_surface(old(self).assignments(), old(self).selected(), msg),
    {
        let mut effects: Vec<SendsEffect> = Vec::new();
        let action = match msg {
            v1m::UpstreamMsg::GlobalPress => ModeAction::Transition(
                TransitionRequest::ToReaperVolumePan { selected_track_guid: Some(self.selected_track_guid) },
            ),
            v1m::UpstreamMsg::MIDITracksPress => ModeAction::NoAction,
            v1m::UpstreamMsg::InputsPress => ModeAction::Transition(
                TransitionRequest::ToReaperChannelStrip { selected_track_guid: self.selected_track_guid },
            ),
            v1m::UpstreamMsg::SelectPress(m) => match self.get_guid_for_hw_channel(m.idx as usize) {
                Some(guid) => {
                    if guid != self.selected_track_guid {
                        effects.push(SendsEffect::SelectTrack(guid));
                        ModeAction::Transition(
                            TransitionRequest::ToReaperSends { selected_track_guid: guid },
                        )
                    } else {
                        ModeAction::NoAction
                    }
                },
                None => ModeAction::NoAction,
            },
            v1m::UpstreamMsg::ChannelFader(m) => {
                if self.get_guid_for_hw_channel(m.idx as usize).is_some() {
                    effects.push(
                        SendsEffect::SendLevelFromFader {
                            track_guid: self.selected_track_guid,
                            send_index: m.idx,
                            position: m.value,
                        },
                    );
                }
                ModeAction::NoAction
            },
            _ => ModeAction::NoAction,
        };
        proof {
            assert(effects@ =~= from_surface(self.assignments(), self.selected(), msg).1);
        }
        (action, effects)
    }
}

/// A send index reported for the selected track puts that send on the channel of its
/// index, and on no other channel.
pub proof fn law_send_index_places_send<const N: usize>(
    o: ReaperTrackSendsMode<N>,
    f: ReaperTrackSendsMode<N>,
    send_guid: TrackGuid,
    send_index: i32,
    effects: Seq<SendsEffect>,
)
    requires
        N <= i32::MAX,
        o.wf(),
        f.wf(),
        0 <= send_index < N,
        after_upstream(
            o,
            DataMsg::SendIndex { track_guid: o.selected(), send_guid, send_index },
            f,
            effects,
        ),
    ensures
        slot_of(f.assignments(), send_guid) == Some(send_index as int),
{
    let hw = f.assignments();
    let k = send_index as int;
    assert(hw[k] == Some(send_guid));
    let c = choose|c: int| 0 <= c < hw.len() && hw[c] == Some(send_guid);
    if c < k {
        assert(hw[c] != hw[k]);
    } else if c > k {
        assert(hw[k] != hw[c]);
    }
}

/// A level or pan reported for the send on a channel of the selected track is what the
/// mode then knows of that send; the other of the two stays as it was.
pub proof fn law_reported_send_values_are_kept<const N: usize>(
    o: ReaperTrackSendsMode<N>,
    f: ReaperTrackSendsMode<N>,
    msg: DataMsg,
    effects: Seq<SendsEffect>,
)
    requires
        o.wf(),
        after_upstream(o, msg, f, effects),
    ensures
        msg matches DataMsg::SendLevel { track_guid, send_index, level } ==> (track_guid
            == o.selected() && 0 <= send_index < N && o.assignments()[send_index as int] is Some
            ==> send_info(f.send_states(), o.assignments()[send_index as int]->0) == (
        TrackSendInfo {
            level,
            pan: send_info(o.send_states(), o.assignments()[send_index as int]->0).pan,
        })),
        msg matches DataMsg::SendPan { track_guid, send_index, pan } ==> (track_guid
            == o.selected() && 0 <= send_index < N && o.assignments()[send_index as int] is Some
            ==> send_info(f.send_states(), o.assignments()[send_index as int]->0) == (
        TrackSendInfo {
            level: send_info(o.send_states(), o.assignments()[send_index as int]->0).level,
            pan,
        })),
{
    match msg {
        DataMsg::SendLevel { track_guid, send_index, level } => {
            if track_guid == o.selected() && 0 <= send_index < N && o.assignments()[send_index as int] is Some {
                let g = o.assignments()[send_index as int]->0;
                crate::table::lemma_lookup_assoc_insert(
                    o.send_states(),
                    g,
                    TrackSendInfo { level, pan: send_info(o.send_states(), g).pan },
                );
            }
        },
        DataMsg::SendPan { track_guid, send_index, pan } => {
            if track_guid == o.selected() && 0 <= send_index < N && o.assignments()[send_index as int] is Some {
                let g = o.assignments()[send_index as int]->0;
                crate::table::lemma_lookup_assoc_insert(
                    o.send_states(),
                    g,
                    TrackSendInfo { level: send_info(o.send_states(), g).level, pan },
                );
            }
        },
        _ => {},
    }
}

} // verus!
