//! Volume on the faders and mute, solo and arm on the buttons: the part that the modes
//! built on these controls share. Tracks go on the hardware channels by their position
//! in the DAW; the state of each track is kept so that a channel can be redrawn.
use vstd::prelude::*;

use crate::midi::xtouch;
use crate::modes::button::Button;
use crate::modes::guid::{assigned_once, find_slot, slot_of, TrackGuid};
use crate::modes::track_data::DataMsg;
use crate::table::{
    find_guid, has_entry, insert_guid, lemma_assoc_insert_unique, lemma_lookup_assoc_insert,
    lookup, unique_keys, assoc_insert,
};

verus! {

/// The volume a track is shown at before the DAW reports one: the bits of the `f32`
/// fader position 0.72.
pub const FADER_0DB: u32 = 0x3f38_51ec;

#[derive(Clone, Copy)]
struct MuteSoloArmButtonState {
    mute: Button,
    solo: Button,
    arm: Button,
}

/// What is kept of a track: its three buttons and its volume.
#[derive(Clone, Copy)]
pub struct TrackState {
    buttons: MuteSoloArmButtonState,
    volume: u32,
}

/// The plain values of a track's state; the volume is the bits of an `f32`.
#[derive(Clone, Copy, Debug, PartialEq, Eq, Structural)]
pub struct TrackView {
    pub mute: bool,
    pub solo: bool,
    pub arm: bool,
    pub volume: u32,
}

impl View for TrackState {
    type V = TrackView;

    closed spec fn view(&self) -> TrackView {
        TrackView {
            mute: self.buttons.mute@,
            solo: self.buttons.solo@,
            arm: self.buttons.arm@,
            volume: self.volume,
        }
    }
}

/// A track nothing has been reported of: buttons off, volume at 0 dB.
pub open spec fn default_track() -> TrackView {
    TrackView { mute: false, solo: false, arm: false, volume: FADER_0DB }
}

/// What is known of track `g`; the default when nothing is.
pub open spec fn known(tracks: Map<TrackGuid, TrackView>, g: TrackGuid) -> TrackView {
    if tracks.contains_key(g) {
        tracks[g]
    } else {
        default_track()
    }
}

/// The tracks of a table of track states, with their plain values.
pub open spec fn tracks_of(s: Seq<(TrackGuid, TrackState)>) -> Map<TrackGuid, TrackView> {
    Map::new(
        |g: TrackGuid| has_entry(s, g),
        |g: TrackGuid|
            match lookup(s, g) {
                Some(st) => st@,
                None => default_track(),
            },
    )
}

/// The LED state that shows a button being on or off.
pub open spec fn led(on: bool) -> xtouch::LEDState {
    if on {
        xtouch::LEDState::On
    } else {
        xtouch::LEDState::Off
    }
}

/// The hardware channels with track `g` taken off every one it sat on.
pub open spec fn cleared(hw: Seq<Option<TrackGuid>>, g: TrackGuid) -> Seq<Option<TrackGuid>> {
    Seq::new(hw.len(), |i: int| if hw[i] == Some(g) { None } else { hw[i] })
}

/// Where a track was put on the hardware.
#[derive(Clone, Copy, Debug, PartialEq, Eq, Structural)]
pub struct TrackIndexUpdateEpilogue {
    pub track_guid: TrackGuid,
    pub hw_channel: usize,
}

/// What handling a message makes the core do, in order.
#[derive(Debug)]
pub enum CoreEffect {
    /// Send this message to the control surface.
    Surface(xtouch::DownstreamMsg),
    /// Put fader `idx` at a volume (bits of an `f32`).
    FaderToVolume { idx: i32, volume: u32 },
    /// A track was put on a channel and its state sent there: the mode built on the
    /// core adds its own part for that channel.
    TrackPlaced(TrackIndexUpdateEpilogue),
    /// Ask the DAW to set a track's volume to a fader position (bits of an `f64`).
    VolumeFromFader { track_guid: TrackGuid, position: u64 },
    /// Ask the DAW to mute or unmute a track.
    SetMuted { track_guid: TrackGuid, muted: bool },
    /// Ask the DAW to solo or unsolo a track.
    SetSoloed { track_guid: TrackGuid, soloed: bool },
    /// Ask the DAW to arm or disarm a track.
    SetArmed { track_guid: TrackGuid, armed: bool },
}

/// Tracks on the hardware channels, the state of each track, and the volume last sent
/// to each fader.
pub struct VolumeFadersCore {
    track_hw_assignments: Vec<Option<TrackGuid>>,
    track_states: Vec<(TrackGuid, TrackState)>,
    last_sent_volume: Vec<u32>,
}

/// The channels after a track position is reported: `None` when the report changes
/// nothing (a position below 1, or the track already on the channel the position names,
/// one below it).
pub open spec fn placed(hw: Seq<Option<TrackGuid>>, g: TrackGuid, track_index: Option<i32>) -> Option<
    Seq<Option<TrackGuid>>,
> {
    match track_index {
        Some(index) => if index < 1 || hw[index - 1] == Some(g) {
            None
        } else {
            Some(cleared(hw, g).update(index - 1, Some(g)))
        },
        None => Some(hw),
    }
}

/// What a message from the DAW makes the core send for the track on channel `c`.
pub open spec fn redraw(g: TrackGuid, c: int, v: TrackView) -> Seq<CoreEffect> {
    seq![
        CoreEffect::FaderToVolume { idx: c as i32, volume: v.volume },
        CoreEffect::Surface(
            xtouch::DownstreamMsg::MuteLED(xtouch::MuteLEDMsg { idx: c as i32, state: led(v.mute) }),
        ),
        CoreEffect::Surface(
            xtouch::DownstreamMsg::SoloLED(xtouch::SoloLEDMsg { idx: c as i32, state: led(v.solo) }),
        ),
        CoreEffect::Surface(
            xtouch::DownstreamMsg::ArmLED(xtouch::ArmLEDMsg { idx: c as i32, state: led(v.arm) }),
        ),
        CoreEffect::TrackPlaced(TrackIndexUpdateEpilogue { track_guid: g, hw_channel: c as usize }),
    ]
}

/// Whether `f` is `o` after a report from the DAW, with `effects` what the core did.
pub open spec fn after_report(
    o: VolumeFadersCore,
    msg: DataMsg,
    f: VolumeFadersCore,
    effects: Seq<CoreEffect>,
) -> bool {
    let hw = o.assignments();
    let tracks = o.tracks();
    let unchanged = f.assignments() == hw && f.tracks() == tracks && f.last_sent() == o.last_sent();
    match msg {
        DataMsg::ReaperTrackIndex { track_guid, track_index } => match placed(hw, track_guid, track_index) {
            None => unchanged && effects.len() == 0,
            Some(hw1) => {
                &&& f.assignments() == hw1
                &&& match slot_of(hw1, track_guid) {
                    Some(c) => {
                        let v = known(tracks, track_guid);
                        &&& f.tracks() == tracks.insert(track_guid, v)
                        &&& f.last_sent() == o.last_sent().update(c, v.volume)
                        &&& effects == redraw(track_guid, c, v)
                    },
                    None => f.tracks() == tracks && f.last_sent() == o.last_sent() && effects.len()
                        == 0,
                }
            },
        },
        DataMsg::Volume { track_guid, volume } => {
            let v = known(tracks, track_guid);
            &&& f.assignments() == hw
            &&& f.tracks() == tracks.insert(track_guid, TrackView { volume, ..v })
            &&& match slot_of(hw, track_guid) {
                Some(c) => f.last_sent() == o.last_sent().update(c, volume) && effects == seq![
                    CoreEffect::FaderToVolume { idx: c as i32, volume },
                ],
                None => f.last_sent() == o.last_sent() && effects.len() == 0,
            }
        },
        DataMsg::Muted { track_guid, muted } => {
            let v = known(tracks, track_guid);
            &&& f.assignments() == hw
            &&& f.last_sent() == o.last_sent()
            &&& f.tracks() == tracks.insert(track_guid, TrackView { mute: muted, ..v })
            &&& match slot_of(hw, track_guid) {
                Some(c) => effects == seq![
                    CoreEffect::Surface(
                        xtouch::DownstreamMsg::MuteLED(
                            xtouch::MuteLEDMsg { idx: c as i32, state: led(muted) },
                        ),
                    ),
                ],
                None => effects.len() == 0,
            }
        },
        DataMsg::Soloed { track_guid, soloed } => {
            let v = known(tracks, track_guid);
            &&& f.assignments() == hw
            &&& f.last_sent() == o.last_sent()
            &&& f.tracks() == tracks.insert(track_guid, TrackView { solo: soloed, ..v })
            &&& match slot_of(hw, track_guid) {
                Some(c) => effects == seq![
                    CoreEffect::Surface(
                        xtouch::DownstreamMsg::SoloLED(
                            xtouch::SoloLEDMsg { idx: c as i32, state: led(soloed) },
                        ),
                    ),
                ],
                None => effects.len() == 0,
            }
        },
        DataMsg::Armed { track_guid, armed } => {
            let v = known(tracks, track_guid);
            &&& f.assignments() == hw
            &&& f.last_sent() == o.last_sent()
            &&& f.tracks() == tracks.insert(track_guid, TrackView { arm: armed, ..v })
            &&& match slot_of(hw, track_guid) {
                Some(c) => effects == seq![
                    CoreEffect::Surface(
                        xtouch::DownstreamMsg::ArmLED(
                            xtouch::ArmLEDMsg { idx: c as i32, state: led(armed) },
                        ),
                    ),
                ],
                None => effects.len() == 0,
            }
        },
        _ => unchanged && effects.len() == 0,
    }
}

/// Whether a report from the DAW can be handled: a track position of 1 or more must
/// name one of the `n` channels (position `p` is channel `p - 1`).
pub open spec fn report_acceptable(msg: DataMsg, n: int) -> bool {
    match msg {
        DataMsg::ReaperTrackIndex { track_index, .. } => match track_index {
            Some(index) => index >= 1 ==> index <= n,
            None => true,
        },
        _ => true,
    }
}

/// Whether a message from the control surface can be handled: a fader move or a press
/// of mute, solo or arm must come from one of the `n` channels.
pub open spec fn press_acceptable(msg: xtouch::UpstreamMsg, n: int) -> bool {
    match msg {
        xtouch::UpstreamMsg::FaderAbs(m) => 0 <= m.idx < n,
        xtouch::UpstreamMsg::MutePress(m) => 0 <= m.idx < n,
        xtouch::UpstreamMsg::SoloPress(m) => 0 <= m.idx < n,
        xtouch::UpstreamMsg::ArmPress(m) => 0 <= m.idx < n,
        _ => true,
    }
}

/// Whether `f` is `o` after a message from the control surface, with `effects` what the
/// core did: a fader move sets the volume of its track and holds the fader there; a
/// button press toggles the button of its track and lights it.
pub open spec fn after_press(
    o: VolumeFadersCore,
    msg: xtouch::UpstreamMsg,
    f: VolumeFadersCore,
    effects: Seq<CoreEffect>,
) -> bool {
    let hw = o.assignments();
    let tracks = o.tracks();
    &&& f.assignments() == hw
    &&& f.last_sent() == o.last_sent()
    &&& match msg {
        xtouch::UpstreamMsg::FaderAbs(m) => {
            &&& f.tracks() == tracks
            &&& match hw[m.idx as int] {
                Some(g) => effects == seq![
                    CoreEffect::VolumeFromFader { track_guid: g, position: m.value },
                    CoreEffect::Surface(
                        xtouch::DownstreamMsg::FaderAbs(
                            xtouch::FaderAbsMsg { idx: m.idx, value: m.value },
                        ),
                    ),
                ],
                None => effects.len() == 0,
            }
        },
        xtouch::UpstreamMsg::MutePress(m) => match hw[m.idx as int] {
            Some(g) => {
                let v = known(tracks, g);
                &&& f.tracks() == tracks.insert(g, TrackView { mute: !v.mute, ..v })
                &&& effects == seq![
                    CoreEffect::SetMuted { track_guid: g, muted: !v.mute },
                    CoreEffect::Surface(
                        xtouch::DownstreamMsg::MuteLED(
                            xtouch::MuteLEDMsg { idx: m.idx, state: led(!v.mute) },
                        ),
                    ),
                ]
            },
            None => f.tracks() == tracks && effects.len() == 0,
        },
        xtouch::UpstreamMsg::SoloPress(m) => match hw[m.idx as int] {
            Some(g) => {
                let v = known(tracks, g);
                &&& f.tracks() == tracks.insert(g, TrackView { solo: !v.solo, ..v })
                &&& effects == seq![
                    CoreEffect::SetSoloed { track_guid: g, soloed: !v.solo },
                    CoreEffect::Surface(
                        xtouch::DownstreamMsg::SoloLED(
                            xtouch::SoloLEDMsg { idx: m.idx, state: led(!v.solo) },
                        ),
                    ),
                ]
            },
            None => f.tracks() == tracks && effects.len() == 0,
        },
        xtouch::UpstreamMsg::ArmPress(m) => match hw[m.idx as int] {
            Some(g) => {
                let v = known(tracks, g);
                &&& f.tracks() == tracks.insert(g, TrackView { arm: !v.arm, ..v })
                &&& effects == seq![
                    CoreEffect::SetArmed { track_guid: g, armed: !v.arm },
                    CoreEffect::Surface(
                        xtouch::DownstreamMsg::ArmLED(
                            xtouch::ArmLEDMsg { idx: m.idx, state: led(!v.arm) },
                        ),
                    ),
                ]
            },
            None => f.tracks() == tracks && effects.len() == 0,
        },
        _ => f.tracks() == tracks && effects.len() == 0,
    }
}

/// Setting a track in a table of states sets it in the tracks the table holds.
proof fn lemma_tracks_insert(s: Seq<(TrackGuid, TrackState)>, g: TrackGuid, st: TrackState)
    requires
        unique_keys(s),
    ensures
        tracks_of(assoc_insert(s, g, st)) == tracks_of(s).insert(g, st@),
{
    lemma_assoc_insert_unique(s, g, st);
    lemma_lookup_assoc_insert(s, g, st);
    assert(tracks_of(assoc_insert(s, g, st)) =~= tracks_of(s).insert(g, st@));
}

impl VolumeFadersCore {
    /// The track on each hardware channel.
    pub closed spec fn assignments(&self) -> Seq<Option<TrackGuid>> {
        self.track_hw_assignments@
    }

    /// What is known of each track.
    pub closed spec fn tracks(&self) -> Map<TrackGuid, TrackView> {
        tracks_of(self.track_states@)
    }

    /// The volume last sent to each fader.
    pub closed spec fn last_sent(&self) -> Seq<u32> {
        self.last_sent_volume@
    }

    pub closed spec fn wf(&self) -> bool {
        &&& self.track_hw_assignments@.len() == self.last_sent_volume@.len()
        &&& assigned_once(self.track_hw_assignments@)
        &&& unique_keys(self.track_states@)
    }

    /// `num_channels` channels with no track, no track known, every fader last sent 0.0.
    pub fn new(num_channels: usize) -> (r: Self)
        ensures
            r.wf(),
            r.assignments() == Seq::new(num_channels as nat, |i: int| None::<TrackGuid>),
            r.tracks() == Map::<TrackGuid, TrackView>::empty(),
            r.last_sent() == Seq::new(num_channels as nat, |i: int| 0u32),
    {
        let mut track_hw_assignments: Vec<Option<TrackGuid>> = Vec::new();
        let mut last_sent_volume: Vec<u32> = Vec::new();
        let mut i: usize = 0;
        while i < num_channels
            invariant
                0 <= i <= num_channels,
                track_hw_assignments@ == Seq::new(i as nat, |j: int| None::<TrackGuid>),
                last_sent_volume@ == Seq::new(i as nat, |j: int| 0u32),
            decreases num_channels - i,
        {
            track_hw_assignments.push(None);
            last_sent_volume.push(0);
            i = i + 1;
            assert(track_hw_assignments@ =~= Seq::new(i as nat, |j: int| None::<TrackGuid>));
            assert(last_sent_volume@ =~= Seq::new(i as nat, |j: int| 0u32));
        }
        let r = VolumeFadersCore { track_hw_assignments, track_states: Vec::new(), last_sent_volume };
        assert(r.tracks() =~= Map::<TrackGuid, TrackView>::empty());
        r
    }

    /// The track on channel `hw_channel`, if any.
    pub fn get_guid_for_hw_channel(&self, hw_channel: usize) -> (r: Option<TrackGuid>)
        requires
            hw_channel < self.assignments().len(),
        ensures
            r == self.assignments()[hw_channel as int],
    {
        self.track_hw_assignments[hw_channel]
    }

    /// The channel track `guid` sits on, if any.
    pub fn find_hw_channel(&self, guid: TrackGuid) -> (r: Option<usize>)
        requires
            self.wf(),
        ensures
            r is Some <==> slot_of(self.assignments(), guid) is Some,
            r matches Some(i) ==> slot_of(self.assignments(), guid) == Some(i as int) && i
                < self.assignments().len(),
    {
        find_slot(&self.track_hw_assignments, guid)
    }

    /// What is known of track `g`; the default when nothing is.
    fn current_state(&self, g: TrackGuid) -> (r: TrackState)
        requires
            self.wf(),
        ensures
            r@ == known(self.tracks(), g),
    {
        match find_guid(&self.track_states, g) {
            Some(j) => self.track_states[j].1,
            None => TrackState {
                buttons: MuteSoloArmButtonState {
                    mute: Button::new(),
                    solo: Button::new(),
                    arm: Button::new(),
                },
                volume: FADER_0DB,
            },
        }
    }

    /// Keep `st` as the state of track `g`.
    fn store_state(&mut self, g: TrackGuid, st: TrackState)
        requires
            old(self).wf(),
        ensures
            final(self).wf(),
            final(self).tracks() == old(self).tracks().insert(g, st@),
            final(self).assignments() == old(self).assignments(),
            final(self).last_sent() == old(self).last_sent(),
    {
        proof {
            lemma_tracks_insert(self.track_states@, g, st);
        }
        insert_guid(&mut self.track_states, g, st);
    }
    /// Take track `g` off every channel and put it on channel `slot`.
    fn place(&mut self, g: TrackGuid, slot: usize)
        requires
            old(self).wf(),
            slot < old(self).assignments().len(),
        ensures
            final(self).wf(),
            final(self).assignments() == cleared(old(self).assignments(), g).update(
                slot as int,
                Some(g),
            ),
            final(self).tracks() == old(self).tracks(),
            final(self).last_sent() == old(self).last_sent(),
    {
        let ghost hw = self.assignments();
        let mut i: usize = 0;
        while i < self.track_hw_assignments.len()
            invariant
                0 <= i <= self.track_hw_assignments.len(),
                self.track_hw_assignments@.len() == hw.len(),
                self.wf(),
                self.tracks() == old(self).tracks(),
                self.last_sent() == old(self).last_sent(),
                forall|q: int|
                    0 <= q < hw.len() ==> #[trigger] self.track_hw_assignments@[q] == if q < i {
                        cleared(hw, g)[q]
                    } else {
                        hw[q]
                    },
            decreases self.track_hw_assignments.len() - i,
        {
            if self.track_hw_assignments[i] == Some(g) {
                let ghost before = self.track_hw_assignments@;
                self.track_hw_assignments.set(i, None);
                proof {
                    let now = self.track_hw_assignments@;
                    assert forall|a: int, b: int|
                        0 <= a < b < now.len() && (#[trigger] now[a]) is Some implies now[a]
                            != #[trigger] now[b] by {
                        if a != i && b != i {
                            assert(before[a] != before[b]);
                        }
                    }
                }
            }
            i = i + 1;
        }
        let ghost cleared_hw = self.track_hw_assignments@;
        assert(cleared_hw =~= cleared(hw, g));
        self.track_hw_assignments.set(slot, Some(g));
        proof {
            let now = self.track_hw_assignments@;
            let k = slot as int;
            assert forall|a: int, b: int|
                0 <= a < b < now.len() && (#[trigger] now[a]) is Some implies now[a]
                    != #[trigger] now[b] by {
                if a != k && b != k {
                    assert(cleared_hw[a] != cleared_hw[b]);
                }
            }
            assert(now =~= cleared(hw, g).update(k, Some(g)));
        }
    }

    /// Handle a report from the DAW: a track position puts the track on its channel and
    /// redraws that channel; volume, mute, solo and arm are kept and shown on the
    /// track's channel, if it has one.
    pub fn handle_message_from_upstream(&mut self, msg: DataMsg) -> (r: Vec<CoreEffect>)
        requires
            old(self).wf(),
            report_acceptable(msg, old(self).assignments().len() as int),
        ensures
            final(self).wf(),
            after_report(*old(self), msg, *final(self), r@),
    {
        let ghost o = *self;
        let mut effects: Vec<CoreEffect> = Vec::new();
        match msg {
            DataMsg::ReaperTrackIndex { track_guid, track_index } => {
                match track_index {
                    Some(index) => {
                        if index < 1 {
                            return effects;
                        }
                        if self.track_hw_assignments[(index - 1) as usize] == Some(track_guid) {
                            return effects;
                        }
                        self.place(track_guid, (index - 1) as usize);
                    },
                    None => {},
                }
                match self.find_hw_channel(track_guid) {
                    Some(c) => {
                        let st = self.current_state(track_guid);
                        self.store_state(track_guid, st);
                        effects.push(CoreEffect::FaderToVolume { idx: c as i32, volume: st.volume });
                        self.last_sent_volume.set(c, st.volume);
                        effects.push(
                            CoreEffect::Surface(
                                xtouch::DownstreamMsg::MuteLED(
                                    xtouch::MuteLEDMsg {
                                        idx: c as i32,
                                        state: xtouch::LEDState::from(st.buttons.mute.is_on()),
                                    },
                                ),
                            ),
                        );
                        effects.push(
                            CoreEffect::Surface(
                                xtouch::DownstreamMsg::SoloLED(
                                    xtouch::SoloLEDMsg {
                                        idx: c as i32,
                                        state: xtouch::LEDState::from(st.buttons.solo.is_on()),
                                    },
                                ),
                            ),
                        );
                        effects.push(
                            CoreEffect::Surface(
                                xtouch::DownstreamMsg::ArmLED(
                                    xtouch::ArmLEDMsg {
                                        idx: c as i32,
                                        state: xtouch::LEDState::from(st.buttons.arm.is_on()),
                                    },
                                ),
                            ),
                        );
                        effects.push(
                            CoreEffect::TrackPlaced(
                                TrackIndexUpdateEpilogue { track_guid, hw_channel: c },
                            ),
                        );
                        assert(effects@ =~= redraw(track_guid, c as int, st@));
                    },
                    None => {},
                }
            },
            DataMsg::Volume { track_guid, volume } => {
                let mut st = self.current_state(track_guid);
                st.volume = volume;
                self.store_state(track_guid, st);
                match self.find_hw_channel(track_guid) {
                    Some(c) => {
                        effects.push(CoreEffect::FaderToVolume { idx: c as i32, volume });
                        self.last_sent_volume.set(c, volume);
                        assert(effects@ =~= seq![CoreEffect::FaderToVolume { idx: c as i32, volume }]);
                    },
                    None => {},
                }
            },
            DataMsg::Muted { track_guid, muted } => {
                let mut st = self.current_state(track_guid);
                st.buttons.mute.set(muted);
                self.store_state(track_guid, st);
                match self.find_hw_channel(track_guid) {
                    Some(c) => {
                        effects.push(
                            CoreEffect::Surface(
                                xtouch::DownstreamMsg::MuteLED(
                                    xtouch::MuteLEDMsg { idx: c as i32, state: xtouch::LEDState::from(muted) },
                                ),
                            ),
                        );
                        assert(effects@ =~= seq![
                            CoreEffect::Surface(
                                xtouch::DownstreamMsg::MuteLED(
                                    xtouch::MuteLEDMsg { idx: c as i32, state: led(muted) },
                                ),
                            ),
                        ]);
                    },
                    None => {},
                }
            },
            DataMsg::Soloed { track_guid, soloed } => {
                let mut st = self.current_state(track_guid);
                st.buttons.solo.set(soloed);
                self.store_state(track_guid, st);
                match self.find_hw_channel(track_guid) {
                    Some(c) => {
                        effects.push(
                            CoreEffect::Surface(
                                xtouch::DownstreamMsg::SoloLED(
                                    xtouch::SoloLEDMsg { idx: c as i32, state: xtouch::LEDState::from(soloed) },
                                ),
                            ),
                        );
                        assert(effects@ =~= seq![
                            CoreEffect::Surface(
                                xtouch::DownstreamMsg::SoloLED(
                                    xtouch::SoloLEDMsg { idx: c as i32, state: led(soloed) },
                                ),
                            ),
                        ]);
                    },
                    None => {},
                }
            },
            DataMsg::Armed { track_guid, armed } => {
                let mut st = self.current_state(track_guid);
                st.buttons.arm.set(armed);
                self.store_state(track_guid, st);
                match self.find_hw_channel(track_guid) {
                    Some(c) => {
                        effects.push(
                            CoreEffect::Surface(
                                xtouch::DownstreamMsg::ArmLED(
                                    xtouch::ArmLEDMsg { idx: c as i32, state: xtouch::LEDState::from(armed) },
                                ),
                            ),
                        );
                        assert(effects@ =~= seq![
                            CoreEffect::Surface(
                                xtouch::DownstreamMsg::ArmLED(
                                    xtouch::ArmLEDMsg { idx: c as i32, state: led(armed) },
                                ),
                            ),
                        ]);
                    },
                    None => {},
                }
            },
            _ => {},
        }
        effects
    }

    /// Handle a message from the control surface: a fader move on a channel with a
    /// track asks the DAW for that volume and holds the fader there; a press of mute,
    /// solo or arm toggles that button of the channel's track, asks the DAW for the new
    /// state and lights the button to match.
    pub fn handle_message_from_downstream(&mut self, msg: xtouch::UpstreamMsg) -> (r: Vec<CoreEffect>)
        requires
            old(self).wf(),
            press_acceptable(msg, old(self).assignments().len() as int),
        ensures
            final(self).wf(),
            after_press(*old(self), msg, *final(self), r@),
    {
        let mut effects: Vec<CoreEffect> = Vec::new();
        match msg {
            xtouch::UpstreamMsg::FaderAbs(m) => {
                match self.get_guid_for_hw_channel(m.idx as usize) {
                    Some(g) => {
                        effects.push(CoreEffect::VolumeFromFader { track_guid: g, position: m.value });
                        effects.push(
                            CoreEffect::Surface(
                                xtouch::DownstreamMsg::FaderAbs(
                                    xtouch::FaderAbsMsg { idx: m.idx, value: m.value },
                                ),
                            ),
                        );
                        assert(effects@ =~= seq![
                            CoreEffect::VolumeFromFader { track_guid: g, position: m.value },
                            CoreEffect::Surface(
                                xtouch::DownstreamMsg::FaderAbs(
                                    xtouch::FaderAbsMsg { idx: m.idx, value: m.value },
                                ),
                            ),
                        ]);
                    },
                    None => {},
                }
            },
            xtouch::UpstreamMsg::MutePress(m) => {
                match self.get_guid_for_hw_channel(m.idx as usize) {
                    Some(g) => {
                        let mut st = self.current_state(g);
                        let new_state = st.buttons.mute.toggle();
                        self.store_state(g, st);
                        effects.push(CoreEffect::SetMuted { track_guid: g, muted: new_state });
                        effects.push(
                            CoreEffect::Surface(
                                xtouch::DownstreamMsg::MuteLED(
                                    xtouch::MuteLEDMsg { idx: m.idx, state: xtouch::LEDState::from(new_state) },
                                ),
                            ),
                        );
                        assert(effects@ =~= seq![
                            CoreEffect::SetMuted { track_guid: g, muted: new_state },
                            CoreEffect::Surface(
                                xtouch::DownstreamMsg::MuteLED(
                                    xtouch::MuteLEDMsg { idx: m.idx, state: led(new_state) },
                                ),
                            ),
                        ]);
                    },
                    None => {},
                }
            },
            xtouch::UpstreamMsg::SoloPress(m) => {
                match self.get_guid_for_hw_channel(m.idx as usize) {
                    Some(g) => {
                        let mut st = self.current_state(g);
                        let new_state = st.buttons.solo.toggle();
                        self.store_state(g, st);
                        effects.push(CoreEffect::SetSoloed { track_guid: g, soloed: new_state });
                        effects.push(
                            CoreEffect::Surface(
                                xtouch::DownstreamMsg::SoloLED(
                                    xtouch::SoloLEDMsg { idx: m.idx, state: xtouch::LEDState::from(new_state) },
                                ),
                            ),
                        );
                        assert(effects@ =~= seq![
                            CoreEffect::SetSoloed { track_guid: g, soloed: new_state },
                            CoreEffect::Surface(
                                xtouch::DownstreamMsg::SoloLED(
                                    xtouch::SoloLEDMsg { idx: m.idx, state: led(new_state) },
                                ),
                            ),
                        ]);
                    },
                    None => {},
                }
            },
            xtouch::UpstreamMsg::ArmPress(m) => {
                match self.get_guid_for_hw_channel(m.idx as usize) {
                    Some(g) => {
                        let mut st = self.current_state(g);
                        let new_state = st.buttons.arm.toggle();
                        self.store_state(g, st);
                        effects.push(CoreEffect::SetArmed { track_guid: g, armed: new_state });
                        effects.push(
                            CoreEffect::Surface(
                                xtouch::DownstreamMsg::ArmLED(
                                    xtouch::ArmLEDMsg { idx: m.idx, state: xtouch::LEDState::from(new_state) },
                                ),
                            ),
                        );
                        assert(effects@ =~= seq![
                            CoreEffect::SetArmed { track_guid: g, armed: new_state },
                            CoreEffect::Surface(
                                xtouch::DownstreamMsg::ArmLED(
                                    xtouch::ArmLEDMsg { idx: m.idx, state: led(new_state) },
                                ),
                            ),
                        ]);
                    },
                    None => {},
                }
            },
            _ => {},
        }
        effects
    }
}

/// A track position from 1 to the number of channels leaves the track on the channel one
/// below it, and on no other: it is put there, or it was there already.
pub proof fn law_track_index_places_track(
    o: VolumeFadersCore,
    f: VolumeFadersCore,
    g: TrackGuid,
    index: i32,
    effects: Seq<CoreEffect>,
)
    requires
        o.wf(),
        f.wf(),
        1 <= index <= o.assignments().len(),
        after_report(o, DataMsg::ReaperTrackIndex { track_guid: g, track_index: Some(index) }, f, effects),
    ensures
        slot_of(f.assignments(), g) == Some(index - 1),
{
    let hw = f.assignments();
    let k = index - 1;
    assert(hw[k] == Some(g));
    let c = choose|c: int| 0 <= c < hw.len() && hw[c] == Some(g);
    if c < k {
        assert(hw[c] != hw[k]);
    } else if c > k {
        assert(hw[k] != hw[c]);
    }
}

/// The track on the channel whose mute, solo or arm button `msg` presses, if any.
pub open spec fn pressed_track(msg: xtouch::UpstreamMsg, hw: Seq<Option<TrackGuid>>) -> Option<TrackGuid> {
    match msg {
        xtouch::UpstreamMsg::MutePress(m) => hw[m.idx as int],
        xtouch::UpstreamMsg::SoloPress(m) => hw[m.idx as int],
        xtouch::UpstreamMsg::ArmPress(m) => hw[m.idx as int],
        _ => None,
    }
}

/// The state of the button `msg` presses, in `v`.
pub open spec fn pressed_button(msg: xtouch::UpstreamMsg, v: TrackView) -> bool {
    match msg {
        xtouch::UpstreamMsg::MutePress(_) => v.mute,
        xtouch::UpstreamMsg::SoloPress(_) => v.solo,
        _ => v.arm,
    }
}

/// The button state a press asked the DAW for, if it asked for one.
pub open spec fn requested_state(effects: Seq<CoreEffect>) -> Option<bool> {
    if effects.len() > 0 {
        match effects[0] {
            CoreEffect::SetMuted { muted, .. } => Some(muted),
            CoreEffect::SetSoloed { soloed, .. } => Some(soloed),
            CoreEffect::SetArmed { armed, .. } => Some(armed),
            _ => None,
        }
    } else {
        None
    }
}

/// Pressing mute, solo or arm twice on a channel with a track leaves the track as it
/// was (made known, if it was not), and the second press asks the DAW for the state the
/// button had before the first.
pub proof fn law_second_press_undoes_first(
    o: VolumeFadersCore,
    f1: VolumeFadersCore,
    f2: VolumeFadersCore,
    msg: xtouch::UpstreamMsg,
    e1: Seq<CoreEffect>,
    e2: Seq<CoreEffect>,
)
    requires
        msg is MutePress || msg is SoloPress || msg is ArmPress,
        press_acceptable(msg, o.assignments().len() as int),
        after_press(o, msg, f1, e1),
        after_press(f1, msg, f2, e2),
    ensures
        f2.assignments() == o.assignments(),
        pressed_track(msg, o.assignments()) matches Some(g) ==> f2.tracks() == o.tracks().insert(
            g,
            known(o.tracks(), g),
        ) && requested_state(e2) == Some(pressed_button(msg, known(o.tracks(), g))),
        pressed_track(msg, o.assignments()) is None ==> f2.tracks() == o.tracks() && e2.len() == 0,
{
    if let Some(g) = pressed_track(msg, o.assignments()) {
        assert(f2.tracks() =~= o.tracks().insert(g, known(o.tracks(), g)));
    }
}

} // verus!
