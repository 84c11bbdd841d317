//! The first volume-and-pan mode for the X-Touch: tracks sit on the eight channels at
//! the position the DAW reports, faders follow volume, and the mute, solo and arm LEDs
//! follow the DAW. A button press toggles that button of the channel's track.
use vstd::prelude::*;

use crate::midi::xtouch;
use crate::modes::guid::TrackGuid;
use crate::modes::reaper_faders_buttons_core::{led, CoreEffect};
use crate::modes::track_data::DataMsg;
use crate::table::{find_guid, insert_guid, lookup, unique_keys};

verus! {

/// How many hardware channels the mode drives.
pub const NUM_CHANNELS: usize = 8;

/// The buttons of a track.
#[derive(Clone, Copy, Debug, PartialEq, Eq, Structural)]
pub struct ButtonState {
    pub mute: bool,
    pub solo: bool,
    pub arm: bool,
}

/// A track nothing has been heard of: every button off.
pub open spec fn no_buttons() -> ButtonState {
    ButtonState { mute: false, solo: false, arm: false }
}

/// The buttons last heard of track `g`; all off when nothing has been.
pub open spec fn buttons_of(states: Seq<(TrackGuid, ButtonState)>, g: TrackGuid) -> ButtonState {
    match lookup(states, g) {
        Some(b) => b,
        None => no_buttons(),
    }
}

/// The first channel track `g` sits on, if any.
pub open spec fn first_slot(hw: Seq<Option<TrackGuid>>, g: TrackGuid) -> Option<int> {
    if exists|i: int| 0 <= i < hw.len() && hw[i] == Some(g) {
        Some(
            choose|i: int|
                0 <= i < hw.len() && hw[i] == Some(g) && forall|j: int|
                    0 <= j < i ==> hw[j] != Some(g),
        )
    } else {
        None
    }
}

pub struct VolumePanMode {
    track_hw_assignments: Vec<Option<TrackGuid>>,
    track_states: Vec<(TrackGuid, ButtonState)>,
}

/// Whether `f` is `o` after a report from the DAW, with `effects` what the mode did.
pub open spec fn after_report(o: VolumePanMode, msg: DataMsg, f: VolumePanMode, effects: Seq<CoreEffect>) -> bool {
    let hw = o.assignments();
    let st = o.states();
    let unchanged = f.assignments() == hw && f.states() == st;
    match msg {
        DataMsg::ReaperTrackIndex { track_guid, track_index } => match track_index {
            Some(index) => f.assignments() == hw.update(index as int, Some(track_guid)) && f.states()
                == st && effects.len() == 0,
            None => unchanged && effects.len() == 0,
        },
        DataMsg::Volume { track_guid, volume } => unchanged && effects == match first_slot(hw, track_guid) {
            Some(c) => seq![CoreEffect::FaderToVolume { idx: c as i32, volume }],
            None => Seq::empty(),
        },
        DataMsg::Muted { track_guid, muted } => f.assignments() == hw && match first_slot(hw, track_guid) {
            Some(c) => {
                &&& f.states() == crate::table::assoc_insert(
                    st,
                    track_guid,
                    ButtonState { mute: muted, ..buttons_of(st, track_guid) },
                )
                &&& effects == seq![
                    CoreEffect::Surface(
                        xtouch::DownstreamMsg::MuteLED(xtouch::MuteLEDMsg { idx: c as i32, state: led(muted) }),
                    ),
                ]
            },
            None => f.states() == st && effects.len() == 0,
        },
        DataMsg::Soloed { track_guid, soloed } => f.assignments() == hw && match first_slot(hw, track_guid) {
            Some(c) => {
                &&& f.states() == crate::table::assoc_insert(
                    st,
                    track_guid,
                    ButtonState { solo: soloed, ..buttons_of(st, track_guid) },
                )
                &&& effects == seq![
                    CoreEffect::Surface(
                        xtouch::DownstreamMsg::SoloLED(xtouch::SoloLEDMsg { idx: c as i32, state: led(soloed) }),
                    ),
                ]
            },
            None => f.states() == st && effects.len() == 0,
        },
        DataMsg::Armed { track_guid, armed } => f.assignments() == hw && match first_slot(hw, track_guid) {
            Some(c) => {
                &&& f.states() == crate::table::assoc_insert(
                    st,
                    track_guid,
                    ButtonState { arm: armed, ..buttons_of(st, track_guid) },
                )
                &&& effects == seq![
                    CoreEffect::Surface(
                        xtouch::DownstreamMsg::ArmLED(xtouch::ArmLEDMsg { idx: c as i32, state: led(armed) }),
                    ),
                ]
            },
            None => f.states() == st && effects.len() == 0,
        },
        _ => unchanged && effects.len() == 0,
    }
}

/// Whether a report can be handled: a track position must name one of the channels.
pub open spec fn report_acceptable(msg: DataMsg) -> bool {
    match msg {
        DataMsg::ReaperTrackIndex { track_index, .. } => match track_index {
            Some(index) => 0 <= index < NUM_CHANNELS,
            None => true,
        },
        _ => true,
    }
}

/// Whether a surface message can be handled: a fader move or a button press must come
/// from one of the channels.
pub open spec fn press_acceptable(msg: xtouch::UpstreamMsg) -> bool {
    match msg {
        xtouch::UpstreamMsg::FaderAbs(m) => 0 <= m.idx < NUM_CHANNELS,
        xtouch::UpstreamMsg::MutePress(m) => 0 <= m.idx < NUM_CHANNELS,
        xtouch::UpstreamMsg::SoloPress(m) => 0 <= m.idx < NUM_CHANNELS,
        xtouch::UpstreamMsg::ArmPress(m) => 0 <= m.idx < NUM_CHANNELS,
        _ => true,
    }
}

/// What a message from the surface makes the mode do: a fader move asks the DAW for the
/// volume of the channel's track; a button press toggles that button of the track: the
/// DAW is sent the opposite of the state last heard, the LED shows it, and it is kept.
pub open spec fn after_press(o: VolumePanMode, msg: xtouch::UpstreamMsg, f: VolumePanMode, effects: Seq<CoreEffect>) -> bool {
    let hw = o.assignments();
    let st = o.states();
    &&& f.assignments() == hw
    &&& match msg {
        xtouch::UpstreamMsg::FaderAbs(m) => f.states() == st && effects == match hw[m.idx as int] {
            Some(g) => seq![CoreEffect::VolumeFromFader { track_guid: g, position: m.value }],
            None => Seq::empty(),
        },
        xtouch::UpstreamMsg::MutePress(m) => match hw[m.idx as int] {
            Some(g) => {
                let b = buttons_of(st, g);
                let on = !b.mute;
                &&& f.states() == crate::table::assoc_insert(st, g, ButtonState { mute: on, ..b })
                &&& effects == seq![
                    CoreEffect::SetMuted { track_guid: g, muted: on },
                    CoreEffect::Surface(
                        xtouch::DownstreamMsg::MuteLED(xtouch::MuteLEDMsg { idx: m.idx, state: led(on) }),
                    ),
                ]
            },
            None => f.states() == st && effects.len() == 0,
        },
        xtouch::UpstreamMsg::SoloPress(m) => match hw[m.idx as int] {
            Some(g) => {
                let b = buttons_of(st, g);
                let on = !b.solo;
                &&& f.states() == crate::table::assoc_insert(st, g, ButtonState { solo: on, ..b })
                &&& effects == seq![
                    CoreEffect::SetSoloed { track_guid: g, soloed: on },
                    CoreEffect::Surface(
                        xtouch::DownstreamMsg::SoloLED(xtouch::SoloLEDMsg { idx: m.idx, state: led(on) }),
                    ),
                ]
            },
            None => f.states() == st && effects.len() == 0,
        },
        xtouch::UpstreamMsg::ArmPress(m) => match hw[m.idx as int] {
            Some(g) => {
                let b = buttons_of(st, g);
                let on = !b.arm;
                &&& f.states() == crate::table::assoc_insert(st, g, ButtonState { arm: on, ..b })
                &&& effects == seq![
                    CoreEffect::SetArmed { track_guid: g, armed: on },
                    CoreEffect::Surface(
                        xtouch::DownstreamMsg::ArmLED(xtouch::ArmLEDMsg { idx: m.idx, state: led(on) }),
                    ),
                ]
            },
            None => f.states() == st && effects.len() == 0,
        },
        _ => f.states() == st && effects.len() == 0,
    }
}

impl VolumePanMode {
    /// The track on each channel.
    pub closed spec fn assignments(&self) -> Seq<Option<TrackGuid>> {
        self.track_hw_assignments@
    }

    /// The buttons last heard of each track, as a table of unique keys.
    pub closed spec fn states(&self) -> Seq<(TrackGuid, ButtonState)> {
        self.track_states@
    }

    pub open spec fn wf(&self) -> bool {
        &&& self.assignments().len() == NUM_CHANNELS
        &&& unique_keys(self.states())
    }

    /// Eight channels with no track, nothing heard of any track.
    pub fn new() -> (r: Self)
        ensures
            r.wf(),
            r.assignments() == Seq::new(NUM_CHANNELS as nat, |i: int| None::<TrackGuid>),
            r.states() == Seq::<(TrackGuid, ButtonState)>::empty(),
    {
        let mut hw: Vec<Option<TrackGuid>> = Vec::new();
        let mut i: usize = 0;
        while i < NUM_CHANNELS
            invariant
                0 <= i <= NUM_CHANNELS,
                hw@ == Seq::new(i as nat, |j: int| None::<TrackGuid>),
            decreases NUM_CHANNELS - i,
        {
            hw.push(None);
            i = i + 1;
            assert(hw@ =~= Seq::new(i as nat, |j: int| None::<TrackGuid>));
        }
        VolumePanMode { track_hw_assignments: hw, track_states: Vec::new() }
    }

    /// The first channel track `guid` sits on, if any.
    pub fn find_hw_channel(&self, guid: TrackGuid) -> (r: Option<usize>)
        ensures
            r is Some <==> first_slot(self.assignments(), guid) is Some,
            r matches Some(i) ==> first_slot(self.assignments(), guid) == Some(i as int),
    {
        let ghost hw = self.assignments();
        let mut i: usize = 0;
        while i < self.track_hw_assignments.len()
            invariant
                0 <= i <= self.track_hw_assignments.len(),
                hw == self.assignments(),
                forall|j: int| 0 <= j < i ==> hw[j] != Some(guid),
            decreases self.track_hw_assignments.len() - i,
        {
            if self.track_hw_assignments[i] == Some(guid) {
                proof {
                    let c = choose|c: int|
                        0 <= c < hw.len() && hw[c] == Some(guid) && forall|j: int|
                            0 <= j < c ==> hw[j] != Some(guid);
                    assert(0 <= i < hw.len() && hw[i as int] == Some(guid) && forall|j: int|
                        0 <= j < i ==> hw[j] != Some(guid));
                    if c < i {
                        assert(hw[c] != Some(guid));
                    } else if c > i {
                        assert(hw[i as int] != Some(guid));
                    }
                }
                return Some(i);
            }
            i = i + 1;
        }
        None
    }

    /// The buttons last heard of track `g`.
    fn buttons(&self, g: TrackGuid) -> (r: ButtonState)
        requires
            self.wf(),
        ensures
            r == buttons_of(self.states(), g),
    {
        match find_guid(&self.track_states, g) {
            Some(j) => self.track_states[j].1,
            None => ButtonState { mute: false, solo: false, arm: false },
        }
    }

    /// Keep `b` as the buttons of track `g`.
    fn store(&mut self, g: TrackGuid, b: ButtonState)
        requires
            old(self).wf(),
        ensures
            final(self).wf(),
            final(self).states() == crate::table::assoc_insert(old(self).states(), g, b),
            final(self).assignments() == old(self).assignments(),
    {
        insert_guid(&mut self.track_states, g, b);
    }

    /// Handle a report from the DAW: a track position puts the track on that channel;
    /// volume and the buttons are shown on the first channel of the track, if it has one,
    /// and the buttons are kept then.
    pub fn handle_track_data(&mut self, msg: DataMsg) -> (r: Vec<CoreEffect>)
        requires
            old(self).wf(),
            report_acceptable(msg),
        ensures
            final(self).wf(),
            after_report(*old(self), msg, *final(self), r@),
    {
        let mut effects: Vec<CoreEffect> = Vec::new();
        match msg {
            DataMsg::ReaperTrackIndex { track_guid, track_index } => {
                if let Some(index) = track_index {
                    self.track_hw_assignments.set(index as usize, Some(track_guid));
                }
            },
            DataMsg::Volume { track_guid, volume } => {
                if let Some(c) = self.find_hw_channel(track_guid) {
                    effects.push(CoreEffect::FaderToVolume { idx: c as i32, volume });
                    assert(effects@ =~= seq![CoreEffect::FaderToVolume { idx: c as i32, volume }]);
                }
            },
            DataMsg::Muted { track_guid, muted } => {
                if let Some(c) = self.find_hw_channel(track_guid) {
                    let mut b = self.buttons(track_guid);
                    b.mute = muted;
                    self.store(track_guid, b);
                    effects.push(
                        CoreEffect::Surface(
                            xtouch::DownstreamMsg::MuteLED(
                                xtouch::MuteLEDMsg { idx: c as i32, state: xtouch::LEDState::from(muted) },
                            ),
                        ),
                    );
                    assert(effects@ =~= seq![
                        CoreEffect::Surface(
                            xtouch::DownstreamMsg::MuteLED(xtouch::MuteLEDMsg { idx: c as i32, state: led(muted) }),
                        ),
                    ]);
                }
            },
            DataMsg::Soloed { track_guid, soloed } => {
                if let Some(c) = self.find_hw_channel(track_guid) {
                    let mut b = self.buttons(track_guid);
                    b.solo = soloed;
                    self.store(track_guid, b);
                    effects.push(
                        CoreEffect::Surface(
                            xtouch::DownstreamMsg::SoloLED(
                                xtouch::SoloLEDMsg { idx: c as i32, state: xtouch::LEDState::from(soloed) },
                            ),
                        ),
                    );
                    assert(effects@ =~= seq![
                        CoreEffect::Surface(
                            xtouch::DownstreamMsg::SoloLED(xtouch::SoloLEDMsg { idx: c as i32, state: led(soloed) }),
                        ),
                    ]);
                }
            },
            DataMsg::Armed { track_guid, armed } => {
                if let Some(c) = self.find_hw_channel(track_guid) {
                    let mut b = self.buttons(track_guid);
                    b.arm = armed;
                    self.store(track_guid, b);
                    effects.push(
                        CoreEffect::Surface(
                            xtouch::DownstreamMsg::ArmLED(
                                xtouch::ArmLEDMsg { idx: c as i32, state: xtouch::LEDState::from(armed) },
                            ),
                        ),
                    );
                    assert(effects@ =~= seq![
                        CoreEffect::Surface(
                            xtouch::DownstreamMsg::ArmLED(xtouch::ArmLEDMsg { idx: c as i32, state: led(armed) }),
                        ),
                    ]);
                }
            },
            _ => {},
        }
        effects
    }

    /// Handle a message from the surface (see `after_press`).
    pub fn handle_surface(&mut self, msg: xtouch::UpstreamMsg) -> (r: Vec<CoreEffect>)
        requires
            old(self).wf(),
            press_acceptable(msg),
        ensures
            final(self).wf(),
            after_press(*old(self), msg, *final(self), r@),
    {
        let mut effects: Vec<CoreEffect> = Vec::new();
        match msg {
            xtouch::UpstreamMsg::FaderAbs(m) => {
                if let Some(g) = self.track_hw_assignments[m.idx as usize] {
                    effects.push(CoreEffect::VolumeFromFader { track_guid: g, position: m.value });
                    assert(effects@ =~= seq![CoreEffect::VolumeFromFader { track_guid: g, position: m.value }]);
                }
            },
            xtouch::UpstreamMsg::MutePress(m) => {
                if let Some(g) = self.track_hw_assignments[m.idx as usize] {
                    let mut b = self.buttons(g);
                    let on = !b.mute;
                    b.mute = on;
                    self.store(g, b);
                    effects.push(CoreEffect::SetMuted { track_guid: g, muted: on });
                    effects.push(
                        CoreEffect::Surface(
                            xtouch::DownstreamMsg::MuteLED(
                                xtouch::MuteLEDMsg { idx: m.idx, state: xtouch::LEDState::from(on) },
                            ),
                        ),
                    );
                    assert(effects@ =~= seq![
                        CoreEffect::SetMuted { track_guid: g, muted: on },
                        CoreEffect::Surface(
                            xtouch::DownstreamMsg::MuteLED(xtouch::MuteLEDMsg { idx: m.idx, state: led(on) }),
                        ),
                    ]);
                }
            },
            xtouch::UpstreamMsg::SoloPress(m) => {
                if let Some(g) = self.track_hw_assignments[m.idx as usize] {
                    let mut b = self.buttons(g);
                    let on = !b.solo;
                    b.solo = on;
                    self.store(g, b);
                    effects.push(CoreEffect::SetSoloed { track_guid: g, soloed: on });
                    effects.push(
                        CoreEffect::Surface(
                            xtouch::DownstreamMsg::SoloLED(
                                xtouch::SoloLEDMsg { idx: m.idx, state: xtouch::LEDState::from(on) },
                            ),
                        ),
                    );
                    assert(effects@ =~= seq![
                        CoreEffect::SetSoloed { track_guid: g, soloed: on },
                        CoreEffect::Surface(
                            xtouch::DownstreamMsg::SoloLED(xtouch::SoloLEDMsg { idx: m.idx, state: led(on) }),
                        ),
                    ]);
                }
            },
            xtouch::UpstreamMsg::ArmPress(m) => {
                if let Some(g) = self.track_hw_assignments[m.idx as usize] {
                    let mut b = self.buttons(g);
                    let on = !b.arm;
                    b.arm = on;
                    self.store(g, b);
                    effects.push(CoreEffect::SetArmed { track_guid: g, armed: on });
                    effects.push(
                        CoreEffect::Surface(
                            xtouch::DownstreamMsg::ArmLED(
                                xtouch::ArmLEDMsg { idx: m.idx, state: xtouch::LEDState::from(on) },
                            ),
                        ),
                    );
                    assert(effects@ =~= seq![
                        CoreEffect::SetArmed { track_guid: g, armed: on },
                        CoreEffect::Surface(
                            xtouch::DownstreamMsg::ArmLED(xtouch::ArmLEDMsg { idx: m.idx, state: led(on) }),
                        ),
                    ]);
                }
            },
            _ => {},
        }
        effects
    }
}

/// A press of mute, solo or arm toggles that button of the channel's track and leaves
/// its other buttons, and every other track, as they were; so two presses of the same
/// button leave what is known of the buttons as it was.
pub proof fn law_press_toggles_button(
    o: VolumePanMode,
    msg: xtouch::UpstreamMsg,
    f: VolumePanMode,
    effects: Seq<CoreEffect>,
    g: TrackGuid,
)
    requires
        o.wf(),
        press_acceptable(msg),
        after_press(o, msg, f, effects),
    ensures
        ({
            let before = buttons_of(o.states(), g);
            let after = buttons_of(f.states(), g);
            match msg {
                xtouch::UpstreamMsg::MutePress(m) => if o.assignments()[m.idx as int] == Some(g) {
                    after == ButtonState { mute: !before.mute, ..before }
                } else {
                    after == before
                },
                xtouch::UpstreamMsg::SoloPress(m) => if o.assignments()[m.idx as int] == Some(g) {
                    after == ButtonState { solo: !before.solo, ..before }
                } else {
                    after == before
                },
                xtouch::UpstreamMsg::ArmPress(m) => if o.assignments()[m.idx as int] == Some(g) {
                    after == ButtonState { arm: !before.arm, ..before }
                } else {
                    after == before
                },
                _ => after == before,
            }
        }),
{
    let st = o.states();
    match msg {
        xtouch::UpstreamMsg::MutePress(m) => {
            if let Some(t) = o.assignments()[m.idx as int] {
                let b = buttons_of(st, t);
                crate::table::lemma_lookup_assoc_insert(st, t, ButtonState { mute: !b.mute, ..b });
            }
        },
        xtouch::UpstreamMsg::SoloPress(m) => {
            if let Some(t) = o.assignments()[m.idx as int] {
                let b = buttons_of(st, t);
                crate::table::lemma_lookup_assoc_insert(st, t, ButtonState { solo: !b.solo, ..b });
            }
        },
        xtouch::UpstreamMsg::ArmPress(m) => {
            if let Some(t) = o.assignments()[m.idx as int] {
                let b = buttons_of(st, t);
                crate::table::lemma_lookup_assoc_insert(st, t, ButtonState { arm: !b.arm, ..b });
            }
        },
        _ => {},
    }
}

} // verus!
