//! The volume-and-pan mode of the V1-M: volume on the faders, select, mute, solo and arm
//! on the buttons, pan on the encoders. Volumes and pans are floats, so the steps that
//! compute with them are the caller's; this mode decides everything else.
use vstd::prelude::*;

use crate::midi::{v1m, xtouch};
use crate::modes::guid::{slot_of, TrackGuid};
use crate::modes::mode_manager::{ModeAction, TransitionRequest};
use crate::modes::reaper_faders_buttons_core::{
    after_press, after_report, known, led, press_acceptable, report_acceptable, CoreEffect, TrackView,
    VolumeFadersCore,
};
use crate::modes::track_data::DataMsg;
use crate::table::{assoc_insert, find_guid, has_entry, insert_guid, lookup, unique_keys};

verus! {

/// What handling a message makes the mode do, in order.
#[derive(Debug)]
pub enum VolPanEffect {
    /// What the faders and buttons core did; its surface messages are X-Touch ones, which
    /// `v1m_of_core_msg` gives for the V1-M.
    Core(CoreEffect),
    /// Send this message to the control surface.
    Surface(v1m::DownstreamMsg),
    /// Show a pan (bits of an `f32`) on the encoder ring of channel `idx`, as a point.
    RingToPan { idx: i32, pan: u32 },
    /// Ask the DAW to select this track.
    SelectTrack(TrackGuid),
    /// The encoder of channel `idx` turned (up or down, with `accel`) on track
    /// `track_guid`, whose pan is `pan`: the caller steps the pan, keeps it with
    /// `store_pan`, sends it to the DAW and shows it on the ring from the centre.
    PanTurn { track_guid: TrackGuid, idx: i32, pan: u32, up: bool, accel: u8 },
}

/// The pan known of track `g`: centre (0.0) when none was heard.
pub open spec fn pan_of(pans: Seq<(TrackGuid, u32)>, g: TrackGuid) -> u32 {
    match lookup(pans, g) {
        Some(p) => p,
        None => 0u32,
    }
}

/// The pans with track `g` given the centre if it has none.
pub open spec fn with_centre(pans: Seq<(TrackGuid, u32)>, g: TrackGuid) -> Seq<(TrackGuid, u32)> {
    if has_entry(pans, g) {
        pans
    } else {
        pans.push((g, 0u32))
    }
}

/// Whether the core's effects end with a track put on a channel.
pub open spec fn placed_track(ce: Seq<CoreEffect>) -> Option<(TrackGuid, usize)> {
    if ce.len() > 0 {
        match ce.last() {
            CoreEffect::TrackPlaced(e) => Some((e.track_guid, e.hw_channel)),
            _ => None,
        }
    } else {
        None
    }
}

/// The core's effects, each as the mode's.
pub open spec fn as_mode_effects(ce: Seq<CoreEffect>) -> Seq<VolPanEffect> {
    ce.map_values(|e: CoreEffect| VolPanEffect::Core(e))
}

/// The message the core's X-Touch surface message is for the V1-M, if it has one.
pub open spec fn spec_v1m_of_core_msg(m: xtouch::DownstreamMsg) -> Option<v1m::DownstreamMsg> {
    match m {
        xtouch::DownstreamMsg::MuteLED(x) => Some(
            v1m::DownstreamMsg::MuteLED(v1m::MuteLEDMsg { idx: x.idx, state: v1m_led(x.state) }),
        ),
        xtouch::DownstreamMsg::SoloLED(x) => Some(
            v1m::DownstreamMsg::SoloLED(v1m::SoloLEDMsg { idx: x.idx, state: v1m_led(x.state) }),
        ),
        xtouch::DownstreamMsg::ArmLED(x) => Some(
            v1m::DownstreamMsg::ArmLED(v1m::ArmLEDMsg { idx: x.idx, state: v1m_led(x.state) }),
        ),
        xtouch::DownstreamMsg::SelectLED(x) => Some(
            v1m::DownstreamMsg::SelectLED(v1m::SelectLEDMsg { idx: x.idx, state: v1m_led(x.state) }),
        ),
        xtouch::DownstreamMsg::FaderAbs(x) => Some(
            v1m::DownstreamMsg::ChannelFader(v1m::ChannelFaderMsg { idx: x.idx, value: x.value }),
        ),
        _ => None,
    }
}

pub open spec fn v1m_led(s: xtouch::LEDState) -> v1m::LEDState {
    match s {
        xtouch::LEDState::Off => v1m::LEDState::Off,
        xtouch::LEDState::On => v1m::LEDState::On,
        xtouch::LEDState::Flash => v1m::LEDState::Flash,
    }
}

fn led_for_v1m(s: xtouch::LEDState) -> (r: v1m::LEDState)
    ensures
        r == v1m_led(s),
{
    match s {
        xtouch::LEDState::Off => v1m::LEDState::Off,
        xtouch::LEDState::On => v1m::LEDState::On,
        xtouch::LEDState::Flash => v1m::LEDState::Flash,
    }
}

/// The V1-M message for a surface message of the faders and buttons core.
pub fn v1m_of_core_msg(m: xtouch::DownstreamMsg) -> (r: Option<v1m::DownstreamMsg>)
    ensures
        r == spec_v1m_of_core_msg(m),
{
    match m {
        xtouch::DownstreamMsg::MuteLED(x) => Some(
            v1m::DownstreamMsg::MuteLED(v1m::MuteLEDMsg { idx: x.idx, state: led_for_v1m(x.state) }),
        ),
        xtouch::DownstreamMsg::SoloLED(x) => Some(
            v1m::DownstreamMsg::SoloLED(v1m::SoloLEDMsg { idx: x.idx, state: led_for_v1m(x.state) }),
        ),
        xtouch::DownstreamMsg::ArmLED(x) => Some(
            v1m::DownstreamMsg::ArmLED(v1m::ArmLEDMsg { idx: x.idx, state: led_for_v1m(x.state) }),
        ),
        xtouch::DownstreamMsg::SelectLED(x) => Some(
            v1m::DownstreamMsg::SelectLED(v1m::SelectLEDMsg { idx: x.idx, state: led_for_v1m(x.state) }),
        ),
        xtouch::DownstreamMsg::FaderAbs(x) => Some(
            v1m::DownstreamMsg::ChannelFader(v1m::ChannelFaderMsg { idx: x.idx, value: x.value }),
        ),
        _ => None,
    }
}

/// The message of the faders and buttons core that a V1-M fader move or button press is.
pub open spec fn core_input(msg: v1m::UpstreamMsg) -> Option<xtouch::UpstreamMsg> {
    match msg {
        v1m::UpstreamMsg::ChannelFader(m) => Some(
            xtouch::UpstreamMsg::FaderAbs(xtouch::FaderAbsMsg { idx: m.idx, value: m.value }),
        ),
        v1m::UpstreamMsg::MutePress(m) => Some(xtouch::UpstreamMsg::MutePress(xtouch::MutePress { idx: m.idx })),
        v1m::UpstreamMsg::SoloPress(m) => Some(xtouch::UpstreamMsg::SoloPress(xtouch::SoloPress { idx: m.idx })),
        v1m::UpstreamMsg::ArmPress(m) => Some(xtouch::UpstreamMsg::ArmPress(xtouch::ArmPress { idx: m.idx })),
        _ => None,
    }
}

fn to_core_input(msg: v1m::UpstreamMsg) -> (r: Option<xtouch::UpstreamMsg>)
    ensures
        r == core_input(msg),
{
    match msg {
        v1m::UpstreamMsg::ChannelFader(m) => Some(
            xtouch::UpstreamMsg::FaderAbs(xtouch::FaderAbsMsg { idx: m.idx, value: m.value }),
        ),
        v1m::UpstreamMsg::MutePress(m) => Some(xtouch::UpstreamMsg::MutePress(xtouch::MutePress { idx: m.idx })),
        v1m::UpstreamMsg::SoloPress(m) => Some(xtouch::UpstreamMsg::SoloPress(xtouch::SoloPress { idx: m.idx })),
        v1m::UpstreamMsg::ArmPress(m) => Some(xtouch::UpstreamMsg::ArmPress(xtouch::ArmPress { idx: m.idx })),
        _ => None,
    }
}

/// Whether a message from the surface can be handled: a select press, an encoder turn, a
/// fader move or a button press must come from one of the `n` channels.
pub open spec fn surface_acceptable(msg: v1m::UpstreamMsg, n: int) -> bool {
    &&& match msg {
        v1m::UpstreamMsg::SelectPress(m) => 0 <= m.idx < n,
        v1m::UpstreamMsg::EncoderTurnInc(m) => 0 <= m.idx < n,
        v1m::UpstreamMsg::EncoderTurnDec(m) => 0 <= m.idx < n,
        _ => true,
    }
    &&& core_input(msg) matches Some(x) ==> press_acceptable(x, n)
}

pub struct ReaperVolumePanMode {
    core: VolumeFadersCore,
    pan_states: Vec<(TrackGuid, u32)>,
    selected_track_guid: Option<TrackGuid>,
}

/// Whether `f` is `o` after a report from the DAW, with `effects` what the mode did: a
/// selection lights the select button of the track's channel and makes it (or no track)
/// the selected one; a name goes on both scribble strip lines of the channel; a pan is
/// kept and shown on the channel's ring; anything else goes to the core, and when the
/// core puts a track on a channel the ring shows its pan.
pub open spec fn after_upstream(o: ReaperVolumePanMode, msg: DataMsg, f: ReaperVolumePanMode, effects: Seq<VolPanEffect>) -> bool {
    let hw = o.faders().assignments();
    let same_core = f.faders() == o.faders();
    match msg {
        DataMsg::Selected { track_guid, selected } => same_core && f.pans() == o.pans() && match slot_of(hw, track_guid) {
            Some(c) => {
                &&& f.selected() == (if selected { Some(track_guid) } else { None })
                &&& effects == seq![
                    VolPanEffect::Surface(v1m::DownstreamMsg::SelectLED(v1m::SelectLEDMsg {
                        idx: c as i32,
                        state: if selected { v1m::LEDState::On } else { v1m::LEDState::Off },
                    })),
                ]
            },
            None => f.selected() == o.selected() && effects.len() == 0,
        },
        DataMsg::Name { track_guid, name } => same_core && f.pans() == o.pans() && f.selected() == o.selected()
            && match slot_of(hw, track_guid) {
            Some(c) => effects.len() == 2 && (effects[0] matches VolPanEffect::Surface(
                v1m::DownstreamMsg::TopScribbleStripLine1Text(m),
            ) && m.idx == c as i32 && m.text@ == name@) && (effects[1] matches VolPanEffect::Surface(
                v1m::DownstreamMsg::BottomScribbleStripLine2Text(m),
            ) && m.idx == c as i32 && m.text@ == name@),
            None => effects.len() == 0,
        },
        DataMsg::Pan { track_guid, pan } => {
            &&& same_core
            &&& f.selected() == o.selected()
            &&& f.pans() == assoc_insert(o.pans(), track_guid, pan)
            &&& effects == match slot_of(hw, track_guid) {
                Some(c) => seq![VolPanEffect::RingToPan { idx: c as i32, pan }],
                None => Seq::empty(),
            }
        },
        _ => exists|ce: Seq<CoreEffect>| {
            &&& #[trigger] after_report(o.faders(), msg, f.faders(), ce)
            &&& f.selected() == o.selected()
            &&& match placed_track(ce) {
                Some((g, c)) => {
                    &&& f.pans() == with_centre(o.pans(), g)
                    &&& effects == as_mode_effects(ce).push(
                        VolPanEffect::RingToPan { idx: c as i32, pan: pan_of(o.pans(), g) },
                    )
                },
                None => f.pans() == o.pans() && effects == as_mode_effects(ce),
            }
        },
    }
}

/// What a message from the surface makes the mode do: the global view button keeps
/// this mode; MIDI tracks and inputs ask for the sends and the channel strip of the
/// selected track, if there is one; a select press lights the button, asks the DAW to
/// select the channel's track and makes it (or no track) the selected one; an encoder
/// turn on a channel with a track hands the caller that track's pan to step; fader moves
/// and mute, solo and arm presses go to the core.
pub open spec fn after_surface(
    o: ReaperVolumePanMode,
    msg: v1m::UpstreamMsg,
    f: ReaperVolumePanMode,
    action: ModeAction,
    effects: Seq<VolPanEffect>,
) -> bool {
    let hw = o.faders().assignments();
    let unchanged = f.faders() == o.faders() && f.pans() == o.pans() && f.selected() == o.selected();
    match msg {
        v1m::UpstreamMsg::MIDITracksPress => unchanged && effects.len() == 0 && action == match o.selected() {
            Some(g) => ModeAction::Transition(TransitionRequest::ToReaperSends { selected_track_guid: g }),
            None => ModeAction::NoAction,
        },
        v1m::UpstreamMsg::InputsPress => unchanged && effects.len() == 0 && action == match o.selected() {
            Some(g) => ModeAction::Transition(TransitionRequest::ToReaperChannelStrip { selected_track_guid: g }),
            None => ModeAction::NoAction,
        },
        v1m::UpstreamMsg::SelectPress(m) => {
            let lit = VolPanEffect::Surface(
                v1m::DownstreamMsg::SelectLED(v1m::SelectLEDMsg { idx: m.idx, state: v1m::LEDState::On }),
            );
            &&& action == ModeAction::NoAction
            &&& f.faders() == o.faders() && f.pans() == o.pans()
            &&& f.selected() == hw[m.idx as int]
            &&& effects == match hw[m.idx as int] {
                Some(g) => seq![lit, VolPanEffect::SelectTrack(g)],
                None => seq![lit],
            }
        },
        v1m::UpstreamMsg::EncoderTurnInc(m) => action == ModeAction::NoAction && f.faders() == o.faders()
            && f.selected() == o.selected() && match hw[m.idx as int] {
            Some(g) => f.pans() == with_centre(o.pans(), g) && effects == seq![
                VolPanEffect::PanTurn { track_guid: g, idx: m.idx, pan: pan_of(o.pans(), g), up: true, accel: m.accel },
            ],
            None => f.pans() == o.pans() && effects.len() == 0,
        },
        v1m::UpstreamMsg::EncoderTurnDec(m) => action == ModeAction::NoAction && f.faders() == o.faders()
            && f.selected() == o.selected() && match hw[m.idx as int] {
            Some(g) => f.pans() == with_centre(o.pans(), g) && effects == seq![
                VolPanEffect::PanTurn { track_guid: g, idx: m.idx, pan: pan_of(o.pans(), g), up: false, accel: m.accel },
            ],
            None => f.pans() == o.pans() && effects.len() == 0,
        },
        _ => action == ModeAction::NoAction && f.pans() == o.pans() && f.selected() == o.selected() && match core_input(msg) {
            Some(x) => exists|ce: Seq<CoreEffect>| #[trigger] after_press(o.faders(), x, f.faders(), ce) && effects == as_mode_effects(ce),
            None => f.faders() == o.faders() && effects.len() == 0,
        },
    }
}

impl ReaperVolumePanMode {
    /// The faders and buttons core the mode is built on.
    pub closed spec fn faders(&self) -> VolumeFadersCore {
        self.core
    }

    /// The pan heard or set of each track.
    pub closed spec fn pans(&self) -> Seq<(TrackGuid, u32)> {
        self.pan_states@
    }

    /// The selected track, if any.
    pub closed spec fn selected(&self) -> Option<TrackGuid> {
        self.selected_track_guid
    }

    pub open spec fn wf(&self) -> bool {
        &&& self.faders().wf()
        &&& unique_keys(self.pans())
    }

    /// `num_channels` channels with no track, no pan known, and `selected_track_guid`
    /// selected.
    pub fn new(num_channels: usize, selected_track_guid: Option<TrackGuid>) -> (r: Self)
        ensures
            r.wf(),
            r.faders().assignments() == Seq::new(num_channels as nat, |i: int| None::<TrackGuid>),
            r.pans() == Seq::<(TrackGuid, u32)>::empty(),
            r.selected() == selected_track_guid,
    {
        ReaperVolumePanMode {
            core: VolumeFadersCore::new(num_channels),
            pan_states: Vec::new(),
            selected_track_guid,
        }
    }

    /// The channel track `guid` sits on, if any.
    pub fn find_hw_channel(&self, guid: TrackGuid) -> (r: Option<usize>)
        requires
            self.wf(),
        ensures
            r == (match slot_of(self.faders().assignments(), guid) {
                Some(c) => Some(c as usize),
                None => None::<usize>,
            }),
    {
        self.core.find_hw_channel(guid)
    }

    /// The pan of track `g` (the centre when none is known).
    pub fn pan(&self, g: TrackGuid) -> (r: u32)
        requires
            self.wf(),
        ensures
            r == pan_of(self.pans(), g),
    {
        match find_guid(&self.pan_states, g) {
            Some(j) => self.pan_states[j].1,
            None => 0,
        }
    }

    /// Keep `pan` as the pan of track `g`.
    pub fn store_pan(&mut self, g: TrackGuid, pan: u32)
        requires
            old(self).wf(),
        ensures
            final(self).wf(),
            final(self).pans() == assoc_insert(old(self).pans(), g, pan),
            final(self).faders() == old(self).faders(),
            final(self).selected() == old(self).selected(),
    {
        insert_guid(&mut self.pan_states, g, pan);
    }

    fn centre_if_new(&mut self, g: TrackGuid)
        requires
            old(self).wf(),
        ensures
            final(self).wf(),
            final(self).pans() == with_centre(old(self).pans(), g),
            final(self).faders() == old(self).faders(),
            final(self).selected() == old(self).selected(),
    {
        match find_guid(&self.pan_states, g) {
            Some(_) => {},
            None => {
                proof {
                    crate::table::lemma_assoc_insert_unique(self.pan_states@, g, 0u32);
                }
                self.pan_states.push((g, 0));
            },
        }
    }

    /// Handle a report from the DAW (see `after_upstream`).
    pub fn handle_msg_from_upstream(&mut self, msg: DataMsg) -> (r: (ModeAction, Vec<VolPanEffect>))
        requires
            old(self).wf(),
            report_acceptable(msg, old(self).faders().assignments().len() as int),
        ensures
            final(self).wf(),
            r.0 == ModeAction::NoAction,
            after_upstream(*old(self), msg, *final(self), r.1@),
    {
        let mut effects: Vec<VolPanEffect> = Vec::new();
        match msg {
            DataMsg::Selected { track_guid, selected } => {
                if let Some(c) = self.core.find_hw_channel(track_guid) {
                    self.selected_track_guid = if selected { Some(track_guid) } else { None };
                    let state = if selected { v1m::LEDState::On } else { v1m::LEDState::Off };
                    effects.push(VolPanEffect::Surface(v1m::DownstreamMsg::SelectLED(v1m::SelectLEDMsg {
                        idx: c as i32,
                        state,
                    })));
                }
            },
            DataMsg::Name { track_guid, name } => {
                if let Some(c) = self.core.find_hw_channel(track_guid) {
                    let line1 = name.clone();
                    effects.push(VolPanEffect::Surface(v1m::DownstreamMsg::TopScribbleStripLine1Text(
                        v1m::TopScribbleStripLine1TextMsg { idx: c as i32, text: line1 },
                    )));
                    effects.push(VolPanEffect::Surface(v1m::DownstreamMsg::BottomScribbleStripLine2Text(
                        v1m::BottomScribbleStripLine2TextMsg { idx: c as i32, text: name },
                    )));
                }
            },
            DataMsg::Pan { track_guid, pan } => {
                self.store_pan(track_guid, pan);
                if let Some(c) = self.core.find_hw_channel(track_guid) {
                    effects.push(VolPanEffect::RingToPan { idx: c as i32, pan });
                    assert(effects@ =~= seq![VolPanEffect::RingToPan { idx: c as i32, pan }]);
                }
            },
            _ => {
                let ghost o = *self;
                let mut ce = self.core.handle_message_from_upstream(msg);
                let ghost ces = ce@;
                let placed = if ce.len() > 0 {
                    match &ce[ce.len() - 1] {
                        CoreEffect::TrackPlaced(e) => Some((e.track_guid, e.hw_channel)),
                        _ => None,
                    }
                } else {
                    None
                };
                assert(placed == placed_track(ces));
                let ghost mut k: int = 0;
                while ce.len() > 0
                    invariant
                        0 <= k <= ces.len(),
                        ce@ == ces.skip(k),
                        effects@ == as_mode_effects(ces.take(k)),
                    decreases ce.len(),
                {
                    let e = ce.remove(0);
                    proof {
                        assert(ces.take(k + 1) =~= ces.take(k).push(ces[k]));
                        assert(as_mode_effects(ces.take(k + 1)) =~= as_mode_effects(ces.take(k)).push(
                            VolPanEffect::Core(ces[k]),
                        ));
                    }
                    effects.push(VolPanEffect::Core(e));
                    proof {
                        k = k + 1;
                        assert(ce@ =~= ces.skip(k));
                    }
                }
                assert(ces.take(k) =~= ces);
                match placed {
                    Some((g, c)) => {
                        let pan = self.pan(g);
                        self.centre_if_new(g);
                        effects.push(VolPanEffect::RingToPan { idx: c as i32, pan });
                    },
                    None => {},
                }
                assert(after_report(o.faders(), msg, self.faders(), ces));
            },
        }
        (ModeAction::NoAction, effects)
    }

    /// Handle a message from the surface (see `after_surface`).
    pub fn handle_msg_from_downstream(&mut self, msg: v1m::UpstreamMsg) -> (r: (ModeAction, Vec<VolPanEffect>))
        requires
            old(self).wf(),
            surface_acceptable(msg, old(self).faders().assignments().len() as int),
        ensures
            final(self).wf(),
            after_surface(*old(self), msg, *final(self), r.0, r.1@),
    {
        let mut effects: Vec<VolPanEffect> = Vec::new();
        match msg {
            v1m::UpstreamMsg::MIDITracksPress => {
                let action = match self.selected_track_guid {
                    Some(g) => ModeAction::Transition(TransitionRequest::ToReaperSends { selected_track_guid: g }),
                    None => ModeAction::NoAction,
                };
                (action, effects)
            },
            v1m::UpstreamMsg::InputsPress => {
                let action = match self.selected_track_guid {
                    Some(g) => ModeAction::Transition(
                        TransitionRequest::ToReaperChannelStrip { selected_track_guid: g },
                    ),
                    None => ModeAction::NoAction,
                };
                (action, effects)
            },
            v1m::UpstreamMsg::SelectPress(m) => {
                effects.push(VolPanEffect::Surface(
                    v1m::DownstreamMsg::SelectLED(v1m::SelectLEDMsg { idx: m.idx, state: v1m::LEDState::On }),
                ));
                let ghost lit = effects@[0];
                let track = self.core.get_guid_for_hw_channel(m.idx as usize);
                if let Some(g) = track {
                    effects.push(VolPanEffect::SelectTrack(g));
                    assert(effects@ =~= seq![lit, VolPanEffect::SelectTrack(g)]);
                } else {
                    assert(effects@ =~= seq![lit]);
                }
                self.selected_track_guid = track;
                (ModeAction::NoAction, effects)
            },
            v1m::UpstreamMsg::EncoderTurnInc(m) => {
                if let Some(g) = self.core.get_guid_for_hw_channel(m.idx as usize) {
                    let pan = self.pan(g);
                    self.centre_if_new(g);
                    effects.push(VolPanEffect::PanTurn { track_guid: g, idx: m.idx, pan, up: true, accel: m.accel });
                    assert(effects@ =~= seq![
                        VolPanEffect::PanTurn { track_guid: g, idx: m.idx, pan, up: true, accel: m.accel },
                    ]);
                }
                (ModeAction::NoAction, effects)
            },
            v1m::UpstreamMsg::EncoderTurnDec(m) => {
                if let Some(g) = self.core.get_guid_for_hw_channel(m.idx as usize) {
                    let pan = self.pan(g);
                    self.centre_if_new(g);
                    effects.push(VolPanEffect::PanTurn { track_guid: g, idx: m.idx, pan, up: false, accel: m.accel });
                    assert(effects@ =~= seq![
                        VolPanEffect::PanTurn { track_guid: g, idx: m.idx, pan, up: false, accel: m.accel },
                    ]);
                }
                (ModeAction::NoAction, effects)
            },
            _ => {
                match to_core_input(msg) {
                    Some(x) => {
                        let ghost o = *self;
                        let mut ce = self.core.handle_message_from_downstream(x);
                        let ghost ces = ce@;
                        let ghost mut k: int = 0;
                        while ce.len() > 0
                            invariant
                                0 <= k <= ces.len(),
                                ce@ == ces.skip(k),
                                effects@ == as_mode_effects(ces.take(k)),
                            decreases ce.len(),
                        {
                            let e = ce.remove(0);
                            proof {
                                assert(ces.take(k + 1) =~= ces.take(k).push(ces[k]));
                                assert(as_mode_effects(ces.take(k + 1)) =~= as_mode_effects(ces.take(k)).push(
                                    VolPanEffect::Core(ces[k]),
                                ));
                            }
                            effects.push(VolPanEffect::Core(e));
                            proof {
                                k = k + 1;
                                assert(ce@ =~= ces.skip(k));
                            }
                        }
                        assert(ces.take(k) =~= ces);
                        assert(after_press(o.faders(), x, self.faders(), ces));
                    },
                    None => {},
                }
                (ModeAction::NoAction, effects)
            },
        }
    }
}

/// On a channel that shows track `g`, the mute, solo and arm buttons of the V1-M toggle
/// that track's mute, solo and arm state, ask the DAW for it and light the same button's
/// LED on the same channel; the fader sets the track's volume and stays where it was put.
pub proof fn law_strip_buttons_act_on_their_track(
    o: ReaperVolumePanMode,
    idx: i32,
    value: u64,
    g: TrackGuid,
    f: ReaperVolumePanMode,
    action: ModeAction,
    effects: Seq<VolPanEffect>,
)
    requires
        0 <= idx < o.faders().assignments().len(),
        o.faders().assignments()[idx as int] == Some(g),
    ensures
        ({
            let v = known(o.faders().tracks(), g);
            &&& after_surface(o, v1m::UpstreamMsg::MutePress(v1m::MutePress { idx }), f, action, effects) ==> {
                &&& f.faders().tracks() == o.faders().tracks().insert(g, TrackView { mute: !v.mute, ..v })
                &&& effects == seq![
                    VolPanEffect::Core(CoreEffect::SetMuted { track_guid: g, muted: !v.mute }),
                    VolPanEffect::Core(CoreEffect::Surface(
                        xtouch::DownstreamMsg::MuteLED(xtouch::MuteLEDMsg { idx, state: led(!v.mute) }),
                    )),
                ]
            }
            &&& after_surface(o, v1m::UpstreamMsg::SoloPress(v1m::SoloPress { idx }), f, action, effects) ==> {
                &&& f.faders().tracks() == o.faders().tracks().insert(g, TrackView { solo: !v.solo, ..v })
                &&& effects == seq![
                    VolPanEffect::Core(CoreEffect::SetSoloed { track_guid: g, soloed: !v.solo }),
                    VolPanEffect::Core(CoreEffect::Surface(
                        xtouch::DownstreamMsg::SoloLED(xtouch::SoloLEDMsg { idx, state: led(!v.solo) }),
                    )),
                ]
            }
            &&& after_surface(o, v1m::UpstreamMsg::ArmPress(v1m::ArmPress { idx }), f, action, effects) ==> {
                &&& f.faders().tracks() == o.faders().tracks().insert(g, TrackView { arm: !v.arm, ..v })
                &&& effects == seq![
                    VolPanEffect::Core(CoreEffect::SetArmed { track_guid: g, armed: !v.arm }),
                    VolPanEffect::Core(CoreEffect::Surface(
                        xtouch::DownstreamMsg::ArmLED(xtouch::ArmLEDMsg { idx, state: led(!v.arm) }),
                    )),
                ]
            }
            &&& after_surface(
                o,
                v1m::UpstreamMsg::ChannelFader(v1m::ChannelFaderMsg { idx, value }),
                f,
                action,
                effects,
            ) ==> {
                &&& f.faders().tracks() == o.faders().tracks()
                &&& effects == seq![
                    VolPanEffect::Core(CoreEffect::VolumeFromFader { track_guid: g, position: value }),
                    VolPanEffect::Core(CoreEffect::Surface(
                        xtouch::DownstreamMsg::FaderAbs(xtouch::FaderAbsMsg { idx, value }),
                    )),
                ]
            }
        }),
{
    let v = known(o.faders().tracks(), g);
    let msgs = seq![
        v1m::UpstreamMsg::MutePress(v1m::MutePress { idx }),
        v1m::UpstreamMsg::SoloPress(v1m::SoloPress { idx }),
        v1m::UpstreamMsg::ArmPress(v1m::ArmPress { idx }),
        v1m::UpstreamMsg::ChannelFader(v1m::ChannelFaderMsg { idx, value }),
    ];
    assert forall|k: int| 0 <= k < 4 && #[trigger] after_surface(o, msgs[k], f, action, effects) implies
        exists|ce: Seq<CoreEffect>| after_press(o.faders(), core_input(msgs[k])->0, f.faders(), ce)
            && effects =~= seq![VolPanEffect::Core(ce[0]), VolPanEffect::Core(ce[1])] by {
        let x = core_input(msgs[k])->0;
        let ce = choose|ce: Seq<CoreEffect>| #[trigger] after_press(o.faders(), x, f.faders(), ce)
            && effects == as_mode_effects(ce);
        assert(ce.len() == 2);
        assert(effects =~= seq![VolPanEffect::Core(ce[0]), VolPanEffect::Core(ce[1])]);
    }
    assert(msgs[0] == v1m::UpstreamMsg::MutePress(v1m::MutePress { idx }));
    assert(msgs[1] == v1m::UpstreamMsg::SoloPress(v1m::SoloPress { idx }));
    assert(msgs[2] == v1m::UpstreamMsg::ArmPress(v1m::ArmPress { idx }));
    assert(msgs[3] == v1m::UpstreamMsg::ChannelFader(v1m::ChannelFaderMsg { idx, value }));
}

/// On the V1-M, pressing the mute, solo or arm button of a channel that shows a track
/// lights that same button's LED when the state turns on, and puts it out when it turns
/// off.
pub proof fn law_press_lights_its_own_led(
    o: ReaperVolumePanMode,
    idx: i32,
    g: TrackGuid,
    f: ReaperVolumePanMode,
    action: ModeAction,
    effects: Seq<VolPanEffect>,
)
    requires
        0 <= idx < o.faders().assignments().len(),
        o.faders().assignments()[idx as int] == Some(g),
    ensures
        ({
            let v = known(o.faders().tracks(), g);
            &&& after_surface(o, v1m::UpstreamMsg::MutePress(v1m::MutePress { idx }), f, action, effects) ==> (
                effects[1] matches VolPanEffect::Core(CoreEffect::Surface(x))
                && spec_v1m_of_core_msg(x) == Some(v1m::DownstreamMsg::MuteLED(v1m::MuteLEDMsg {
                    idx,
                    state: if v.mute { v1m::LEDState::Off } else { v1m::LEDState::On },
                })))
            &&& after_surface(o, v1m::UpstreamMsg::SoloPress(v1m::SoloPress { idx }), f, action, effects) ==> (
                effects[1] matches VolPanEffect::Core(CoreEffect::Surface(x))
                && spec_v1m_of_core_msg(x) == Some(v1m::DownstreamMsg::SoloLED(v1m::SoloLEDMsg {
                    idx,
                    state: if v.solo { v1m::LEDState::Off } else { v1m::LEDState::On },
                })))
            &&& after_surface(o, v1m::UpstreamMsg::ArmPress(v1m::ArmPress { idx }), f, action, effects) ==> (
                effects[1] matches VolPanEffect::Core(CoreEffect::Surface(x))
                && spec_v1m_of_core_msg(x) == Some(v1m::DownstreamMsg::ArmLED(v1m::ArmLEDMsg {
                    idx,
                    state: if v.arm { v1m::LEDState::Off } else { v1m::LEDState::On },
                })))
        }),
{
    law_strip_buttons_act_on_their_track(o, idx, 0, g, f, action, effects);
}

} // verus!
