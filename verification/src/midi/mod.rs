//! MIDI: the short messages of control surfaces, the surfaces themselves, and tables of
//! callbacks bound to notes and controllers, one table per mode.
use midi_msg::{ChannelVoiceMsg, MidiMsg};
use vstd::prelude::*;

use crate::table::{
    assoc_insert, entry_pos, find_i32, find_u8, has_entry, insert_u8, lemma_assoc_insert_unique,
    lemma_lookup_assoc_insert, lookup, unique_keys,
};

pub mod base;
pub mod compact;
pub mod text;
pub mod v1m;
pub mod xtouch;

verus! {

/// A MIDI message as the callback tables read it.
#[derive(Clone, Copy, Debug, PartialEq, Eq, Structural)]
pub enum MidiEvent {
    NoteOn { channel: u8, note: u8, velocity: u8 },
    ControlChange { channel: u8, control: u8, value: u8 },
    /// Any other message.
    Other,
}

/// What `midi_msg` reads from `bytes`; `None` where it reports an error.
pub uninterp spec fn midi_msg_reading(bytes: Seq<u8>) -> Option<MidiEvent>;

/// Reads one message with `midi_msg::MidiMsg::from_midi` (a fresh receiver context each
/// time, so the result depends on the bytes alone) and keeps what the tables need: the
/// channel number (0 to 15), note and velocity of a Note On, the controller number and
/// 7-bit value of a Control Change (`ControlChange::control` and `::value`); every other
/// message is `Other`, a parse error `None`. What `midi_msg` reads is not restated here.
#[verifier::external_body]
fn read_midi_msg(bytes: &[u8]) -> (r: Option<MidiEvent>)
    ensures
        r == midi_msg_reading(bytes@),
{
    match MidiMsg::from_midi(bytes) {
        Ok((MidiMsg::ChannelVoice { channel, msg }, _)) => Some(match msg {
            ChannelVoiceMsg::NoteOn { note, velocity } => MidiEvent::NoteOn { channel: channel as u8, note, velocity },
            ChannelVoiceMsg::ControlChange { control: c } => MidiEvent::ControlChange {
                channel: channel as u8, control: c.control(), value: c.value() },
            _ => MidiEvent::Other,
        }),
        Ok(_) => Some(MidiEvent::Other),
        Err(_) => None,
    }
}

/// A control-change callback bound to a channel and controller is the one found there;
/// every other channel keeps its controllers, and the channel its other controllers.
pub proof fn law_bind_cc_then_lookup<C>(
    t: Seq<(u8, Seq<(u8, C)>)>,
    channel: u8,
    control: u8,
    callback: C,
    other_channel: u8,
    other_control: u8,
)
    requires
        unique_keys(t),
        forall|i: int| 0 <= i < t.len() ==> unique_keys(#[trigger] t[i].1),
    ensures
        lookup(cc_bound(t, channel, control, callback), channel) matches Some(u) && lookup(u, control)
            == Some(callback),
        other_channel != channel ==> lookup(cc_bound(t, channel, control, callback), other_channel)
            == lookup(t, other_channel),
        other_control != control ==> (lookup(cc_bound(t, channel, control, callback), channel) matches Some(u)
            && lookup(u, other_control) == match lookup(t, channel) {
                Some(v) => lookup(v, other_control),
                None => None,
            }),
{
    let inner = if has_entry(t, channel) {
        t[entry_pos(t, channel)].1
    } else {
        seq![]
    };
    assert(unique_keys(inner)) by {
        if has_entry(t, channel) {
            let p = entry_pos(t, channel);
            assert(unique_keys(t[p].1));
        }
    }
    lemma_lookup_assoc_insert(inner, control, callback);
    lemma_lookup_assoc_insert(t, channel, assoc_insert(inner, control, callback));
    assert(lookup(Seq::<(u8, C)>::empty(), other_control) is None);
}

/// The callbacks of one mode: per channel, one for notes, and per channel and controller,
/// one for control changes.
pub struct Mode<N, C> {
    // channel[control][callback]
    cc_callbacks: Vec<(u8, Vec<(u8, C)>)>,
    note_callbacks: Vec<(u8, N)>,
}

/// The control-change table of a mode, each channel with its controllers.
pub open spec fn cc_view<C>(m: Seq<(u8, Vec<(u8, C)>)>) -> Seq<(u8, Seq<(u8, C)>)> {
    m.map_values(|e: (u8, Vec<(u8, C)>)| (e.0, e.1@))
}

/// The control-change table after `callback` is bound to `control` on `channel`; a
/// channel without an entry gets one.
pub open spec fn cc_bound<C>(t: Seq<(u8, Seq<(u8, C)>)>, channel: u8, control: u8, callback: C) -> Seq<
    (u8, Seq<(u8, C)>),
> {
    let inner = if has_entry(t, channel) {
        t[entry_pos(t, channel)].1
    } else {
        seq![]
    };
    assoc_insert(t, channel, assoc_insert(inner, control, callback))
}

impl<N, C> Mode<N, C> {
    /// Each channel with its note callback.
    pub closed spec fn note_table(&self) -> Seq<(u8, N)> {
        self.note_callbacks@
    }

    /// Each channel with its controllers and their callbacks.
    pub closed spec fn cc_table(&self) -> Seq<(u8, Seq<(u8, C)>)> {
        cc_view(self.cc_callbacks@)
    }

    pub closed spec fn wf(&self) -> bool {
        &&& unique_keys(self.note_callbacks@)
        &&& unique_keys(self.cc_table())
        &&& forall|i: int|
            0 <= i < self.cc_callbacks@.len() ==> unique_keys(#[trigger] self.cc_callbacks@[i].1@)
    }

    pub fn new() -> (r: Mode<N, C>)
        ensures
            r.wf(),
            r.note_table() == Seq::<(u8, N)>::empty(),
            r.cc_table() == Seq::<(u8, Seq<(u8, C)>)>::empty(),
    {
        let r = Mode { cc_callbacks: Vec::new(), note_callbacks: Vec::new() };
        assert(r.cc_table() =~= Seq::<(u8, Seq<(u8, C)>)>::empty());
        r
    }

    /// Bind `callback` to the notes of `channel`, replacing the one it had.
    pub fn bind_note(&mut self, channel: u8, callback: N)
        requires
            old(self).wf(),
        ensures
            final(self).wf(),
            final(self).note_table() == assoc_insert(old(self).note_table(), channel, callback),
            final(self).cc_table() == old(self).cc_table(),
    {
        insert_u8(&mut self.note_callbacks, channel, callback);
    }

    /// Bind `callback` to `control` on `channel`; a channel without controllers yet gets
    /// a table of its own.
    pub fn bind_cc(&mut self, channel: u8, control: u8, callback: C)
        requires
            old(self).wf(),
        ensures
            final(self).wf(),
            final(self).cc_table() == cc_bound(old(self).cc_table(), channel, control, callback),
            final(self).note_table() == old(self).note_table(),
    {
        let ghost t = self.cc_table();
        proof {
            assert forall|i: int, j: int|
                0 <= i < j < self.cc_callbacks@.len() implies #[trigger] self.cc_callbacks@[i].0
                != #[trigger] self.cc_callbacks@[j].0 by {
                assert(t[i].0 == self.cc_callbacks@[i].0 && t[j].0 == self.cc_callbacks@[j].0);
            }
        }
        match find_u8(&self.cc_callbacks, channel) {
            Some(j) => {
                proof {
                    assert(t[j as int].0 == channel);
                    assert(has_entry(t, channel));
                    let p = entry_pos(t, channel);
                    assert(t[p].0 == self.cc_callbacks@[p].0);
                    if p != j {
                        if p < j {
                            assert(t[p].0 != t[j as int].0);
                        } else {
                            assert(t[j as int].0 != t[p].0);
                        }
                    }
                }
                let mut chan: Vec<(u8, C)> = Vec::new();
                std::mem::swap(&mut chan, &mut self.cc_callbacks[j].1);
                assert(chan@ == t[j as int].1);
                insert_u8(&mut chan, control, callback);
                let ghost inner = chan@;
                self.cc_callbacks.set(j, (channel, chan));
                proof {
                    lemma_assoc_insert_unique(t, channel, inner);
                    assert(self.cc_table() =~= cc_bound(t, channel, control, callback));
                }
            },
            None => {
                proof {
                    if has_entry(t, channel) {
                        let p = entry_pos(t, channel);
                        assert(self.cc_callbacks@[p].0 == t[p].0);
                    }
                }
                let ghost outer = self.cc_callbacks@;
                let mut chan: Vec<(u8, C)> = Vec::new();
                chan.push((control, callback));
                let ghost inner = chan@;
                self.cc_callbacks.push((channel, chan));
                proof {
                    assert(inner =~= assoc_insert(Seq::<(u8, C)>::empty(), control, callback));
                    lemma_assoc_insert_unique(t, channel, inner);
                    assert(self.cc_table() =~= cc_bound(t, channel, control, callback));
                    assert forall|i: int| 0 <= i < self.cc_callbacks@.len() implies unique_keys(
                        #[trigger] self.cc_callbacks@[i].1@,
                    ) by {
                        if i < outer.len() {
                            assert(self.cc_callbacks@[i] == outer[i]);
                        }
                    }
                }
            },
        }
    }
}

impl<N: Fn(u8, u8) -> Result<(), String>, C> Mode<N, C> {
    /// Call the note callback of `channel` with the note and its velocity; an error where
    /// the channel has none.
    pub fn call_note(&self, channel: u8, note: u8, velocity: u8) -> (r: Result<(), String>)
        requires
            self.wf(),
            lookup(self.note_table(), channel) matches Some(f) ==> f.requires((note, velocity)),
        ensures
            match lookup(self.note_table(), channel) {
                Some(f) => f.ensures((note, velocity), r),
                None => r matches Err(e) && e@ == "Not implemented"@,
            },
    {
        match find_u8(&self.note_callbacks, channel) {
            Some(j) => (self.note_callbacks[j].1)(note, velocity),
            None => Err("Not implemented".to_string()),
        }
    }
}

impl<N, C: Fn(u8) -> Result<(), String>> Mode<N, C> {
    /// Call the callback of `control` on `channel` with the value; an error where there
    /// is none.
    pub fn call_cc(&self, channel: u8, control: u8, value: u8) -> (r: Result<(), String>)
        requires
            self.wf(),
            lookup(self.cc_table(), channel) matches Some(t) ==> (lookup(t, control) matches Some(
                f,
            ) ==> f.requires((value,))),
        ensures
            match lookup(self.cc_table(), channel) {
                Some(t) => match lookup(t, control) {
                    Some(f) => f.ensures((value,), r),
                    None => r matches Err(e) && e@ == "Not implemented"@,
                },
                None => r matches Err(e) && e@ == "Not implemented"@,
            },
    {
        let ghost t = self.cc_table();
        proof {
            assert forall|i: int, j: int|
                0 <= i < j < self.cc_callbacks@.len() implies #[trigger] self.cc_callbacks@[i].0
                != #[trigger] self.cc_callbacks@[j].0 by {
                assert(t[i].0 == self.cc_callbacks@[i].0 && t[j].0 == self.cc_callbacks@[j].0);
            }
        }
        match find_u8(&self.cc_callbacks, channel) {
            Some(j) => {
                proof {
                    assert(t[j as int].0 == channel);
                    let p = entry_pos(t, channel);
                    if p != j {
                        if p < j {
                            assert(t[p].0 != t[j as int].0);
                        } else {
                            assert(t[j as int].0 != t[p].0);
                        }
                    }
                }
                let chan = &self.cc_callbacks[j].1;
                assert(unique_keys(chan@));
                match find_u8(chan, control) {
                    Some(k) => (chan[k].1)(value),
                    None => Err("Not implemented".to_string()),
                }
            },
            None => {
                proof {
                    if has_entry(t, channel) {
                        let p = entry_pos(t, channel);
                        assert(self.cc_callbacks@[p].0 == t[p].0);
                    }
                }
                Err("Not implemented".to_string())
            },
        }
    }
}

/// The control-change table of `mode`, empty where the mode has none.
pub open spec fn cc_of<N, C>(modes: Seq<(i32, Mode<N, C>)>, mode: i32) -> Seq<(u8, Seq<(u8, C)>)> {
    match lookup(modes, mode) {
        Some(m) => m.cc_table(),
        None => seq![],
    }
}

/// The note table of `mode`, empty where the mode has none.
pub open spec fn notes_of<N, C>(modes: Seq<(i32, Mode<N, C>)>, mode: i32) -> Seq<(u8, N)> {
    match lookup(modes, mode) {
        Some(m) => m.note_table(),
        None => seq![],
    }
}

/// The callback tables of every mode, by mode number. Which mode is current is kept by
/// the caller and handed to each call.
pub struct ModeManager<N, C> {
    modes: Vec<(i32, Mode<N, C>)>,
}

impl<N, C> ModeManager<N, C> {
    /// Each mode number with its tables.
    pub closed spec fn modes(&self) -> Seq<(i32, Mode<N, C>)> {
        self.modes@
    }

    pub closed spec fn wf(&self) -> bool {
        &&& unique_keys(self.modes@)
        &&& forall|i: int| 0 <= i < self.modes@.len() ==> (#[trigger] self.modes@[i]).1.wf()
    }

    /// Whether `mode` has tables.
    pub fn has_mode(&self, mode: i32) -> (r: bool)
        requires
            self.wf(),
        ensures
            r == has_entry(self.modes(), mode),
    {
        find_i32(&self.modes, mode).is_some()
    }

    /// A manager with mode 0, which has no callbacks yet.
    pub fn new() -> (r: Self)
        ensures
            r.wf(),
            r.modes().len() == 1,
            r.modes()[0].0 == 0,
            r.modes()[0].1.note_table().len() == 0,
            r.modes()[0].1.cc_table().len() == 0,
    {
        let mut modes: Vec<(i32, Mode<N, C>)> = Vec::new();
        modes.push((0, Mode::new()));
        ModeManager { modes }
    }

    /// The mode `mode`, taken out of its slot `j` (which keeps an empty mode), or a new
    /// empty mode and the slot it was pushed to.
    fn take_mode(&mut self, mode: i32) -> (r: (usize, Mode<N, C>))
        requires
            old(self).wf(),
        ensures
            final(self).wf(),
            r.0 < final(self).modes().len(),
            r.1.wf(),
            r.1.cc_table() == cc_of(old(self).modes(), mode),
            r.1.note_table() == notes_of(old(self).modes(), mode),
            final(self).modes()[r.0 as int].0 == mode,
            final(self).modes().len() >= old(self).modes().len(),
            forall|i: int|
                0 <= i < final(self).modes().len() && i != r.0 ==> final(self).modes()[i] == (
                if i < old(self).modes().len() {
                    old(self).modes()[i]
                } else {
                    final(self).modes()[i]
                }),
            has_entry(old(self).modes(), mode) ==> r.0 as int == entry_pos(old(self).modes(), mode)
                && final(self).modes().len() == old(self).modes().len(),
            !has_entry(old(self).modes(), mode) ==> r.0 == old(self).modes().len()
                && final(self).modes().len() == old(self).modes().len() + 1,
    {
        match find_i32(&self.modes, mode) {
            Some(j) => {
                let mut m = Mode::new();
                std::mem::swap(&mut m, &mut self.modes[j].1);
                proof {
                    assert(old(self).modes()[j as int].1.wf());
                    assert forall|i: int| 0 <= i < self.modes@.len() implies (
                    #[trigger] self.modes@[i]).1.wf() by {
                        if i != j {
                            assert(self.modes@[i] == old(self).modes()[i]);
                        }
                    }
                }
                (j, m)
            },
            None => {
                self.modes.push((mode, Mode::new()));
                proof {
                    assert forall|i: int, k: int|
                        0 <= i < k < self.modes@.len() implies #[trigger] self.modes@[i].0
                        != #[trigger] self.modes@[k].0 by {
                        if k == old(self).modes().len() {
                            assert(self.modes@[i] == old(self).modes()[i]);
                        }
                    }
                    assert forall|i: int| 0 <= i < self.modes@.len() implies (
                    #[trigger] self.modes@[i]).1.wf() by {
                        if i < old(self).modes().len() {
                            assert(self.modes@[i] == old(self).modes()[i]);
                        }
                    }
                }
                (self.modes.len() - 1, Mode::new())
            },
        }
    }

    /// Put mode `m` back in slot `j`.
    fn put_mode(&mut self, j: usize, mode: i32, m: Mode<N, C>, Ghost(before): Ghost<Seq<(i32, Mode<N, C>)>>)
        requires
            unique_keys(before),
            forall|i: int| 0 <= i < before.len() ==> (#[trigger] before[i]).1.wf(),
            m.wf(),
            j < old(self).modes().len(),
            old(self).modes().len() == assoc_insert(before, mode, m).len(),
            old(self).modes()[j as int].0 == mode,
            has_entry(before, mode) ==> j as int == entry_pos(before, mode),
            !has_entry(before, mode) ==> j == before.len(),
            forall|i: int|
                0 <= i < old(self).modes().len() && i != j ==> old(self).modes()[i] == before[i],
        ensures
            final(self).modes() == assoc_insert(before, mode, m),
            final(self).wf(),
    {
        self.modes.set(j, (mode, m));
        proof {
            lemma_assoc_insert_unique(before, mode, m);
            assert(self.modes@ =~= assoc_insert(before, mode, m));
            let r = assoc_insert(before, mode, m);
            assert forall|i: int| 0 <= i < r.len() implies (#[trigger] r[i]).1.wf() by {
                if i != j {
                    assert(r[i] == before[i]);
                }
            }
        }
    }

    /// Bind `callback` to `control` on `channel` in `mode`, which is made if it is missing.
    pub fn bind_cc(&mut self, mode: i32, channel: u8, control: u8, callback: C)
        requires
            old(self).wf(),
        ensures
            final(self).wf(),
            cc_of(final(self).modes(), mode) == cc_bound(
                cc_of(old(self).modes(), mode),
                channel,
                control,
                callback,
            ),
            notes_of(final(self).modes(), mode) == notes_of(old(self).modes(), mode),
            forall|k: i32| k != mode ==> #[trigger] lookup(final(self).modes(), k) == lookup(old(self).modes(), k),
    {
        let ghost before = self.modes@;
        let (j, mut m) = self.take_mode(mode);
        m.bind_cc(channel, control, callback);
        let ghost mm = m;
        self.put_mode(j, mode, m, Ghost(before));
        proof {
            lemma_lookup_assoc_insert(before, mode, mm);
        }
    }

    /// Bind `callback` to the notes of `channel` in `mode`, which is made if it is missing.
    pub fn bind_note(&mut self, mode: i32, channel: u8, callback: N)
        requires
            old(self).wf(),
        ensures
            final(self).wf(),
            notes_of(final(self).modes(), mode) == assoc_insert(
                notes_of(old(self).modes(), mode),
                channel,
                callback,
            ),
            cc_of(final(self).modes(), mode) == cc_of(old(self).modes(), mode),
            forall|k: i32| k != mode ==> #[trigger] lookup(final(self).modes(), k) == lookup(old(self).modes(), k),
    {
        let ghost before = self.modes@;
        let (j, mut m) = self.take_mode(mode);
        m.bind_note(channel, callback);
        let ghost mm = m;
        self.put_mode(j, mode, m, Ghost(before));
        proof {
            lemma_lookup_assoc_insert(before, mode, mm);
        }
    }
}

impl<N, C: Fn(u8) -> Result<(), String>> ModeManager<N, C> {
    /// Call the callback of `control` on `channel` in the current mode.
    pub fn call_cc(&self, curr_mode: i32, channel: u8, control: u8, value: u8) -> (r: Result<(), String>)
        requires
            self.wf(),
            has_entry(self.modes(), curr_mode),
            lookup(cc_of(self.modes(), curr_mode), channel) matches Some(t) ==> (lookup(
                t,
                control,
            ) matches Some(f) ==> f.requires((value,))),
        ensures
            match lookup(cc_of(self.modes(), curr_mode), channel) {
                Some(t) => match lookup(t, control) {
                    Some(f) => f.ensures((value,), r),
                    None => r matches Err(e) && e@ == "Not implemented"@,
                },
                None => r matches Err(e) && e@ == "Not implemented"@,
            },
    {
        let j = find_i32(&self.modes, curr_mode).unwrap();
        assert(self.modes@[j as int].1.wf());
        self.modes[j].1.call_cc(channel, control, value)
    }
}

impl<N: Fn(u8, u8) -> Result<(), String>, C> ModeManager<N, C> {
    /// Call the note callback of `channel` in the current mode.
    pub fn call_note(&self, curr_mode: i32, channel: u8, note: u8, velocity: u8) -> (r: Result<
        (),
        String,
    >)
        requires
            self.wf(),
            has_entry(self.modes(), curr_mode),
            lookup(notes_of(self.modes(), curr_mode), channel) matches Some(f) ==> f.requires(
                (note, velocity),
            ),
        ensures
            match lookup(notes_of(self.modes(), curr_mode), channel) {
                Some(f) => f.ensures((note, velocity), r),
                None => r matches Err(e) && e@ == "Not implemented"@,
            },
    {
        let j = find_i32(&self.modes, curr_mode).unwrap();
        assert(self.modes@[j as int].1.wf());
        self.modes[j].1.call_note(channel, note, velocity)
    }
}

/// Whether the callbacks of `mode` can take what `event` hands them.
pub open spec fn callable<N: Fn(u8, u8) -> Result<(), String>, C: Fn(u8) -> Result<(), String>>(
    modes: Seq<(i32, Mode<N, C>)>,
    mode: i32,
    event: MidiEvent,
) -> bool {
    match event {
        MidiEvent::NoteOn { channel, note, velocity } => lookup(notes_of(modes, mode), channel) matches Some(
            f,
        ) ==> f.requires((note, velocity)),
        MidiEvent::ControlChange { channel, control, value } => lookup(cc_of(modes, mode), channel) matches Some(
            t,
        ) ==> (lookup(t, control) matches Some(f) ==> f.requires((value,))),
        MidiEvent::Other => true,
    }
}

/// Whether every callback of `mode` takes any note and velocity, or any value.
pub open spec fn all_callable<N: Fn(u8, u8) -> Result<(), String>, C: Fn(u8) -> Result<(), String>>(
    modes: Seq<(i32, Mode<N, C>)>,
    mode: i32,
) -> bool {
    &&& forall|i: int, a: u8, b: u8|
        0 <= i < notes_of(modes, mode).len() ==> #[trigger] notes_of(modes, mode)[i].1.requires((a, b))
    &&& forall|i: int, j: int, v: u8|
        0 <= i < cc_of(modes, mode).len() && 0 <= j < cc_of(modes, mode)[i].1.len()
            ==> #[trigger] cc_of(modes, mode)[i].1[j].1.requires((v,))
}

/// What the current mode's callbacks make of `event`: the Note On callback of its channel,
/// or the callback of its channel and controller, or "Not implemented" where there is none.
pub open spec fn handled<N: Fn(u8, u8) -> Result<(), String>, C: Fn(u8) -> Result<(), String>>(
    modes: Seq<(i32, Mode<N, C>)>,
    mode: i32,
    event: MidiEvent,
    r: Result<(), String>,
) -> bool {
    match event {
        MidiEvent::NoteOn { channel, note, velocity } => match lookup(notes_of(modes, mode), channel) {
            Some(f) => f.ensures((note, velocity), r),
            None => r matches Err(e) && e@ == "Not implemented"@,
        },
        MidiEvent::ControlChange { channel, control, value } => match lookup(cc_of(modes, mode), channel) {
            Some(t) => match lookup(t, control) {
                Some(f) => f.ensures((value,), r),
                None => r matches Err(e) && e@ == "Not implemented"@,
            },
            None => r matches Err(e) && e@ == "Not implemented"@,
        },
        MidiEvent::Other => false,
    }
}

impl<N: Fn(u8, u8) -> Result<(), String>, C: Fn(u8) -> Result<(), String>> ModeManager<N, C> {
    /// Hand a Note On or a Control Change to the current mode's callbacks. The message
    /// must read as one of those two.
    pub fn run(&self, curr_mode: i32, message: &[u8]) -> (r: Result<(), String>)
        requires
            self.wf(),
            has_entry(self.modes(), curr_mode),
            midi_msg_reading(message@) matches Some(e) && !(e is Other) && callable(
                self.modes(),
                curr_mode,
                e,
            ),
        ensures
            handled(self.modes(), curr_mode, midi_msg_reading(message@).unwrap(), r),
    {
        match read_midi_msg(message) {
            Some(MidiEvent::NoteOn { channel, note, velocity }) => self.call_note(
                curr_mode,
                channel,
                note,
                velocity,
            ),
            Some(MidiEvent::ControlChange { channel, control, value }) => self.call_cc(
                curr_mode,
                channel,
                control,
                value,
            ),
            _ => Err("Not implemented".to_string()),
        }
    }

    /// Like `run`, for any message: `None`, with no callback called, where the message
    /// does not read as a Note On or a Control Change.
    pub fn try_run(&self, curr_mode: i32, message: &[u8]) -> (r: Option<Result<(), String>>)
        requires
            self.wf(),
            has_entry(self.modes(), curr_mode),
            all_callable(self.modes(), curr_mode),
        ensures
            match midi_msg_reading(message@) {
                Some(e) => if e is Other {
                    r is None
                } else {
                    r matches Some(res) && handled(self.modes(), curr_mode, e, res)
                },
                None => r is None,
            },
    {
        match read_midi_msg(message) {
            Some(MidiEvent::Other) | None => None,
            Some(e) => {
                proof {
                    let modes = self.modes();
                    match e {
                        MidiEvent::NoteOn { channel, note, velocity } => {
                            let t = notes_of(modes, curr_mode);
                            if has_entry(t, channel) {
                                let p = entry_pos(t, channel);
                                assert(t[p].1.requires((note, velocity)));
                            }
                        },
                        MidiEvent::ControlChange { channel, control, value } => {
                            let t = cc_of(modes, curr_mode);
                            if has_entry(t, channel) {
                                let p = entry_pos(t, channel);
                                let u = t[p].1;
                                if has_entry(u, control) {
                                    let q = entry_pos(u, control);
                                    assert(t[p].1[q].1.requires((value,)));
                                }
                            }
                        },
                        MidiEvent::Other => {},
                    }
                }
                Some(self.run(curr_mode, message))
            },
        }
    }
}

} // verus!
