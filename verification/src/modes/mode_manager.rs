//! Mode transitions between the DAW upstream and the control surface downstream.
//!
//! The manager forwards messages in both directions while a mode is active. A mode
//! transition is fenced by a barrier: the barrier is sent upstream, everything that comes
//! back before it is coalesced, and once it has been reflected all the way down and back
//! up the new mode becomes active.
use vstd::prelude::*;

use crate::midi::v1m;
use crate::modes::coalesce::{model_push, slots_agree, OrderedCoalescingBuffer};
use crate::modes::guid::TrackGuid;

verus! {

/// A synchronization barrier to allow us to ensure that all data relevant to some mode transition
/// is processed before we continue forwarding messages.
///
/// Barriers are unique: each is drawn from a counter that moves on by one per barrier.
#[derive(Clone, Copy, PartialEq, Eq, Debug, Structural)]
pub struct Barrier {
    id: u64,
}

/// The counter after one barrier has been drawn from it.
pub open spec fn next_id(n: u64) -> u64 {
    if n < u64::MAX {
        (n + 1) as u64
    } else {
        0
    }
}

impl Barrier {
    /// Generate a new barrier with the ID `*counter`, and move the counter on.
    pub fn new(counter: &mut u64) -> (r: Self)
        ensures
            r.id() == *old(counter),
            *final(counter) == next_id(*old(counter)),
    {
        let id = *counter;
        *counter = counter.wrapping_add(1);
        proof {
            if id < u64::MAX {
                assert(*counter == id + 1);
            }
        }
        Barrier { id }
    }

    pub closed spec fn id(&self) -> u64 {
        self.id
    }
}

/// Represents state of mode manager: mostly whether we are in a mode transition.
#[derive(Clone, Copy, PartialEq, Eq, Debug, Structural)]
pub enum State {
    // Normal operation: forward messages in both directions
    Active,
    // Waiting from messages from upstream to be passed all the way downstream
    WaitingBarrierFromUpstream { barrier: Barrier },
    // All messages from upstream have been passed downward; waiting for downstream to confirm all
    // messages have been applied
    WaitingBarrierFromDownstream { barrier: Barrier },
}

/// Represents the various control modes supported.
#[derive(Clone, Copy, PartialEq, Eq, Debug, Structural)]
pub enum Mode {
    ReaperVolPan,
    ReaperSends,
    ReaperChannelStrip,
    MotuVolPan,
}

#[derive(Clone, Copy, PartialEq, Eq, Debug, Structural)]
pub enum TransitionRequest {
    ToReaperVolumePan { selected_track_guid: Option<TrackGuid> },
    ToReaperSends { selected_track_guid: TrackGuid },
    ToReaperChannelStrip { selected_track_guid: TrackGuid },
}

#[derive(Clone, Copy, PartialEq, Eq, Debug, Structural)]
pub enum ModeAction {
    NoAction,
    Transition(TransitionRequest),
}

/// What the mode manager itself asks of the DAW.
#[derive(Clone, Copy, PartialEq, Eq, Debug, Structural)]
pub enum ManagerRequest {
    /// Ask for every track's state to be sent again.
    QueryAll,
    /// Send this barrier back once everything asked for before it has been sent.
    Barrier(Barrier),
}

/// A sink for messages bound for the control surface.
pub trait ToV1m {
    /// Every message handed to this sink so far, oldest first.
    spec fn handed_to_v1m(&self) -> Seq<v1m::DownstreamMsg>;

    fn send_to_v1m(&mut self, msg: v1m::DownstreamMsg)
        ensures
            final(self).handed_to_v1m() == old(self).handed_to_v1m().push(msg),
    ;
}

/// A list of messages collects what is sent to it.
impl ToV1m for Vec<v1m::DownstreamMsg> {
    open spec fn handed_to_v1m(&self) -> Seq<v1m::DownstreamMsg> {
        self@
    }

    fn send_to_v1m(&mut self, msg: v1m::DownstreamMsg) {
        self.push(msg);
    }
}

/// The output a mode writes to while it handles a message from upstream.
pub trait UpstreamIo: ToV1m {
}

/// The part of a message for the top scribble strips that goes into a batch of them.
pub open spec fn top_part(m: v1m::DownstreamMsg) -> Option<v1m::TopScribbleStripMsg> {
    match m {
        v1m::DownstreamMsg::TopScribbleStripLine1Text(x) => Some(v1m::TopScribbleStripMsg::Line1Text(x)),
        v1m::DownstreamMsg::TopScribbleStripLine2Text(x) => Some(v1m::TopScribbleStripMsg::Line2Text(x)),
        v1m::DownstreamMsg::TopScribbleStripBackgroundColor(x) => Some(
            v1m::TopScribbleStripMsg::BackgroundColor(x),
        ),
        _ => None,
    }
}

/// The part of a message for the bottom scribble strips that goes into a batch of them.
pub open spec fn bottom_part(m: v1m::DownstreamMsg) -> Option<v1m::BottomScribbleStripMsg> {
    match m {
        v1m::DownstreamMsg::BottomScribbleStripLine1Text(x) => Some(v1m::BottomScribbleStripMsg::Line1Text(x)),
        v1m::DownstreamMsg::BottomScribbleStripLine2Text(x) => Some(v1m::BottomScribbleStripMsg::Line2Text(x)),
        _ => None,
    }
}

/// The messages of `msgs` for neither kind of scribble strip, in order.
pub open spec fn others_of(msgs: Seq<v1m::DownstreamMsg>) -> Seq<v1m::DownstreamMsg>
    decreases msgs.len(),
{
    if msgs.len() == 0 {
        Seq::empty()
    } else {
        let rest = others_of(msgs.drop_last());
        if top_part(msgs.last()) is None && bottom_part(msgs.last()) is None {
            rest.push(msgs.last())
        } else {
            rest
        }
    }
}

/// The top scribble strip parts of `msgs`, in order.
pub open spec fn tops_of(msgs: Seq<v1m::DownstreamMsg>) -> Seq<v1m::TopScribbleStripMsg>
    decreases msgs.len(),
{
    if msgs.len() == 0 {
        Seq::empty()
    } else {
        let rest = tops_of(msgs.drop_last());
        match top_part(msgs.last()) {
            Some(t) => rest.push(t),
            None => rest,
        }
    }
}

/// The bottom scribble strip parts of `msgs`, in order.
pub open spec fn bottoms_of(msgs: Seq<v1m::DownstreamMsg>) -> Seq<v1m::BottomScribbleStripMsg>
    decreases msgs.len(),
{
    if msgs.len() == 0 {
        Seq::empty()
    } else {
        let rest = bottoms_of(msgs.drop_last());
        match bottom_part(msgs.last()) {
            Some(b) => rest.push(b),
            None => rest,
        }
    }
}

/// Whether `after` is `before` followed by a flush of `msgs`: the messages for neither
/// scribble strip in order, then a batch of the top strip parts if there are any, then a
/// batch of the bottom strip parts if there are any.
pub open spec fn flushed_as_batches(
    before: Seq<v1m::DownstreamMsg>,
    msgs: Seq<v1m::DownstreamMsg>,
    after: Seq<v1m::DownstreamMsg>,
) -> bool {
    let n: int = (before.len() + others_of(msgs).len()) as int;
    let t: int = if tops_of(msgs).len() > 0 { 1 } else { 0 };
    let b: int = if bottoms_of(msgs).len() > 0 { 1 } else { 0 };
    &&& after.len() == n + t + b
    &&& after.subrange(0, n) == before + others_of(msgs)
    &&& t == 1 ==> (after[n] matches v1m::DownstreamMsg::TopScribbleStripBatch(v) && v@ == tops_of(msgs))
    &&& b == 1 ==> (after[n + t] matches v1m::DownstreamMsg::BottomScribbleStripBatch(v) && v@ == bottoms_of(msgs))
}

/// Output that holds messages for the control surface back, coalesced by address, until
/// they are flushed.
pub struct IoCoalescing {
    to_v1m_buffer: OrderedCoalescingBuffer<v1m::DownstreamMsg>,
    handed: Ghost<Seq<v1m::DownstreamMsg>>,
}

impl IoCoalescing {
    #[verifier::type_invariant]
    closed spec fn inv(self) -> bool {
        self.to_v1m_buffer.wf()
    }

    /// The messages held back, in the order a flush sends them.
    pub closed spec fn pending(&self) -> Seq<v1m::DownstreamMsg> {
        self.to_v1m_buffer.pending()
    }

    /// Where in `pending` the message of each address seen since the last flush stands.
    pub closed spec fn pending_slots(&self) -> Map<v1m::DownstreamKey, int> {
        self.to_v1m_buffer.key_slots()
    }

    pub fn new() -> (r: Self)
        ensures
            r.pending() == Seq::<v1m::DownstreamMsg>::empty(),
            r.pending_slots() == Map::<v1m::DownstreamKey, int>::empty(),
            r.handed_to_v1m() == Seq::<v1m::DownstreamMsg>::empty(),
    {
        IoCoalescing { to_v1m_buffer: OrderedCoalescingBuffer::new(), handed: Ghost(Seq::empty()) }
    }

    /// Send everything held back to `out` and hold nothing back any more. Messages for
    /// the scribble strips go out gathered: everything else first, in order, then one
    /// batch of the top strips' messages and one of the bottom strips', each in order and
    /// each only where there is something to send.
    pub fn flush_into<O: ToV1m>(&mut self, out: &mut O)
        ensures
            flushed_as_batches(old(out).handed_to_v1m(), old(self).pending(), final(out).handed_to_v1m()),
            final(self).pending() == Seq::<v1m::DownstreamMsg>::empty(),
            final(self).pending_slots() == Map::<v1m::DownstreamKey, int>::empty(),
            final(self).handed_to_v1m() == old(self).handed_to_v1m(),
    {
        proof {
            use_type_invariant(&*self);
        }
        let mut buffer = OrderedCoalescingBuffer::new();
        std::mem::swap(&mut buffer, &mut self.to_v1m_buffer);
        let mut drained = buffer.drain();
        self.to_v1m_buffer = buffer;
        let ghost msgs = drained@;
        let ghost start = out.handed_to_v1m();
        let mut tops: Vec<v1m::TopScribbleStripMsg> = Vec::new();
        let mut bottoms: Vec<v1m::BottomScribbleStripMsg> = Vec::new();
        let ghost mut k: int = 0;
        while drained.len() > 0
            invariant
                0 <= k <= msgs.len(),
                drained@ == msgs.skip(k),
                out.handed_to_v1m() == start + others_of(msgs.take(k)),
                tops@ == tops_of(msgs.take(k)),
                bottoms@ == bottoms_of(msgs.take(k)),
            decreases drained.len(),
        {
            let m = drained.remove(0);
            proof {
                assert(msgs.take(k + 1).drop_last() =~= msgs.take(k));
                assert(msgs.take(k + 1).last() == m);
                assert(drained@ =~= msgs.skip(k + 1));
            }
            match m {
                v1m::DownstreamMsg::TopScribbleStripLine1Text(x) => tops.push(v1m::TopScribbleStripMsg::Line1Text(x)),
                v1m::DownstreamMsg::TopScribbleStripLine2Text(x) => tops.push(v1m::TopScribbleStripMsg::Line2Text(x)),
                v1m::DownstreamMsg::TopScribbleStripBackgroundColor(x) => tops.push(
                    v1m::TopScribbleStripMsg::BackgroundColor(x),
                ),
                v1m::DownstreamMsg::BottomScribbleStripLine1Text(x) => bottoms.push(
                    v1m::BottomScribbleStripMsg::Line1Text(x),
                ),
                v1m::DownstreamMsg::BottomScribbleStripLine2Text(x) => bottoms.push(
                    v1m::BottomScribbleStripMsg::Line2Text(x),
                ),
                other => out.send_to_v1m(other),
            }
            proof {
                k = k + 1;
            }
        }
        proof {
            assert(msgs.take(k) =~= msgs);
        }
        let ghost mid = out.handed_to_v1m();
        if tops.len() > 0 {
            out.send_to_v1m(v1m::DownstreamMsg::TopScribbleStripBatch(tops));
        }
        let ghost after_tops = out.handed_to_v1m();
        if bottoms.len() > 0 {
            out.send_to_v1m(v1m::DownstreamMsg::BottomScribbleStripBatch(bottoms));
        }
        proof {
            let h = out.handed_to_v1m();
            let n: int = (start.len() + others_of(msgs).len()) as int;
            assert(h.subrange(0, n) =~= mid);
        }
    }
}

impl ToV1m for IoCoalescing {
    closed spec fn handed_to_v1m(&self) -> Seq<v1m::DownstreamMsg> {
        self.handed@
    }

    fn send_to_v1m(&mut self, msg: v1m::DownstreamMsg)
        ensures
            (final(self).pending(), final(self).pending_slots()) == model_push(
                old(self).pending(),
                old(self).pending_slots(),
                msg,
            ),
            slots_agree(final(self).pending(), final(self).pending_slots()),
    {
        proof {
            use_type_invariant(&*self);
            v1m::lemma_downstream_merge_keeps_key();
        }
        let ghost m = msg;
        let mut buffer = OrderedCoalescingBuffer::new();
        std::mem::swap(&mut buffer, &mut self.to_v1m_buffer);
        buffer.push(msg);
        self.to_v1m_buffer = buffer;
        self.handed = Ghost(self.handed@.push(m));
    }
}

impl UpstreamIo for IoCoalescing {
}

impl UpstreamIo for Vec<v1m::DownstreamMsg> {
}

/// What to do with a message that arrived from upstream.
#[derive(Clone, Copy, PartialEq, Eq, Debug, Structural)]
pub enum UpstreamRoute {
    /// Hand it to the active mode, whose output goes straight out; apply the action the
    /// mode returns.
    HandleDirect,
    /// Hand it to the mode with its output coalesced; the mode's action is ignored.
    HandleCoalesced,
    /// Flush everything coalesced downstream, then send this barrier downstream.
    FlushThenReflect(Barrier),
    /// Send this barrier downstream as it is.
    ForwardBarrier(Barrier),
}

/// What to do with a message that arrived from downstream.
#[derive(Clone, Copy, PartialEq, Eq, Debug, Structural)]
pub enum DownstreamRoute {
    /// Hand it to the active mode and apply the action the mode returns.
    HandleDirect,
    /// Drop it.
    Discard,
}

/// The state after a message from upstream, which is a barrier or not, and what to do
/// with it.
pub open spec fn upstream_step(state: State, barrier: Option<Barrier>) -> (State, UpstreamRoute) {
    match state {
        State::Active => (state, UpstreamRoute::HandleDirect),
        State::WaitingBarrierFromUpstream { barrier: expected } => match barrier {
            Some(b) => if b == expected {
                (State::WaitingBarrierFromDownstream { barrier: b }, UpstreamRoute::FlushThenReflect(b))
            } else {
                (state, UpstreamRoute::ForwardBarrier(b))
            },
            None => (state, UpstreamRoute::HandleCoalesced),
        },
        // Upstream is not read while waiting for downstream; should a message come in
        // anyway, it is handled as a coalesced one.
        State::WaitingBarrierFromDownstream { .. } => (state, UpstreamRoute::HandleCoalesced),
    }
}

/// The state after a message from downstream, which is a barrier or not, and what to do
/// with it.
pub open spec fn downstream_step(state: State, barrier: Option<Barrier>) -> (State, DownstreamRoute) {
    match state {
        State::Active => (state, DownstreamRoute::HandleDirect),
        State::WaitingBarrierFromUpstream { .. } => (state, DownstreamRoute::Discard),
        State::WaitingBarrierFromDownstream { barrier: expected } => if barrier == Some(expected) {
            (State::Active, DownstreamRoute::Discard)
        } else {
            (state, DownstreamRoute::Discard)
        },
    }
}

/// The decision part of the mode manager: its state, the counter barriers are drawn
/// from, and how each message and each action of the active mode moves it.
pub struct ModeManagerCore {
    pub curr_state: State,
    pub next_barrier_id: u64,
    pub drawn: Ghost<Set<u64>>,
}

/// Whether `f` is `o` after barrier `b` was drawn for a transition.
pub open spec fn drew_barrier(o: ModeManagerCore, f: ModeManagerCore, b: Barrier) -> bool {
    &&& b.id() == o.next_barrier_id()
    &&& f.next_barrier_id() == next_id(o.next_barrier_id())
    &&& f.drawn_ids() == o.drawn_ids().insert(b.id())
}

impl ModeManagerCore {
    /// The ID the next barrier gets.
    pub open spec fn next_barrier_id(&self) -> u64 {
        self.next_barrier_id
    }

    /// The IDs of every barrier drawn so far.
    pub open spec fn drawn_ids(&self) -> Set<u64> {
        self.drawn@
    }

    /// Every barrier drawn so far has an ID below the counter, so the next one is new.
    pub open spec fn wf(&self) -> bool {
        forall|id: u64| #[trigger] self.drawn_ids().contains(id) ==> id < self.next_barrier_id()
    }

    pub fn new() -> (r: Self)
        ensures
            r.curr_state == State::Active,
            r.wf(),
            r.next_barrier_id() == 0,
            r.drawn_ids() == Set::<u64>::empty(),
    {
        ModeManagerCore { curr_state: State::Active, next_barrier_id: 0, drawn: Ghost(Set::empty()) }
    }

    /// Whether the manager reads messages from upstream in its current state.
    pub fn listens_upstream(&self) -> (r: bool)
        ensures
            r == !(self.curr_state is WaitingBarrierFromDownstream),
    {
        match self.curr_state {
            State::WaitingBarrierFromDownstream { .. } => false,
            _ => true,
        }
    }

    /// Whether the manager reads messages from downstream in its current state.
    pub fn listens_downstream(&self) -> (r: bool)
        ensures
            r,
    {
        true
    }

    /// Routes a message from upstream; `barrier` is the barrier it carries, if it is one.
    pub fn on_upstream(&mut self, barrier: Option<Barrier>) -> (r: UpstreamRoute)
        ensures
            (final(self).curr_state, r) == upstream_step(old(self).curr_state, barrier),
            final(self).next_barrier_id() == old(self).next_barrier_id(),
            final(self).drawn_ids() == old(self).drawn_ids(),
    {
        match self.curr_state {
            State::Active => UpstreamRoute::HandleDirect,
            State::WaitingBarrierFromUpstream { barrier: expected } => match barrier {
                Some(b) => {
                    if b == expected {
                        self.curr_state = State::WaitingBarrierFromDownstream { barrier: b };
                        UpstreamRoute::FlushThenReflect(b)
                    } else {
                        UpstreamRoute::ForwardBarrier(b)
                    }
                },
                None => UpstreamRoute::HandleCoalesced,
            },
            State::WaitingBarrierFromDownstream { .. } => UpstreamRoute::HandleCoalesced,
        }
    }

    /// A barrier `b` from upstream: routed as `on_upstream` says, and where the route
    /// sends it down, sent to `out`: after everything coalesced, flushed, when it is the
    /// barrier awaited; as it is when it is another. Otherwise nothing is sent and the
    /// route says where the message goes.
    pub fn on_upstream_barrier<O: ToV1m>(
        &mut self,
        b: Barrier,
        io_coalescing: &mut IoCoalescing,
        out: &mut O,
    ) -> (r: UpstreamRoute)
        ensures
            (final(self).curr_state, r) == upstream_step(old(self).curr_state, Some(b)),
            final(self).next_barrier_id() == old(self).next_barrier_id(),
            final(self).drawn_ids() == old(self).drawn_ids(),
            match r {
                UpstreamRoute::FlushThenReflect(x) => {
                    let n = final(out).handed_to_v1m().len() - 1;
                    &&& x == b
                    &&& flushed_as_batches(
                        old(out).handed_to_v1m(),
                        old(io_coalescing).pending(),
                        final(out).handed_to_v1m().take(n),
                    )
                    &&& final(out).handed_to_v1m().last() == v1m::DownstreamMsg::Barrier(b)
                    &&& final(io_coalescing).pending() == Seq::<v1m::DownstreamMsg>::empty()
                },
                UpstreamRoute::ForwardBarrier(x) => {
                    &&& x == b
                    &&& final(out).handed_to_v1m() == old(out).handed_to_v1m().push(
                        v1m::DownstreamMsg::Barrier(b),
                    )
                    &&& final(io_coalescing).pending() == old(io_coalescing).pending()
                },
                _ => {
                    &&& final(out).handed_to_v1m() == old(out).handed_to_v1m()
                    &&& final(io_coalescing).pending() == old(io_coalescing).pending()
                },
            },
    {
        let route = self.on_upstream(Some(b));
        match route {
            UpstreamRoute::FlushThenReflect(x) => {
                io_coalescing.flush_into(out);
                let ghost mid = out.handed_to_v1m();
                out.send_to_v1m(v1m::DownstreamMsg::Barrier(x));
                proof {
                    assert(out.handed_to_v1m().take(out.handed_to_v1m().len() - 1) =~= mid);
                }
            },
            UpstreamRoute::ForwardBarrier(x) => {
                out.send_to_v1m(v1m::DownstreamMsg::Barrier(x));
            },
            _ => {},
        }
        route
    }

    /// Routes a message from downstream; `barrier` is the barrier it carries, if it is one.
    pub fn on_downstream(&mut self, barrier: Option<Barrier>) -> (r: DownstreamRoute)
        ensures
            (final(self).curr_state, r) == downstream_step(old(self).curr_state, barrier),
            final(self).next_barrier_id() == old(self).next_barrier_id(),
            final(self).drawn_ids() == old(self).drawn_ids(),
    {
        match self.curr_state {
            State::Active => DownstreamRoute::HandleDirect,
            State::WaitingBarrierFromUpstream { .. } => DownstreamRoute::Discard,
            State::WaitingBarrierFromDownstream { barrier: expected } => {
                match barrier {
                    Some(b) => {
                        if b == expected {
                            self.curr_state = State::Active;
                        }
                    },
                    None => {},
                }
                DownstreamRoute::Discard
            },
        }
    }

    /// Applies the action that the active mode returned. On a transition the manager
    /// draws a new barrier, asks the DAW (through `up`) for all state and then for that
    /// barrier, and waits for it from upstream; the caller installs the mode that was
    /// asked for. Returns the transition and its barrier; `None` when there is none, and
    /// then nothing changes and nothing is sent.
    pub fn apply_mode_action(&mut self, action: ModeAction, up: &mut Vec<ManagerRequest>) -> (r: Option<
        (TransitionRequest, Barrier),
    >)
        ensures
            action == ModeAction::NoAction ==> {
                &&& r is None
                &&& final(self).curr_state == old(self).curr_state
                &&& final(self).next_barrier_id() == old(self).next_barrier_id()
                &&& final(self).drawn_ids() == old(self).drawn_ids()
                &&& final(up)@ == old(up)@
            },
            action matches ModeAction::Transition(req) ==> r matches Some((got, b)) && {
                &&& got == req
                &&& final(self).curr_state == (State::WaitingBarrierFromUpstream { barrier: b })
                &&& drew_barrier(*old(self), *final(self), b)
                &&& final(up)@ == old(up)@ + seq![ManagerRequest::QueryAll, ManagerRequest::Barrier(b)]
                &&& old(self).wf() && old(self).next_barrier_id() < u64::MAX ==> {
                    &&& !old(self).drawn_ids().contains(b.id())
                    &&& final(self).wf()
                }
            },
    {
        match action {
            ModeAction::NoAction => None,
            ModeAction::Transition(req) => {
                up.push(ManagerRequest::QueryAll);
                let barrier = Barrier::new(&mut self.next_barrier_id);
                up.push(ManagerRequest::Barrier(barrier));
                self.curr_state = State::WaitingBarrierFromUpstream { barrier };
                self.drawn = Ghost(self.drawn@.insert(barrier.id()));
                Some((req, barrier))
            },
        }
    }
}

/// Barriers are unique: while the counter has not run through every `u64`, a barrier a
/// transition draws differs from every barrier drawn before it, and the manager keeps
/// that so for the next one.
pub proof fn law_barriers_unique(o: ModeManagerCore, f: ModeManagerCore, b: Barrier, earlier: Barrier)
    requires
        o.wf(),
        o.next_barrier_id() < u64::MAX,
        drew_barrier(o, f, b),
        o.drawn_ids().contains(earlier.id()),
    ensures
        b != earlier,
        f.wf(),
        f.drawn_ids().contains(earlier.id()) && f.drawn_ids().contains(b.id()),
{
    assert(earlier.id() < o.next_barrier_id());
    assert forall|id: u64| #[trigger] f.drawn_ids().contains(id) implies id < f.next_barrier_id() by {
        if id != b.id() {
            assert(o.drawn_ids().contains(id));
        }
    }
}

/// A transition completes: once the mode manager waits for barrier `b` from upstream,
/// receiving `b` from upstream and then `b` from downstream makes it active again, with
/// the coalesced output flushed before `b` goes down.
pub proof fn law_transition_completes(b: Barrier)
    ensures
        ({
            let (s1, r1) = upstream_step(State::WaitingBarrierFromUpstream { barrier: b }, Some(b));
            let (s2, r2) = downstream_step(s1, Some(b));
            &&& r1 == UpstreamRoute::FlushThenReflect(b)
            &&& s1 == State::WaitingBarrierFromDownstream { barrier: b }
            &&& s2 == State::Active
        }),
{
}

/// While a transition waits, no other barrier moves it on: a different barrier from
/// upstream is forwarded down and leaves the state as it is, and a different barrier (or
/// any other message) from downstream is dropped.
pub proof fn law_only_expected_barrier_advances(expected: Barrier, other: Option<Barrier>)
    requires
        other != Some(expected),
    ensures
        upstream_step(State::WaitingBarrierFromUpstream { barrier: expected }, other).0 == (
        State::WaitingBarrierFromUpstream { barrier: expected }),
        downstream_step(State::WaitingBarrierFromDownstream { barrier: expected }, other) == (
        State::WaitingBarrierFromDownstream { barrier: expected }, DownstreamRoute::Discard),
{
}

/// Messages from downstream reach the active mode only while no transition is under way.
pub proof fn law_downstream_handled_only_when_active(state: State, barrier: Option<Barrier>)
    ensures
        (downstream_step(state, barrier).1 == DownstreamRoute::HandleDirect) <==> (state
            == State::Active),
{
}

} // verus!
