//! Debounced timers, one per encoder: the table of pending timers and how each command
//! and each tick change it. Times are milliseconds on a monotonic clock.
use vstd::prelude::*;

verus! {

#[derive(Debug, Clone, Copy, PartialEq, Eq, Hash, Structural)]
pub struct TimerKey {
    pub encoder_idx: u8,  // 0..15
}

#[derive(Debug, Clone)]
pub enum SchedulerCmd<T> {
    Schedule { key: TimerKey, delay_ms: u64, msg: T },
    Cancel { key: TimerKey },
    ClearAll,
    Shutdown,
}

/// A pending timer: its key, when it is due, and the message it sends then.
pub type PendingTimer<T> = (TimerKey, u64, T);

/// Whether no key occurs twice.
pub open spec fn keys_unique<T>(s: Seq<PendingTimer<T>>) -> bool {
    forall|i: int, j: int| 0 <= i < j < s.len() ==> #[trigger] s[i].0 != #[trigger] s[j].0
}

/// Whether `key` has a pending timer.
pub open spec fn has_key<T>(s: Seq<PendingTimer<T>>, key: TimerKey) -> bool {
    exists|j: int| 0 <= j < s.len() && #[trigger] s[j].0 == key
}

/// Where the timer of `key` stands (meaningful only when it has one).
pub open spec fn key_pos<T>(s: Seq<PendingTimer<T>>, key: TimerKey) -> int {
    choose|j: int| 0 <= j < s.len() && #[trigger] s[j].0 == key
}

/// The timers after `key` is scheduled to send `msg` at `due`: the latest schedule of a
/// key replaces its earlier one.
pub open spec fn scheduled<T>(s: Seq<PendingTimer<T>>, key: TimerKey, due: u64, msg: T) -> Seq<
    PendingTimer<T>,
> {
    if has_key(s, key) {
        s.update(key_pos(s, key), (key, due, msg))
    } else {
        s.push((key, due, msg))
    }
}

/// The timers after the one of `key`, if any, is cancelled.
pub open spec fn cancelled<T>(s: Seq<PendingTimer<T>>, key: TimerKey) -> Seq<PendingTimer<T>> {
    if has_key(s, key) {
        s.remove(key_pos(s, key))
    } else {
        s
    }
}

/// The messages of the timers due at `now`, in table order.
pub open spec fn due_msgs<T>(s: Seq<PendingTimer<T>>, now: u64) -> Seq<T>
    decreases s.len(),
{
    if s.len() == 0 {
        seq![]
    } else if s.last().1 <= now {
        due_msgs(s.drop_last(), now).push(s.last().2)
    } else {
        due_msgs(s.drop_last(), now)
    }
}

/// The timers not yet due at `now`, in table order.
pub open spec fn not_due<T>(s: Seq<PendingTimer<T>>, now: u64) -> Seq<PendingTimer<T>>
    decreases s.len(),
{
    if s.len() == 0 {
        seq![]
    } else if s.last().1 <= now {
        not_due(s.drop_last(), now)
    } else {
        not_due(s.drop_last(), now).push(s.last())
    }
}

proof fn lemma_not_due_keys<T>(s: Seq<PendingTimer<T>>, now: u64)
    requires
        keys_unique(s),
    ensures
        keys_unique(not_due(s, now)),
        forall|i: int|
            0 <= i < not_due(s, now).len() ==> exists|j: int|
                0 <= j < s.len() && #[trigger] not_due(s, now)[i] == s[j],
    decreases s.len(),
{
    if s.len() > 0 {
        let t = s.drop_last();
        assert(keys_unique(t)) by {
            assert forall|i: int, j: int| 0 <= i < j < t.len() implies #[trigger] t[i].0
                != #[trigger] t[j].0 by {
                assert(t[i] == s[i] && t[j] == s[j]);
            }
        }
        lemma_not_due_keys(t, now);
        let nt = not_due(t, now);
        let ns = not_due(s, now);
        assert forall|i: int| 0 <= i < ns.len() implies exists|j: int|
            0 <= j < s.len() && #[trigger] ns[i] == s[j] by {
            if i < nt.len() {
                let j = choose|j: int| 0 <= j < t.len() && #[trigger] nt[i] == t[j];
                assert(ns[i] == nt[i]);
                assert(t[j] == s[j]);
            } else {
                assert(ns[i] == s[s.len() - 1]);
            }
        }
        if s.last().1 > now {
            assert forall|i: int, j: int| 0 <= i < j < ns.len() implies #[trigger] ns[i].0
                != #[trigger] ns[j].0 by {
                if j < nt.len() {
                    assert(ns[i] == nt[i] && ns[j] == nt[j]);
                } else {
                    let a = choose|a: int| 0 <= a < t.len() && #[trigger] nt[i] == t[a];
                    assert(ns[i] == s[a]);
                    assert(ns[j] == s[s.len() - 1]);
                }
            }
        }
    }
}

/// Debounce: scheduling a key again replaces its pending timer, so a key has at most one
/// timer, due when and sending what its latest schedule says.
pub proof fn law_latest_schedule_wins<T>(
    s: Seq<PendingTimer<T>>,
    key: TimerKey,
    due1: u64,
    msg1: T,
    due2: u64,
    msg2: T,
)
    requires
        keys_unique(s),
    ensures
        keys_unique(scheduled(scheduled(s, key, due1, msg1), key, due2, msg2)),
        scheduled(scheduled(s, key, due1, msg1), key, due2, msg2).len() == scheduled(s, key, due1, msg1).len(),
        has_key(scheduled(scheduled(s, key, due1, msg1), key, due2, msg2), key),
        scheduled(scheduled(s, key, due1, msg1), key, due2, msg2)[key_pos(
            scheduled(scheduled(s, key, due1, msg1), key, due2, msg2),
            key,
        )] == (key, due2, msg2),
{
    let s1 = scheduled(s, key, due1, msg1);
    lemma_scheduled_keys(s, key, due1, msg1);
    lemma_scheduled_keys(s1, key, due2, msg2);
    let s2 = scheduled(s1, key, due2, msg2);
    assert(has_key(s1, key));
    let p1 = key_pos(s1, key);
    assert(s2[p1] == (key, due2, msg2));
    let p2 = key_pos(s2, key);
    if p2 != p1 {
        if p2 < p1 {
            assert(s2[p2].0 != s2[p1].0);
        } else {
            assert(s2[p1].0 != s2[p2].0);
        }
    }
}

/// Scheduling keeps keys unique and leaves `key` with a timer.
proof fn lemma_scheduled_keys<T>(s: Seq<PendingTimer<T>>, key: TimerKey, due: u64, msg: T)
    requires
        keys_unique(s),
    ensures
        keys_unique(scheduled(s, key, due, msg)),
        has_key(scheduled(s, key, due, msg), key),
{
    let r = scheduled(s, key, due, msg);
    if has_key(s, key) {
        let p = key_pos(s, key);
        assert(r[p].0 == key);
        assert forall|i: int, j: int| 0 <= i < j < r.len() implies #[trigger] r[i].0 != #[trigger] r[j].0 by {
            if i == p {
                assert(s[p].0 == key);
                assert(s[p].0 != s[j].0);
            } else if j == p {
                assert(s[i].0 != s[p].0);
            }
        }
    } else {
        assert(r[s.len() as int].0 == key);
        assert forall|i: int, j: int| 0 <= i < j < r.len() implies #[trigger] r[i].0 != #[trigger] r[j].0 by {
            if j == s.len() {
                assert(r[i] == s[i]);
            }
        }
    }
}

/// A tick splits the timers: each one is either due, and its message is sent, or not
/// due, and it stays; none is lost or sent twice.
pub proof fn law_tick_partitions<T>(s: Seq<PendingTimer<T>>, now: u64)
    ensures
        due_msgs(s, now).len() + not_due(s, now).len() == s.len(),
        forall|i: int| 0 <= i < not_due(s, now).len() ==> (#[trigger] not_due(s, now)[i]).1 > now,
    decreases s.len(),
{
    if s.len() > 0 {
        law_tick_partitions(s.drop_last(), now);
        let t = s.drop_last();
        assert forall|i: int| 0 <= i < not_due(s, now).len() implies (#[trigger] not_due(s, now)[i]).1 > now by {
            if i < not_due(t, now).len() {
                assert(not_due(s, now)[i] == not_due(t, now)[i]);
            }
        }
    }
}

/// The pending timers of a scheduler.
pub struct TimerTable<T> {
    entries: Vec<PendingTimer<T>>,
}

impl<T> TimerTable<T> {
    /// The pending timers, oldest key first.
    pub closed spec fn timers(&self) -> Seq<PendingTimer<T>> {
        self.entries@
    }

    /// No key has two pending timers.
    pub open spec fn wf(&self) -> bool {
        keys_unique(self.timers())
    }

    pub fn new() -> (r: Self)
        ensures
            r.wf(),
            r.timers() == Seq::<PendingTimer<T>>::empty(),
    {
        TimerTable { entries: Vec::new() }
    }

    fn find(&self, key: TimerKey) -> (r: Option<usize>)
        requires
            self.wf(),
        ensures
            r is Some <==> has_key(self.timers(), key),
            r is Some ==> r.unwrap() as int == key_pos(self.timers(), key),
    {
        let mut j: usize = 0;
        while j < self.entries.len()
            invariant
                0 <= j <= self.entries.len(),
                keys_unique(self.entries@),
                forall|q: int| 0 <= q < j ==> self.entries@[q].0 != key,
            decreases self.entries.len() - j,
        {
            if self.entries[j].0 == key {
                proof {
                    let p = key_pos(self.timers(), key);
                    assert(self.timers()[j as int].0 == key);
                    assert(self.timers()[p].0 == key);
                    if p != j {
                        if p < j {
                            assert(self.entries@[p].0 != self.entries@[j as int].0);
                        } else {
                            assert(self.entries@[j as int].0 != self.entries@[p].0);
                        }
                    }
                }
                return Some(j);
            }
            j = j + 1;
        }
        None
    }

    /// Arm the timer of `key` to send `msg` at `due_ms`, replacing the one it had.
    pub fn schedule(&mut self, key: TimerKey, due_ms: u64, msg: T)
        requires
            old(self).wf(),
        ensures
            final(self).wf(),
            final(self).timers() == scheduled(old(self).timers(), key, due_ms, msg),
    {
        match self.find(key) {
            Some(j) => {
                self.entries.set(j, (key, due_ms, msg));
            },
            None => {
                self.entries.push((key, due_ms, msg));
            },
        }
    }

    /// Disarm the timer of `key`, if it has one.
    pub fn cancel(&mut self, key: TimerKey)
        requires
            old(self).wf(),
        ensures
            final(self).wf(),
            final(self).timers() == cancelled(old(self).timers(), key),
    {
        match self.find(key) {
            Some(j) => {
                let _ = self.entries.remove(j);
                assert forall|a: int, b: int|
                    0 <= a < b < self.entries@.len() implies #[trigger] self.entries@[a].0
                    != #[trigger] self.entries@[b].0 by {
                    let s = old(self).entries@;
                    let aa = if a < j { a } else { a + 1 };
                    let bb = if b < j { b } else { b + 1 };
                    assert(self.entries@[a] == s[aa]);
                    assert(self.entries@[b] == s[bb]);
                    assert(s[aa].0 != s[bb].0);
                }
            },
            None => {},
        }
    }

    /// Disarm every timer.
    pub fn clear(&mut self)
        ensures
            final(self).wf(),
            final(self).timers() == Seq::<PendingTimer<T>>::empty(),
    {
        self.entries.clear();
    }

    /// Disarm the timers due at `now_ms` and return their messages.
    pub fn take_due(&mut self, now_ms: u64) -> (r: Vec<T>)
        requires
            old(self).wf(),
        ensures
            final(self).wf(),
            r@ == due_msgs(old(self).timers(), now_ms),
            final(self).timers() == not_due(old(self).timers(), now_ms),
    {
        let ghost all = self.entries@;
        let mut rest: Vec<PendingTimer<T>> = Vec::new();
        std::mem::swap(&mut rest, &mut self.entries);
        let mut due: Vec<T> = Vec::new();
        let mut k: usize = 0;
        assert(all.len() == rest.len());
        while rest.len() > 0
            invariant
                k + rest.len() == all.len(),
                all.len() <= usize::MAX,
                rest@ == all.subrange(k as int, all.len() as int),
                due@ == due_msgs(all.subrange(0, k as int), now_ms),
                self.entries@ == not_due(all.subrange(0, k as int), now_ms),
            decreases rest.len(),
        {
            let e = rest.remove(0);
            assert(all.subrange(0, k + 1).drop_last() =~= all.subrange(0, k as int));
            assert(all.subrange(0, k + 1).last() == e);
            if e.1 <= now_ms {
                due.push(e.2);
            } else {
                self.entries.push(e);
            }
            k = k + 1;
            assert(rest@ =~= all.subrange(k as int, all.len() as int));
        }
        assert(all.subrange(0, all.len() as int) =~= all);
        proof {
            lemma_not_due_keys(all, now_ms);
        }
        due
    }

    /// Apply a command received at `now_ms`; `false` once the scheduler is to stop.
    pub fn apply(&mut self, cmd: SchedulerCmd<T>, now_ms: u64) -> (keep_running: bool)
        requires
            old(self).wf(),
            cmd matches SchedulerCmd::Schedule { delay_ms, .. } ==> now_ms + delay_ms
                <= u64::MAX,
        ensures
            final(self).wf(),
            keep_running == !(cmd is Shutdown),
            final(self).timers() == match cmd {
                SchedulerCmd::Schedule { key, delay_ms, msg } => scheduled(
                    old(self).timers(),
                    key,
                    (now_ms + delay_ms) as u64,
                    msg,
                ),
                SchedulerCmd::Cancel { key } => cancelled(old(self).timers(), key),
                SchedulerCmd::ClearAll => Seq::<PendingTimer<T>>::empty(),
                SchedulerCmd::Shutdown => old(self).timers(),
            },
    {
        match cmd {
            SchedulerCmd::Schedule { key, delay_ms, msg } => {
                self.schedule(key, now_ms + delay_ms, msg);
                true
            },
            SchedulerCmd::Cancel { key } => {
                self.cancel(key);
                true
            },
            SchedulerCmd::ClearAll => {
                self.clear();
                true
            },
            SchedulerCmd::Shutdown => false,
        }
    }
}

} // verus!
