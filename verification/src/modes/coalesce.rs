//! Stable-order coalescing of outgoing messages by "address key".
use vstd::prelude::*;

verus! {

/// A key by which messages are coalesced: two keys address the same slot exactly when
/// they are equal.
pub trait CoalesceKey: Sized {
    fn same_key(&self, other: &Self) -> (r: bool)
        ensures
            r == (*self == *other),
    ;
}

impl CoalesceKey for () {
    fn same_key(&self, other: &Self) -> (r: bool) {
        true
    }
}

impl CoalesceKey for u8 {
    fn same_key(&self, other: &Self) -> (r: bool) {
        *self == *other
    }
}

impl CoalesceKey for u16 {
    fn same_key(&self, other: &Self) -> (r: bool) {
        *self == *other
    }
}

impl CoalesceKey for u32 {
    fn same_key(&self, other: &Self) -> (r: bool) {
        *self == *other
    }
}

impl CoalesceKey for u64 {
    fn same_key(&self, other: &Self) -> (r: bool) {
        *self == *other
    }
}

impl CoalesceKey for i32 {
    fn same_key(&self, other: &Self) -> (r: bool) {
        *self == *other
    }
}

impl CoalesceKey for usize {
    fn same_key(&self, other: &Self) -> (r: bool) {
        *self == *other
    }
}

/// A message that can be coalesced by "address key".
/// - `Key` = address fields
/// - `merge_from` = last-write-wins for data fields
pub trait Coalescible: Sized {
    type Key: CoalesceKey;

    /// The address of the message; `None` for messages that never coalesce.
    spec fn spec_key(&self) -> Option<Self::Key>;

    /// What a buffered message becomes when `newer` is merged into it.
    spec fn spec_merge(self, newer: Self) -> Self;

    fn key(&self) -> (r: Option<Self::Key>)
        ensures
            r == self.spec_key(),
    ;

    /// Merge newer message into existing buffered one.
    /// For most state messages this is last-write-wins.
    fn merge_from(&mut self, newer: Self)
        ensures
            *final(self) == old(self).spec_merge(newer),
    ;
}

/// Merging never changes the address: a message with a key, merged with a newer one of
/// the same key, keeps that key.
pub open spec fn merge_keeps_key<T: Coalescible>() -> bool {
    forall|a: T, b: T|
        a.spec_key() is Some && a.spec_key() == b.spec_key() ==> (#[trigger] a.spec_merge(b)).spec_key()
            == a.spec_key()
}

/// The slots name the pending messages with keys exactly: the slot of each key holds a
/// message of that key, and every pending message with a key sits at its key's slot. So
/// no two pending messages share a key.
pub open spec fn slots_agree<T: Coalescible>(items: Seq<T>, slots: Map<T::Key, int>) -> bool {
    &&& forall|k: T::Key|
        #[trigger] slots.contains_key(k) ==> 0 <= slots[k] < items.len() && items[slots[k]].spec_key()
            == Some(k)
    &&& forall|j: int|
        0 <= j < items.len() && (#[trigger] items[j].spec_key()) is Some ==> {
            &&& slots.contains_key(items[j].spec_key()->0)
            &&& slots[items[j].spec_key()->0] == j
        }
}

/// What pushing `msg` does to the pending messages `items` and the slot `slots` of each
/// key seen since the buffer was last emptied.
pub open spec fn model_push<T: Coalescible>(items: Seq<T>, slots: Map<T::Key, int>, msg: T) -> (
    Seq<T>,
    Map<T::Key, int>,
) {
    match msg.spec_key() {
        None => (items.push(msg), slots),
        Some(k) => if slots.contains_key(k) {
            (items.update(slots[k], items[slots[k]].spec_merge(msg)), slots)
        } else {
            (items.push(msg), slots.insert(k, items.len() as int))
        },
    }
}

/// Two messages with the same key, pushed one after the other while that key is not
/// pending, leave one pending message at the end: the first merged with the second.
pub proof fn law_same_key_coalesces<T: Coalescible>(
    items: Seq<T>,
    slots: Map<T::Key, int>,
    first: T,
    second: T,
    key: T::Key,
)
    requires
        first.spec_key() == Some(key),
        second.spec_key() == Some(key),
        !slots.contains_key(key),
    ensures
        ({
            let after_first = model_push(items, slots, first);
            let after_second = model_push(after_first.0, after_first.1, second);
            &&& after_second.0 == items.push(first.spec_merge(second))
            &&& after_second.1 == slots.insert(key, items.len() as int)
        }),
{
    let after_first = model_push(items, slots, first);
    assert(after_first.1[key] == items.len() as int);
    assert(after_first.0.update(items.len() as int, first.spec_merge(second)) =~= items.push(
        first.spec_merge(second),
    ));
}

/// A message without a key is always appended, never merged.
pub proof fn law_unkeyed_appends<T: Coalescible>(items: Seq<T>, slots: Map<T::Key, int>, msg: T)
    requires
        msg.spec_key() is None,
    ensures
        model_push(items, slots, msg) == (items.push(msg), slots),
{
}

/// Pushing never moves a pending message: every pending message other than the one that
/// holds the pushed key stays where it is, and nothing pending is lost.
pub proof fn law_order_preserved<T: Coalescible>(items: Seq<T>, slots: Map<T::Key, int>, msg: T)
    requires
        forall|k: T::Key| #[trigger] slots.contains_key(k) ==> 0 <= slots[k] < items.len(),
    ensures
        model_push(items, slots, msg).0.len() >= items.len(),
        forall|j: int|
            0 <= j < items.len() && !(msg.spec_key() matches Some(k) && slots.contains_key(k)
                && slots[k] == j) ==> #[trigger] model_push(items, slots, msg).0[j] == items[j],
{
}

/// Pushing keeps the slots in agreement with the pending messages.
pub proof fn lemma_model_push_agrees<T: Coalescible>(items: Seq<T>, slots: Map<T::Key, int>, msg: T)
    requires
        merge_keeps_key::<T>(),
        slots_agree(items, slots),
    ensures
        slots_agree(model_push(items, slots, msg).0, model_push(items, slots, msg).1),
{
    let (ni, ns) = model_push(items, slots, msg);
    match msg.spec_key() {
        None => {
            assert forall|j: int| 0 <= j < ni.len() && (#[trigger] ni[j].spec_key()) is Some implies {
                &&& ns.contains_key(ni[j].spec_key()->0)
                &&& ns[ni[j].spec_key()->0] == j
            } by {
                assert(ni[j] == items[j]);
            }
            assert forall|kk: T::Key| #[trigger] ns.contains_key(kk) implies 0 <= ns[kk] < ni.len()
                && ni[ns[kk]].spec_key() == Some(kk) by {
                assert(ni[ns[kk]] == items[slots[kk]]);
            }
        },
        Some(k) => {
            if slots.contains_key(k) {
                let idx = slots[k];
                assert(items[idx].spec_merge(msg).spec_key() == items[idx].spec_key());
                assert forall|j: int| 0 <= j < ni.len() && (#[trigger] ni[j].spec_key()) is Some implies {
                    &&& ns.contains_key(ni[j].spec_key()->0)
                    &&& ns[ni[j].spec_key()->0] == j
                } by {
                    if j != idx {
                        assert(ni[j] == items[j]);
                    }
                }
                assert forall|kk: T::Key| #[trigger] ns.contains_key(kk) implies 0 <= ns[kk] < ni.len()
                    && ni[ns[kk]].spec_key() == Some(kk) by {
                    if ns[kk] != idx {
                        assert(ni[ns[kk]] == items[ns[kk]]);
                    }
                }
            } else {
                assert forall|j: int| 0 <= j < ni.len() && (#[trigger] ni[j].spec_key()) is Some implies {
                    &&& ns.contains_key(ni[j].spec_key()->0)
                    &&& ns[ni[j].spec_key()->0] == j
                } by {
                    if j < items.len() {
                        assert(ni[j] == items[j]);
                        assert(slots.contains_key(items[j].spec_key()->0));
                    }
                }
                assert forall|kk: T::Key| #[trigger] ns.contains_key(kk) implies 0 <= ns[kk] < ni.len()
                    && ni[ns[kk]].spec_key() == Some(kk) by {
                    if kk != k {
                        assert(ni[slots[kk]] == items[slots[kk]]);
                    }
                }
            }
        },
    }
}

/// The pending messages and slots after pushing each of `msgs` in turn.
pub open spec fn push_all<T: Coalescible>(items: Seq<T>, slots: Map<T::Key, int>, msgs: Seq<T>) -> (
    Seq<T>,
    Map<T::Key, int>,
)
    decreases msgs.len(),
{
    if msgs.len() == 0 {
        (items, slots)
    } else {
        let (i, s) = push_all(items, slots, msgs.drop_last());
        model_push(i, s, msgs.last())
    }
}

/// Whatever is pushed into an empty buffer, one message at a time, no two pending
/// messages share a key, each key's slot holds its message, and the buffer holds at
/// most as many messages as were pushed.
pub proof fn law_push_all_one_per_key<T: Coalescible>(msgs: Seq<T>)
    requires
        merge_keeps_key::<T>(),
    ensures
        ({
            let (items, slots) = push_all(Seq::<T>::empty(), Map::<T::Key, int>::empty(), msgs);
            &&& slots_agree(items, slots)
            &&& items.len() <= msgs.len()
            &&& forall|i: int, j: int|
                0 <= i < j < items.len() && (#[trigger] items[i].spec_key()) is Some ==> items[i].spec_key()
                    != (#[trigger] items[j].spec_key())
        }),
    decreases msgs.len(),
{
    if msgs.len() > 0 {
        law_push_all_one_per_key(msgs.drop_last());
        let (i, s) = push_all(Seq::<T>::empty(), Map::<T::Key, int>::empty(), msgs.drop_last());
        lemma_model_push_agrees(i, s, msgs.last());
    }
    let (items, slots) = push_all(Seq::<T>::empty(), Map::<T::Key, int>::empty(), msgs);
    assert forall|i: int, j: int|
        0 <= i < j < items.len() && (#[trigger] items[i].spec_key()) is Some implies items[i].spec_key()
        != (#[trigger] items[j].spec_key()) by {
        if items[i].spec_key() == items[j].spec_key() {
            assert(slots[items[i].spec_key()->0] == i);
            assert(slots[items[j].spec_key()->0] == j);
        }
    }
}

/// The keys among `msgs`.
pub open spec fn keys_pushed<T: Coalescible>(msgs: Seq<T>) -> Set<T::Key>
    decreases msgs.len(),
{
    if msgs.len() == 0 {
        Set::empty()
    } else {
        let rest = keys_pushed(msgs.drop_last());
        match msgs.last().spec_key() {
            Some(k) => rest.insert(k),
            None => rest,
        }
    }
}

/// How many of `msgs` have no key.
pub open spec fn unkeyed_pushes<T: Coalescible>(msgs: Seq<T>) -> nat
    decreases msgs.len(),
{
    if msgs.len() == 0 {
        0
    } else {
        unkeyed_pushes(msgs.drop_last()) + if msgs.last().spec_key() is None {
            1nat
        } else {
            0nat
        }
    }
}

/// The positions in `msgs`, in order, of each message without a key and of the first
/// message of each key.
pub open spec fn first_pushes<T: Coalescible>(msgs: Seq<T>) -> Seq<int>
    decreases msgs.len(),
{
    if msgs.len() == 0 {
        Seq::empty()
    } else {
        let rest = first_pushes(msgs.drop_last());
        match msgs.last().spec_key() {
            Some(k) => if keys_pushed(msgs.drop_last()).contains(k) {
                rest
            } else {
                rest.push(msgs.len() - 1)
            },
            None => rest.push(msgs.len() - 1),
        }
    }
}

/// The message at position `i` of `msgs`, with every later message of its key merged
/// into it in order (a message without a key stays as it is).
pub open spec fn merged_from<T: Coalescible>(msgs: Seq<T>, i: int) -> T
    decreases msgs.len(),
{
    if msgs.len() == 0 || i >= msgs.len() - 1 {
        msgs[i]
    } else {
        let prev = merged_from(msgs.drop_last(), i);
        if msgs[i].spec_key() is Some && msgs.last().spec_key() == msgs[i].spec_key() {
            prev.spec_merge(msgs.last())
        } else {
            prev
        }
    }
}

proof fn lemma_merged_key<T: Coalescible>(msgs: Seq<T>, i: int)
    requires
        merge_keeps_key::<T>(),
        0 <= i < msgs.len(),
    ensures
        merged_from(msgs, i).spec_key() == msgs[i].spec_key(),
    decreases msgs.len(),
{
    if i < msgs.len() - 1 {
        lemma_merged_key(msgs.drop_last(), i);
        let prev = merged_from(msgs.drop_last(), i);
        assert(msgs.drop_last()[i] == msgs[i]);
        if msgs[i].spec_key() is Some && msgs.last().spec_key() == msgs[i].spec_key() {
            assert(prev.spec_merge(msgs.last()).spec_key() == prev.spec_key());
        }
    }
}

/// What a buffer holds after `msgs` are pushed, one at a time, into an empty one.
pub open spec fn pushed_into_empty<T: Coalescible>(msgs: Seq<T>) -> (Seq<T>, Map<T::Key, int>) {
    push_all(Seq::<T>::empty(), Map::<T::Key, int>::empty(), msgs)
}

proof fn lemma_pushed_shape<T: Coalescible>(msgs: Seq<T>)
    requires
        merge_keeps_key::<T>(),
    ensures
        ({
            let (items, slots) = pushed_into_empty(msgs);
            let f = first_pushes(msgs);
            &&& slots_agree(items, slots)
            &&& slots.dom() == keys_pushed(msgs)
            &&& keys_pushed(msgs).finite()
            &&& f.len() == unkeyed_pushes(msgs) + keys_pushed(msgs).len()
            &&& forall|j: int| 0 <= j < f.len() ==> 0 <= #[trigger] f[j] < msgs.len()
            &&& items == f.map_values(|i: int| merged_from(msgs, i))
        }),
    decreases msgs.len(),
{
    if msgs.len() == 0 {
        let (items, slots) = pushed_into_empty(msgs);
        assert(items =~= first_pushes(msgs).map_values(|i: int| merged_from(msgs, i)));
        assert(slots.dom() =~= keys_pushed(msgs));
    } else {
        let prev = msgs.drop_last();
        let m = msgs.last();
        let n = msgs.len() - 1;
        lemma_pushed_shape(prev);
        let (pi, ps) = pushed_into_empty(prev);
        let pf = first_pushes(prev);
        lemma_model_push_agrees(pi, ps, m);
        let (items, slots) = pushed_into_empty(msgs);
        assert((items, slots) == model_push(pi, ps, m));
        let f = first_pushes(msgs);
        assert forall|j: int| 0 <= j < pf.len() implies merged_from(prev, #[trigger] pf[j]).spec_key()
            == msgs[pf[j]].spec_key() by {
            lemma_merged_key(prev, pf[j]);
            assert(prev[pf[j]] == msgs[pf[j]]);
        }
        match m.spec_key() {
            None => {
                assert(f == pf.push(n));
                assert(slots.dom() =~= keys_pushed(msgs));
                assert forall|j: int| 0 <= j < items.len() implies #[trigger] items[j] == merged_from(
                    msgs,
                    f[j],
                ) by {
                    if j < pi.len() {
                        assert(items[j] == pi[j]);
                        assert(f[j] == pf[j]);
                        assert(prev[pf[j]] == msgs[pf[j]]);
                    }
                }
                assert(items =~= f.map_values(|i: int| merged_from(msgs, i)));
            },
            Some(k) => {
                if ps.contains_key(k) {
                    let sj = ps[k];
                    assert(f == pf);
                    assert(pi[sj].spec_key() == Some(k));
                    assert(slots.dom() =~= keys_pushed(msgs));
                    assert forall|j: int| 0 <= j < items.len() implies #[trigger] items[j] == merged_from(
                        msgs,
                        f[j],
                    ) by {
                        assert(prev[pf[j]] == msgs[pf[j]]);
                        assert(pi[j] == merged_from(prev, pf[j]));
                        if j == sj {
                            assert(msgs[pf[j]].spec_key() == Some(k));
                        } else {
                            if pi[j].spec_key() == Some(k) {
                                assert(ps[k] == j);
                            }
                            assert(items[j] == pi[j]);
                        }
                    }
                    assert(items =~= f.map_values(|i: int| merged_from(msgs, i)));
                } else {
                    assert(f == pf.push(n));
                    assert(slots.dom() =~= keys_pushed(msgs));
                    assert(!keys_pushed(prev).contains(k));
                    assert forall|j: int| 0 <= j < items.len() implies #[trigger] items[j] == merged_from(
                        msgs,
                        f[j],
                    ) by {
                        if j < pi.len() {
                            assert(items[j] == pi[j]);
                            assert(f[j] == pf[j]);
                            assert(prev[pf[j]] == msgs[pf[j]]);
                            assert(pi[j] == merged_from(prev, pf[j]));
                            if pi[j].spec_key() == Some(k) {
                                assert(ps.contains_key(k));
                            }
                        }
                    }
                    assert(items =~= f.map_values(|i: int| merged_from(msgs, i)));
                }
            },
        }
    }
}

/// What a buffer gives back after messages are pushed into it from empty (the law of
/// `drain`): one message for each message without a key and one for each key, in the
/// order of their first push; the message of a key is its first push with every later
/// push of that key merged into it, in order. So it holds as many messages as there
/// were pushes without a key plus distinct keys, no two with the same key, and it
/// remembers exactly the keys pushed.
pub proof fn law_pushes_then_drain<T: Coalescible>(msgs: Seq<T>)
    requires
        merge_keeps_key::<T>(),
    ensures
        ({
            let (items, slots) = pushed_into_empty(msgs);
            &&& items == first_pushes(msgs).map_values(|i: int| merged_from(msgs, i))
            &&& items.len() == unkeyed_pushes(msgs) + keys_pushed(msgs).len()
            &&& slots.dom() == keys_pushed(msgs)
            &&& forall|a: int, b: int|
                0 <= a < b < items.len() && (#[trigger] items[a].spec_key()) is Some ==> items[a].spec_key()
                    != (#[trigger] items[b].spec_key())
        }),
{
    lemma_pushed_shape(msgs);
    law_push_all_one_per_key(msgs);
}

/// Stable-order coalescing buffer:
/// - preserves first-seen key order
/// - keeps latest value per key
pub struct OrderedCoalescingBuffer<T: Coalescible> {
    items: Vec<T>,
    index_by_key: Vec<(T::Key, usize)>,
    slots: Ghost<Map<T::Key, int>>,
}

impl<T: Coalescible> OrderedCoalescingBuffer<T> {
    /// The pending messages, in the order they will be drained.
    pub closed spec fn pending(&self) -> Seq<T> {
        self.items@
    }

    /// The position in `pending` of the message that holds each key seen since the
    /// buffer was last emptied.
    pub closed spec fn key_slots(&self) -> Map<T::Key, int> {
        self.slots@
    }

    pub closed spec fn wf(&self) -> bool {
        &&& forall|j: int|
            0 <= j < self.index_by_key.len() ==> {
                &&& self.slots@.contains_key(#[trigger] self.index_by_key@[j].0)
                &&& self.slots@[self.index_by_key@[j].0] == self.index_by_key@[j].1 as int
            }
        &&& forall|k: T::Key|
            #[trigger] self.slots@.contains_key(k) ==> exists|j: int|
                0 <= j < self.index_by_key.len() && #[trigger] self.index_by_key@[j].0 == k
        &&& forall|k: T::Key|
            #[trigger] self.slots@.contains_key(k) ==> 0 <= self.slots@[k] < self.items.len()
        &&& slots_agree(self.items@, self.slots@)
    }

    /// A well-formed buffer's slots name its pending messages with keys exactly.
    pub proof fn lemma_slots_agree(&self)
        requires
            self.wf(),
        ensures
            slots_agree(self.pending(), self.key_slots()),
    {
    }

    pub fn new() -> (r: Self)
        ensures
            r.wf(),
            r.pending() == Seq::<T>::empty(),
            r.key_slots() == Map::<T::Key, int>::empty(),
    {
        Self { items: Vec::new(), index_by_key: Vec::new(), slots: Ghost(Map::empty()) }
    }

    pub fn is_empty(&self) -> (r: bool)
        ensures
            r == (self.pending().len() == 0),
    {
        self.items.len() == 0
    }

    pub fn len(&self) -> (r: usize)
        ensures
            r == self.pending().len(),
    {
        self.items.len()
    }

    pub fn clear(&mut self)
        ensures
            final(self).wf(),
            final(self).pending() == Seq::<T>::empty(),
            final(self).key_slots() == Map::<T::Key, int>::empty(),
    {
        self.items.clear();
        self.index_by_key.clear();
        self.slots = Ghost(Map::empty());
    }

    /// Slot of `key`, if it was seen since the buffer was last emptied.
    fn find_slot(&self, key: &T::Key) -> (r: Option<usize>)
        requires
            self.wf(),
        ensures
            r is Some <==> self.key_slots().contains_key(*key),
            r is Some ==> r.unwrap() as int == self.key_slots()[*key],
    {
        let mut j: usize = 0;
        while j < self.index_by_key.len()
            invariant
                self.wf(),
                0 <= j <= self.index_by_key.len(),
                forall|q: int| 0 <= q < j ==> self.index_by_key@[q].0 != *key,
            decreases self.index_by_key.len() - j,
        {
            if self.index_by_key[j].0.same_key(key) {
                return Some(self.index_by_key[j].1);
            }
            j = j + 1;
        }
        None
    }

    /// Insert a message or merge into existing key slot.
    pub fn push(&mut self, msg: T)
        requires
            old(self).wf(),
            merge_keeps_key::<T>(),
        ensures
            final(self).wf(),
            slots_agree(final(self).pending(), final(self).key_slots()),
            (final(self).pending(), final(self).key_slots()) == model_push(
                old(self).pending(),
                old(self).key_slots(),
                msg,
            ),
    {
        match msg.key() {
            Some(key) => {
                match self.find_slot(&key) {
                    Some(idx) => {
                        let ghost old_items = self.items@;
                        let ghost older = self.items@[idx as int];
                        self.items[idx].merge_from(msg);
                        proof {
                            assert(older.spec_key() == Some(key));
                            assert(older.spec_merge(msg).spec_key() == older.spec_key());
                            assert(self.items@ == old_items.update(idx as int, older.spec_merge(msg)));
                            assert forall|j: int|
                                0 <= j < self.items@.len() && (#[trigger] self.items@[j].spec_key()) is Some implies {
                                &&& self.slots@.contains_key(self.items@[j].spec_key()->0)
                                &&& self.slots@[self.items@[j].spec_key()->0] == j
                            } by {
                                if j != idx {
                                    assert(self.items@[j] == old_items[j]);
                                }
                            }
                            assert forall|kk: T::Key| #[trigger] self.slots@.contains_key(kk) implies 0
                                <= self.slots@[kk] < self.items@.len() && self.items@[self.slots@[kk]].spec_key()
                                == Some(kk) by {
                                if self.slots@[kk] == idx as int {
                                    assert(old_items[idx as int].spec_key() == Some(kk));
                                }
                            }
                        }
                    },
                    None => {
                        let ghost old_index = self.index_by_key@;
                        let ghost old_slots = self.slots@;
                        let ghost old_items = self.items@;
                        let idx = self.items.len();
                        self.items.push(msg);
                        let ghost k = key;
                        self.index_by_key.push((key, idx));
                        self.slots = Ghost(self.slots@.insert(k, idx as int));
                        assert forall|j: int|
                            0 <= j < self.index_by_key.len() implies {
                            &&& self.slots@.contains_key(#[trigger] self.index_by_key@[j].0)
                            &&& self.slots@[self.index_by_key@[j].0]
                                == self.index_by_key@[j].1 as int
                        } by {
                            if j < self.index_by_key.len() - 1 {
                                assert(self.index_by_key@[j].0 != k);
                            }
                        }
                        assert forall|kk: T::Key| #[trigger]
                            self.slots@.contains_key(kk) implies exists|j: int|
                            0 <= j < self.index_by_key.len() && #[trigger] self.index_by_key@[j].0
                                == kk by {
                            if kk == k {
                                assert(self.index_by_key@[self.index_by_key.len() - 1].0 == kk);
                            } else {
                                assert(old_slots.contains_key(kk));
                                let j = choose|j: int|
                                    0 <= j < old_index.len() && #[trigger] old_index[j].0 == kk;
                                assert(self.index_by_key@[j] == old_index[j]);
                            }
                        }
                        assert forall|j: int|
                            0 <= j < self.items@.len() && (#[trigger] self.items@[j].spec_key()) is Some implies {
                            &&& self.slots@.contains_key(self.items@[j].spec_key()->0)
                            &&& self.slots@[self.items@[j].spec_key()->0] == j
                        } by {
                            if j < old_items.len() {
                                assert(self.items@[j] == old_items[j]);
                                assert(old_slots.contains_key(old_items[j].spec_key()->0));
                            }
                        }
                        assert forall|kk: T::Key| #[trigger] self.slots@.contains_key(kk) implies 0
                            <= self.slots@[kk] < self.items@.len() && self.items@[self.slots@[kk]].spec_key()
                            == Some(kk) by {
                            if kk != k {
                                assert(old_slots.contains_key(kk));
                                assert(self.items@[old_slots[kk]] == old_items[old_slots[kk]]);
                            }
                        }
                    },
                }
            },
            None => {
                let ghost old_items = self.items@;
                self.items.push(msg);
                proof {
                    assert forall|j: int|
                        0 <= j < self.items@.len() && (#[trigger] self.items@[j].spec_key()) is Some implies {
                        &&& self.slots@.contains_key(self.items@[j].spec_key()->0)
                        &&& self.slots@[self.items@[j].spec_key()->0] == j
                    } by {
                        if j < old_items.len() {
                            assert(self.items@[j] == old_items[j]);
                        }
                    }
                    assert forall|kk: T::Key| #[trigger] self.slots@.contains_key(kk) implies 0
                        <= self.slots@[kk] < self.items@.len() && self.items@[self.slots@[kk]].spec_key()
                        == Some(kk) by {
                        assert(self.items@[self.slots@[kk]] == old_items[self.slots@[kk]]);
                    }
                }
            },
        }
    }

    /// Drain in preserved order of first-seen keys.
    pub fn drain(&mut self) -> (r: Vec<T>)
        ensures
            r@ == old(self).pending(),
            final(self).wf(),
            final(self).pending() == Seq::<T>::empty(),
            final(self).key_slots() == Map::<T::Key, int>::empty(),
    {
        let mut drained: Vec<T> = Vec::new();
        std::mem::swap(&mut drained, &mut self.items);
        self.index_by_key.clear();
        self.slots = Ghost(Map::empty());
        drained
    }
}

} // verus!
