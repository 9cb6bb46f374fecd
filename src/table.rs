//! The correlation table: which correlation ids still have a caller waiting,
//! and the producing end of each caller's delivery slot.
use vstd::prelude::*;

use crate::error::BridgeError;
use crate::slot::{deliver, SlotSender};

verus! {

/// What was handed to the slot of a correlation id: `Some(payload)` for a
/// delivered value, `None` for a cancellation.
pub type Signal = (Seq<char>, Option<Seq<char>>);

/// The abstract state of a correlation table.
pub struct TableModel {
    /// Correlation ids that have a waiter, with the time each was registered.
    pub waiting: Map<Seq<char>, u64>,
    /// Every signal handed to a slot so far, oldest first.
    pub signals: Seq<Signal>,
}

/// The table after registering `id` at time `at`.
pub open spec fn register_model(m: TableModel, id: Seq<char>, at: u64) -> TableModel {
    TableModel { waiting: m.waiting.insert(id, at), signals: m.signals }
}

/// The table after a response with `payload` for `id`: the waiter, if any, is
/// removed and receives the payload; otherwise nothing changes.
pub open spec fn resolve_model(m: TableModel, id: Seq<char>, payload: Seq<char>) -> TableModel {
    if m.waiting.contains_key(id) {
        TableModel { waiting: m.waiting.remove(id), signals: m.signals.push((id, Some(payload))) }
    } else {
        m
    }
}

/// The table after the wait for `id` expired: the waiter, if any, is removed
/// and its slot cancelled; otherwise nothing changes.
pub open spec fn cancel_model(m: TableModel, id: Seq<char>) -> TableModel {
    if m.waiting.contains_key(id) {
        TableModel { waiting: m.waiting.remove(id), signals: m.signals.push((id, None)) }
    } else {
        m
    }
}

/// Registering `id` and then resolving it with `payload` hands exactly
/// `payload` to the slot of `id` and leaves no entry behind; a second
/// resolve of `id` afterwards finds no waiter and changes nothing.
pub proof fn lemma_register_then_resolve(
    m: TableModel,
    id: Seq<char>,
    at: u64,
    payload: Seq<char>,
    again: Seq<char>,
)
    requires
        !m.waiting.contains_key(id),
    ensures
        ({
            let r = resolve_model(register_model(m, id, at), id, payload);
            &&& r.waiting == m.waiting
            &&& r.signals == m.signals.push((id, Some(payload)))
            &&& !r.waiting.contains_key(id)
            &&& resolve_model(r, id, again) == r
        }),
{
    assert(m.waiting.insert(id, at).remove(id) =~= m.waiting);
}

/// For a registered id, exactly one of a response and an expiry removes the
/// entry and signals the slot, whichever comes first; the other finds the
/// entry gone and does nothing. Either way the slot is signalled once and the
/// waiting set is back to what it was before the registration.
pub proof fn lemma_resolve_cancel_race(m: TableModel, id: Seq<char>, at: u64, payload: Seq<char>)
    requires
        !m.waiting.contains_key(id),
    ensures
        ({
            let s = register_model(m, id, at);
            let response_first = cancel_model(resolve_model(s, id, payload), id);
            let expiry_first = resolve_model(cancel_model(s, id), id, payload);
            &&& response_first.waiting == m.waiting
            &&& response_first.signals == m.signals.push((id, Some(payload)))
            &&& expiry_first.waiting == m.waiting
            &&& expiry_first.signals == m.signals.push((id, None))
        }),
{
    assert(m.waiting.insert(id, at).remove(id) =~= m.waiting);
}

/// A response that arrives after the wait for its id expired finds no
/// waiter, changes nothing and does not bring the entry back.
pub proof fn lemma_late_response_dropped(m: TableModel, id: Seq<char>, at: u64, payload: Seq<char>)
    requires
        !m.waiting.contains_key(id),
    ensures
        ({
            let expired = cancel_model(register_model(m, id, at), id);
            &&& !expired.waiting.contains_key(id)
            &&& resolve_model(expired, id, payload) == expired
        }),
{
}

/// A response for one id leaves the waiter of every other id as it was.
pub proof fn lemma_resolve_keeps_others(m: TableModel, id: Seq<char>, payload: Seq<char>, other: Seq<char>)
    requires
        other != id,
    ensures
        resolve_model(m, id, payload).waiting.contains_key(other) == m.waiting.contains_key(other),
        m.waiting.contains_key(other) ==> resolve_model(m, id, payload).waiting[other] == m.waiting[other],
{
}

/// One operation on a table, as a law over whole histories sees it.
pub enum TableEvent {
    /// A registration of an id at a time; refused when the id already waits.
    Register(Seq<char>, u64),
    /// A response for an id with its payload.
    Resolve(Seq<char>, Seq<char>),
    /// The expiry of the wait for an id.
    Cancel(Seq<char>),
}

/// The table after one operation.
pub open spec fn apply_event(m: TableModel, e: TableEvent) -> TableModel {
    match e {
        TableEvent::Register(id, at) => if m.waiting.contains_key(id) {
            m
        } else {
            register_model(m, id, at)
        },
        TableEvent::Resolve(id, payload) => resolve_model(m, id, payload),
        TableEvent::Cancel(id) => cancel_model(m, id),
    }
}

/// The table after a sequence of operations, first to last.
pub open spec fn apply_events(m: TableModel, events: Seq<TableEvent>) -> TableModel
    decreases events.len(),
{
    if events.len() == 0 {
        m
    } else {
        apply_events(apply_event(m, events[0]), events.drop_first())
    }
}

/// One when `e`, applied to `m`, registers `k`, else zero.
pub open spec fn registered_now(m: TableModel, e: TableEvent, k: Seq<char>) -> nat {
    match e {
        TableEvent::Register(id, _) => if id == k && !m.waiting.contains_key(k) {
            1
        } else {
            0
        },
        _ => 0,
    }
}

/// How many registrations of `k` in `events`, applied from `m`, succeed.
pub open spec fn registrations(m: TableModel, events: Seq<TableEvent>, k: Seq<char>) -> nat
    decreases events.len(),
{
    if events.len() == 0 {
        0
    } else {
        registered_now(m, events[0], k) + registrations(apply_event(m, events[0]), events.drop_first(), k)
    }
}

/// How many signals in `s` went to the slot of `k`.
pub open spec fn signal_count(s: Seq<Signal>, k: Seq<char>) -> nat
    decreases s.len(),
{
    if s.len() == 0 {
        0
    } else {
        signal_count(s.drop_last(), k) + if s.last().0 == k {
            1nat
        } else {
            0nat
        }
    }
}

/// One when a caller waits for `k`, else zero.
pub open spec fn waiting_count(m: TableModel, k: Seq<char>) -> nat {
    if m.waiting.contains_key(k) {
        1
    } else {
        0
    }
}

proof fn lemma_event_balance(m: TableModel, e: TableEvent, k: Seq<char>)
    ensures
        signal_count(apply_event(m, e).signals, k) + waiting_count(apply_event(m, e), k) == signal_count(m.signals, k)
            + waiting_count(m, k) + registered_now(m, e, k),
{
    let n = apply_event(m, e);
    match e {
        TableEvent::Register(id, at) => {
            if !m.waiting.contains_key(id) {
                assert(n.waiting.contains_key(k) == (m.waiting.contains_key(k) || k == id));
            }
        },
        TableEvent::Resolve(id, payload) => {
            if m.waiting.contains_key(id) {
                assert(n.signals.drop_last() =~= m.signals);
            }
        },
        TableEvent::Cancel(id) => {
            if m.waiting.contains_key(id) {
                assert(n.signals.drop_last() =~= m.signals);
            }
        },
    }
}

/// Over any sequence of registrations, responses and expiries, each waiter is
/// signalled at most once and no entry leaks: the signals that reach the slot
/// of `k`, plus one while `k` still waits, equal the waiter of `k` at the
/// start plus the registrations of `k` that succeeded. A signal is only ever
/// sent together with the removal of the entry it answers.
pub proof fn lemma_one_signal_per_waiter(m: TableModel, events: Seq<TableEvent>, k: Seq<char>)
    ensures
        signal_count(apply_events(m, events).signals, k) + waiting_count(apply_events(m, events), k) == signal_count(
            m.signals,
            k,
        ) + waiting_count(m, k) + registrations(m, events, k),
    decreases events.len(),
{
    if events.len() > 0 {
        let e = events[0];
        lemma_event_balance(m, e, k);
        lemma_one_signal_per_waiter(apply_event(m, e), events.drop_first(), k);
    }
}

/// One caller blocked on a reply.
pub struct PendingWaiter {
    pub id: String,
    pub created_at: u64,
    pub slot: SlotSender,
}

/// Map from correlation id to the single-use slot of the caller waiting for it.
/// At most one waiter exists per id.
pub struct CorrelationTable {
    entries: Vec<PendingWaiter>,
    waiting: Ghost<Map<Seq<char>, u64>>,
    signals: Ghost<Seq<Signal>>,
}

impl View for CorrelationTable {
    type V = TableModel;

    closed spec fn view(&self) -> TableModel {
        TableModel { waiting: self.waiting@, signals: self.signals@ }
    }
}

/// The entries agree with the abstract map, and ids are unique.
spec fn entries_agree(entries: Seq<PendingWaiter>, waiting: Map<Seq<char>, u64>) -> bool {
    &&& waiting.dom().finite()
    &&& waiting.len() == entries.len()
    &&& forall|i: int, j: int| 0 <= i < j < entries.len() ==> entries[i].id@ != entries[j].id@
    &&& forall|i: int|
        0 <= i < entries.len() ==> {
            &&& #[trigger] waiting.contains_key(entries[i].id@)
            &&& waiting[entries[i].id@] == entries[i].created_at
        }
    &&& forall|k: Seq<char>|
        #[trigger] waiting.contains_key(k) ==> exists|i: int| 0 <= i < entries.len() && #[trigger] entries[i].id@ == k
}

/// Where the entry for `key` stands, if anywhere.
fn find(entries: &Vec<PendingWaiter>, key: &String) -> (r: Option<usize>)
    ensures
        match r {
            Some(i) => i < entries@.len() && entries@[i as int].id@ == key@,
            None => forall|j: int| 0 <= j < entries@.len() ==> entries@[j].id@ != key@,
        },
{
    let mut i: usize = 0;
    while i < entries.len()
        invariant
            i <= entries@.len(),
            forall|j: int| 0 <= j < i ==> entries@[j].id@ != key@,
        decreases entries@.len() - i,
    {
        if entries[i].id == *key {
            return Some(i);
        }
        i = i + 1;
    }
    None
}

impl CorrelationTable {
    #[verifier::type_invariant]
    spec fn wf(&self) -> bool {
        entries_agree(self.entries@, self.waiting@)
    }

    /// An empty table.
    pub fn new() -> (r: CorrelationTable)
        ensures
            r@.waiting == Map::<Seq<char>, u64>::empty(),
            r@.signals == Seq::<Signal>::empty(),
    {
        CorrelationTable { entries: Vec::new(), waiting: Ghost(Map::empty()), signals: Ghost(Seq::empty()) }
    }

    /// Number of callers still waiting.
    pub fn len(&self) -> (r: usize)
        ensures
            r == self@.waiting.len(),
    {
        proof {
            use_type_invariant(self);
        }
        self.entries.len()
    }

    /// Whether a caller is waiting for `id`.
    pub fn contains(&self, id: &str) -> (r: bool)
        ensures
            r == self@.waiting.contains_key(id@),
    {
        proof {
            use_type_invariant(self);
        }
        let key = id.to_owned();
        find(&self.entries, &key).is_some()
    }

    /// Adds a waiter for `id`, registered at time `created_at`, whose value
    /// goes to `slot`. Fails with `DuplicateId`, changing nothing, when a
    /// waiter for `id` already exists.
    pub fn register(&mut self, id: String, created_at: u64, slot: SlotSender) -> (r: Result<(), BridgeError>)
        ensures
            old(self)@.waiting.contains_key(id@) ==> r == Err::<(), BridgeError>(BridgeError::DuplicateId)
                && final(self)@ == old(self)@,
            !old(self)@.waiting.contains_key(id@) ==> r is Ok
                && final(self)@ == register_model(old(self)@, id@, created_at),
    {
        proof {
            use_type_invariant(&*self);
        }
        if find(&self.entries, &id).is_some() {
            return Err(BridgeError::DuplicateId);
        }
        let mut taken = CorrelationTable::new();
        std::mem::swap(self, &mut taken);
        proof {
            use_type_invariant(&taken);
        }
        let CorrelationTable { mut entries, waiting, signals } = taken;
        let ghost k = id@;
        let ghost old_entries = entries@;
        let ghost new_waiting = waiting@.insert(k, created_at);
        proof {
            assert(!waiting@.contains_key(k));
            assert(waiting@.dom().insert(k).len() == waiting@.dom().len() + 1);
        }
        entries.push(PendingWaiter { id, created_at, slot });
        proof {
            let n = old_entries.len() as int;
            assert(entries@[n].id@ == k);
            assert forall|q: Seq<char>| #[trigger] new_waiting.contains_key(q) implies exists|i: int|
                0 <= i < entries@.len() && #[trigger] entries@[i].id@ == q by {
                if q != k {
                    let i = choose|i: int| 0 <= i < old_entries.len() && #[trigger] old_entries[i].id@ == q;
                    assert(entries@[i] == old_entries[i]);
                }
            }
            assert forall|i: int| 0 <= i < entries@.len() implies {
                &&& #[trigger] new_waiting.contains_key(entries@[i].id@)
                &&& new_waiting[entries@[i].id@] == entries@[i].created_at
            } by {
                if i < n {
                    assert(entries@[i] == old_entries[i]);
                    assert(old_entries[i].id@ != k);
                }
            }
        }
        *self = CorrelationTable { entries, waiting: Ghost(new_waiting), signals };
        Ok(())
    }

    /// Removes the entry for `key`, if any, records `signal` for it, and
    /// hands back its slot.
    fn take_slot(&mut self, key: &String, signal: Ghost<Option<Seq<char>>>) -> (r: Option<SlotSender>)
        ensures
            (r is Some) == old(self)@.waiting.contains_key(key@),
            old(self)@.waiting.contains_key(key@) ==> final(self)@ == (TableModel {
                waiting: old(self)@.waiting.remove(key@),
                signals: old(self)@.signals.push((key@, signal@)),
            }),
            !old(self)@.waiting.contains_key(key@) ==> final(self)@ == old(self)@,
    {
        proof {
            use_type_invariant(&*self);
        }
        match find(&self.entries, key) {
            None => {
                proof {
                    if self.waiting@.contains_key(key@) {
                        let j = choose|j: int| 0 <= j < self.entries@.len() && #[trigger] self.entries@[j].id@ == key@;
                    }
                }
                None
            },
            Some(i) => {
                let mut taken = CorrelationTable::new();
                std::mem::swap(self, &mut taken);
                proof {
                    use_type_invariant(&taken);
                }
                let CorrelationTable { mut entries, waiting, signals } = taken;
                let ghost k = key@;
                let ghost old_entries = entries@;
                let ghost old_waiting = waiting@;
                let ghost new_waiting = waiting@.remove(k);
                let ghost last = old_entries.len() - 1;
                let entry = entries.swap_remove(i);
                proof {
                    let ne = entries@;
                    assert forall|j: int| 0 <= j < ne.len() implies #[trigger] ne[j] == (if j == i {
                        old_entries[last]
                    } else {
                        old_entries[j]
                    }) by {}
                    assert forall|a: int, b: int| 0 <= a < b < ne.len() implies ne[a].id@ != ne[b].id@ by {
                        if a == i {
                            assert(ne[a] == old_entries[last]);
                            assert(ne[b] == old_entries[b]);
                        } else if b == i {
                            assert(ne[a] == old_entries[a]);
                            assert(ne[b] == old_entries[last]);
                        } else {
                            assert(ne[a] == old_entries[a]);
                            assert(ne[b] == old_entries[b]);
                        }
                    }
                    assert forall|j: int| 0 <= j < ne.len() implies {
                        &&& #[trigger] new_waiting.contains_key(ne[j].id@)
                        &&& new_waiting[ne[j].id@] == ne[j].created_at
                    } by {
                        if j == i {
                            assert(ne[j] == old_entries[last]);
                            assert(old_entries[last].id@ != k);
                            assert(old_waiting.contains_key(old_entries[last].id@));
                        } else {
                            assert(ne[j] == old_entries[j]);
                            assert(old_entries[j].id@ != k);
                            assert(old_waiting.contains_key(old_entries[j].id@));
                        }
                    }
                    assert forall|q: Seq<char>| #[trigger] new_waiting.contains_key(q) implies exists|j: int|
                        0 <= j < ne.len() && #[trigger] ne[j].id@ == q by {
                        let j = choose|j: int| 0 <= j < old_entries.len() && #[trigger] old_entries[j].id@ == q;
                        assert(j != i);
                        if j == last {
                            assert(ne[i as int].id@ == q);
                        } else {
                            assert(ne[j].id@ == q);
                        }
                    }
                }
                *self = CorrelationTable {
                    entries,
                    waiting: Ghost(new_waiting),
                    signals: Ghost(signals@.push((k, signal@))),
                };
                Some(entry.slot)
            },
        }
    }

    /// A response with `payload` arrived for `id`. When a caller waits for
    /// `id`, its entry is removed and the payload delivered to its slot, and
    /// `true` is returned; otherwise nothing changes and `false` is returned.
    pub fn resolve(&mut self, id: &str, payload: String) -> (r: bool)
        ensures
            r == old(self)@.waiting.contains_key(id@),
            final(self)@ == resolve_model(old(self)@, id@, payload@),
    {
        let key = id.to_owned();
        match self.take_slot(&key, Ghost(Some(payload@))) {
            Some(slot) => {
                let _ = deliver(slot, payload);
                true
            },
            None => false,
        }
    }

    /// The wait for `id` expired. When a caller still waits for `id`, its
    /// entry is removed and its slot cancelled, and `true` is returned;
    /// `false` means a response claimed the entry first.
    pub fn cancel(&mut self, id: &str) -> (r: bool)
        ensures
            r == old(self)@.waiting.contains_key(id@),
            final(self)@ == cancel_model(old(self)@, id@),
    {
        let key = id.to_owned();
        match self.take_slot(&key, Ghost(None)) {
            Some(_dropped_slot) => true,
            None => false,
        }
    }
}

} // verus!
