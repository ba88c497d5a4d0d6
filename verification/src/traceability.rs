//! The traceability log.
//!
//! An append-only, per-bottle ordered event history, deliberately
//! independent of the registry: the log has no notion of bottle
//! existence, so the history of an unknown identifier is simply
//! empty, never an error, and the log does not verify that an actor
//! is the bottle's legitimate custodian — that check, if any, is the
//! caller's responsibility. Events are never mutated, removed or
//! reordered once written, and are not deduplicated.
//!
//! Each per-bottle history is one record-class persisted entry under
//! the storage lease model: reads and writes renew its lease, and a
//! history whose lease has lapsed behaves as absent.

use vstd::prelude::*;

use crate::errors::TraceabilityLogError;
use crate::lease::{
    fresh_expiry, is_live, renew_expiry, spec_renewed, time_ok, RECORD_RENEWAL, RECORD_THRESHOLD,
};
use crate::principal::Principal;
use crate::store::{
    lemma_lookup_none, lemma_lookup_prefix, lemma_lookup_push, lemma_lookup_update,
    lemma_unique_push, lemma_unique_update, lookup, unique_keys, Keyed,
};

verus! {

/// The closed set of custody-affecting event kinds.
#[derive(Clone, Copy, PartialEq, Eq, Structural, Debug)]
pub enum EventType {
    Bottling,
    Shipped,
    Received,
    Scanned,
}

/// One recorded provenance event. `bottle_id` is a reference, not
/// ownership: the log stores events for any identifier it is handed.
#[derive(Debug)]
pub struct Event {
    pub bottle_id: String,
    pub event_type: EventType,
    pub actor: Principal,
    pub timestamp: u64,
    pub description: String,
}

impl Clone for Event {
    fn clone(&self) -> (r: Self)
        ensures
            r == *self,
    {
        Event {
            bottle_id: self.bottle_id.clone(),
            event_type: self.event_type,
            actor: self.actor,
            timestamp: self.timestamp,
            description: self.description.clone(),
        }
    }
}

/// The signal emitted when an event is appended to a history.
#[derive(Debug)]
pub struct EventLoggedEvent {
    pub bottle_id: String,
    pub event_type: EventType,
    pub actor: Principal,
    pub timestamp: u64,
    pub description: String,
}

/// One bottle's persisted history together with its storage lease.
#[derive(Debug)]
pub struct HistoryEntry {
    pub bottle_id: String,
    pub events: Vec<Event>,
    pub expiry: u64,
}

impl Keyed for HistoryEntry {
    open spec fn key(self) -> Seq<char> {
        self.bottle_id@
    }
}

/// The traceability log: per-bottle histories with record-class
/// leases.
#[derive(Debug)]
pub struct TraceabilityLog {
    pub histories: Vec<HistoryEntry>,
}

impl TraceabilityLog {
    /// The stored history entry under an identifier, lease state
    /// included, whether live or lapsed.
    pub open spec fn spec_entry(self, id: Seq<char>) -> Option<HistoryEntry> {
        lookup(self.histories@, id)
    }

    /// The event sequence visible for an identifier at ledger time
    /// `now`, oldest first: empty for an unknown identifier or one
    /// whose history's lease has lapsed.
    pub open spec fn spec_history(self, id: Seq<char>, now: u64) -> Seq<Event> {
        match self.spec_entry(id) {
            Some(h) => if is_live(h.expiry, now) {
                h.events@
            } else {
                Seq::empty()
            },
            None => Seq::empty(),
        }
    }

    /// Log invariant: one history per identifier, and every stored
    /// event carries the identifier of the history it sits in.
    pub open spec fn wf(self) -> bool {
        &&& unique_keys(self.histories@)
        &&& forall|k: int, j: int|
            0 <= k < self.histories@.len() && 0 <= j < self.histories@[k].events@.len() ==> (
            #[trigger] self.histories@[k].events@[j]).bottle_id@ == self.histories@[k].bottle_id@
    }

    /// An empty log.
    pub fn new() -> (s: Self)
        ensures
            s.histories@ == Seq::<HistoryEntry>::empty(),
            s.wf(),
    {
        TraceabilityLog { histories: Vec::new() }
    }

    /// Position of the history stored under `bottle_id`, if any.
    fn find_index(&self, bottle_id: &String) -> (r: Option<usize>)
        ensures
            match r {
                Some(i) => i < self.histories@.len() && self.histories@[i as int].bottle_id@
                    == bottle_id@ && self.spec_entry(bottle_id@) == Some(
                    self.histories@[i as int],
                ) && (forall|k: int|
                    0 <= k < i ==> (#[trigger] self.histories@[k]).bottle_id@ != bottle_id@),
                None => self.spec_entry(bottle_id@) is None,
            },
    {
        let n = self.histories.len();
        let mut i: usize = 0;
        while i < n
            invariant
                n == self.histories@.len(),
                i <= n,
                forall|k: int|
                    0 <= k < i ==> (#[trigger] self.histories@[k]).bottle_id@ != bottle_id@,
            decreases n - i,
        {
            if self.histories[i].bottle_id.eq(bottle_id) {
                proof {
                    lemma_lookup_prefix(self.histories@, bottle_id@, i as int);
                    assert(self.histories@.skip(i as int)[0] == self.histories@[i as int]);
                }
                return Some(i);
            }
            i = i + 1;
        }
        proof {
            lemma_lookup_prefix(self.histories@, bottle_id@, n as int);
            assert(self.histories@.skip(n as int) =~= Seq::<HistoryEntry>::empty());
        }
        None
    }

    /// Copies an event sequence.
    fn clone_events(v: &Vec<Event>) -> (r: Vec<Event>)
        ensures
            r@ == v@,
    {
        let mut r: Vec<Event> = Vec::new();
        let mut i: usize = 0;
        while i < v.len()
            invariant
                i <= v@.len(),
                r@ == v@.take(i as int),
            decreases v@.len() - i,
        {
            r.push(v[i].clone());
            i = i + 1;
            proof {
                assert(v@.take(i as int) =~= v@.take(i as int - 1).push(v@[i as int - 1]));
            }
        }
        proof {
            assert(v@.take(v@.len() as int) =~= v@);
        }
        r
    }

    /// Appends an event to a bottle's history. The actor must
    /// self-authorize: the caller is the actor, or the call fails
    /// with `Unauthorized` and zero mutation. The event is stamped
    /// with the current ledger time and appended at the end — the
    /// history grows by exactly one, no entry is reordered, dropped
    /// or deduplicated — and the history's lease is renewed (a lapsed
    /// history restarts empty). Returns the logged signal.
    pub fn log_event(
        &mut self,
        bottle_id: String,
        event_type: EventType,
        actor: Principal,
        description: String,
        caller: Principal,
        now: u64,
    ) -> (r: Result<EventLoggedEvent, TraceabilityLogError>)
        requires
            old(self).wf(),
            time_ok(now),
        ensures
            final(self).wf(),
            match r {
                Ok(ev) => {
                    &&& caller == actor
                    &&& final(self).spec_history(bottle_id@, now) == old(self).spec_history(
                        bottle_id@,
                        now,
                    ).push(
                        (Event {
                            bottle_id: bottle_id,
                            event_type: event_type,
                            actor: actor,
                            timestamp: now,
                            description: description,
                        }),
                    )
                    &&& forall|id2: Seq<char>|
                        id2 != bottle_id@ ==> final(self).spec_entry(id2) == old(self).spec_entry(
                            id2,
                        )
                    &&& final(self).spec_entry(bottle_id@) matches Some(h1) && h1.expiry == (
                    match old(self).spec_entry(bottle_id@) {
                        Some(h0) => if is_live(h0.expiry, now) {
                            spec_renewed(h0.expiry, now, RECORD_THRESHOLD, RECORD_RENEWAL)
                        } else {
                            (now + RECORD_RENEWAL) as u64
                        },
                        None => (now + RECORD_RENEWAL) as u64,
                    })
                    &&& ev == (EventLoggedEvent {
                        bottle_id: bottle_id,
                        event_type: event_type,
                        actor: actor,
                        timestamp: now,
                        description: description,
                    })
                },
                Err(e) => e == TraceabilityLogError::Unauthorized && caller != actor && *final(self)
                    == *old(self),
            },
    {
        if caller != actor {
            return Err(TraceabilityLogError::Unauthorized);
        }
        let event = Event {
            bottle_id: bottle_id.clone(),
            event_type,
            actor,
            timestamp: now,
            description: description.clone(),
        };
        let ev = EventLoggedEvent {
            bottle_id: bottle_id.clone(),
            event_type,
            actor,
            timestamp: now,
            description,
        };
        let found = self.find_index(&bottle_id);
        let ghost pre = self.histories@;
        match found {
            Some(i) => {
                let entry = if now < self.histories[i].expiry {
                    let new_expiry = renew_expiry(
                        self.histories[i].expiry,
                        now,
                        RECORD_THRESHOLD,
                        RECORD_RENEWAL,
                    );
                    let mut evs = Self::clone_events(&self.histories[i].events);
                    evs.push(event);
                    HistoryEntry { bottle_id: bottle_id.clone(), events: evs, expiry: new_expiry }
                } else {
                    // Lapsed history: semantically absent, so the new
                    // entry starts from just this event.
                    let mut evs: Vec<Event> = Vec::new();
                    evs.push(event);
                    HistoryEntry {
                        bottle_id: bottle_id.clone(),
                        events: evs,
                        expiry: fresh_expiry(now, RECORD_RENEWAL),
                    }
                };
                proof {
                    lemma_lookup_update(pre, i as int, entry);
                    lemma_unique_update(pre, i as int, entry);
                }
                self.histories[i] = entry;
                proof {
                    assert forall|k: int, j: int|
                        0 <= k < self.histories@.len() && 0 <= j
                            < self.histories@[k].events@.len() implies (
                    #[trigger] self.histories@[k].events@[j]).bottle_id@
                        == self.histories@[k].bottle_id@ by {
                        if k != i as int {
                            assert(self.histories@[k] == pre[k]);
                        }
                    }
                }
            },
            None => {
                let mut evs: Vec<Event> = Vec::new();
                evs.push(event);
                let entry = HistoryEntry {
                    bottle_id: bottle_id.clone(),
                    events: evs,
                    expiry: fresh_expiry(now, RECORD_RENEWAL),
                };
                proof {
                    lemma_lookup_none(pre, bottle_id@);
                    lemma_lookup_push(pre, entry);
                    lemma_unique_push(pre, entry);
                }
                self.histories.push(entry);
                proof {
                    assert forall|k: int, j: int|
                        0 <= k < self.histories@.len() && 0 <= j
                            < self.histories@[k].events@.len() implies (
                    #[trigger] self.histories@[k].events@[j]).bottle_id@
                        == self.histories@[k].bottle_id@ by {
                        if k < pre.len() {
                            assert(self.histories@[k] == pre[k]);
                        }
                    }
                }
            },
        }
        Ok(ev)
    }

    /// The history visible for an identifier, oldest first — empty
    /// for an unknown or lapsed identifier, which is not an error. A
    /// read that finds a live history renews its lease.
    pub fn get_history(&mut self, bottle_id: &String, now: u64) -> (r: Vec<Event>)
        requires
            old(self).wf(),
            time_ok(now),
        ensures
            final(self).wf(),
            r@ == old(self).spec_history(bottle_id@, now),
            forall|id2: Seq<char>|
                final(self).spec_history(id2, now) == old(self).spec_history(id2, now),
            forall|id2: Seq<char>|
                id2 != bottle_id@ ==> final(self).spec_entry(id2) == old(self).spec_entry(id2),
            match old(self).spec_entry(bottle_id@) {
                Some(h0) => if is_live(h0.expiry, now) {
                    final(self).spec_entry(bottle_id@) == Some(
                        (HistoryEntry {
                            bottle_id: h0.bottle_id,
                            events: h0.events,
                            expiry: spec_renewed(h0.expiry, now, RECORD_THRESHOLD, RECORD_RENEWAL),
                        }),
                    )
                } else {
                    *final(self) == *old(self)
                },
                None => *final(self) == *old(self),
            },
    {
        let found = self.find_index(bottle_id);
        match found {
            None => Vec::new(),
            Some(i) => {
                if !(now < self.histories[i].expiry) {
                    return Vec::new();
                }
                let ghost pre = self.histories@;
                let r = Self::clone_events(&self.histories[i].events);
                let new_expiry = renew_expiry(
                    self.histories[i].expiry,
                    now,
                    RECORD_THRESHOLD,
                    RECORD_RENEWAL,
                );
                let ghost entry = HistoryEntry {
                    bottle_id: pre[i as int].bottle_id,
                    events: pre[i as int].events,
                    expiry: new_expiry,
                };
                proof {
                    lemma_lookup_update(pre, i as int, entry);
                    lemma_unique_update(pre, i as int, entry);
                }
                self.histories[i].expiry = new_expiry;
                proof {
                    assert(self.histories@ =~= pre.update(i as int, entry));
                    assert forall|k: int, j: int|
                        0 <= k < self.histories@.len() && 0 <= j
                            < self.histories@[k].events@.len() implies (
                    #[trigger] self.histories@[k].events@[j]).bottle_id@
                        == self.histories@[k].bottle_id@ by {
                        if k != i as int {
                            assert(self.histories@[k] == pre[k]);
                        }
                    }
                }
                r
            },
        }
    }
}

/// Law: appending to a history preserves every earlier event at its
/// position and grows the length by exactly one — histories are never
/// reordered, dropped from, or truncated by an append.
pub proof fn lemma_history_append(h: Seq<Event>, e: Event)
    ensures
        h.push(e).len() == h.len() + 1,
        forall|i: int| 0 <= i < h.len() ==> h.push(e)[i] == h[i],
        h.push(e)[h.len() as int] == e,
{
}

} // verus!
