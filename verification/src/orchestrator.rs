//! The transfer orchestrator.
//!
//! A stateless saga that composes the registry and the log to perform
//! an authorized custody change with an automatic history entry. The
//! steps are strictly ordered, with no compensation and no retry:
//! read the bottle, authorize against the owner just read, commit the
//! custody change in the registry, then append a Shipped event to the
//! log. A remote hop can fail at the host level; registry failures
//! are reported as `FactoryCallFailed` and log failures as
//! `LogCallFailed`, so a caller can tell which half of the workflow
//! failed. When the custody change has committed and only the log
//! append fails, the change stays committed and the history entry is
//! missing — the documented inconsistency window, repaired by
//! `reconcile_shipped`.

use vstd::prelude::*;

use crate::errors::TransferError;
use crate::lease::{
    fresh_expiry, is_live, renew_expiry, spec_renewed, time_ok, CONFIG_RENEWAL, CONFIG_THRESHOLD,
};
use crate::principal::Principal;
use crate::registry::{Bottle, BottleFactory};
use crate::traceability::{EventType, TraceabilityLog};

verus! {

/// The signal emitted when a transfer completes.
#[derive(Debug)]
pub struct TransferCompletedEvent {
    pub bottle_id: String,
    pub from: Principal,
    pub to: Principal,
}

/// Host-level outcomes of the saga's remote hops, as reported by the
/// hosting environment: a set flag means that invocation fails before
/// it reaches the callee (unreachable service, exhausted budget), so
/// none of its effects happen.
#[derive(Clone, Copy, PartialEq, Eq, Structural, Debug)]
pub struct RemoteFaults {
    pub factory_get: bool,
    pub factory_update: bool,
    pub log_append: bool,
}

impl RemoteFaults {
    /// All remote hops reachable.
    pub fn none() -> (r: Self)
        ensures
            !r.factory_get,
            !r.factory_update,
            !r.log_append,
    {
        RemoteFaults { factory_get: false, factory_update: false, log_append: false }
    }
}

/// The orchestrator's own persisted state: the wiring addresses of
/// the two services it composes, one configuration-class lease over
/// both.
pub struct Transfer {
    pub bottle_factory: Option<Principal>,
    pub traceability_log: Option<Principal>,
    pub wiring_expiry: u64,
}

impl Transfer {
    /// The registry address as visible at ledger time `now`: absent
    /// once the configuration lease has lapsed.
    pub open spec fn spec_factory(self, now: u64) -> Option<Principal> {
        if is_live(self.wiring_expiry, now) {
            self.bottle_factory
        } else {
            None
        }
    }

    /// The log address as visible at ledger time `now`.
    pub open spec fn spec_log(self, now: u64) -> Option<Principal> {
        if is_live(self.wiring_expiry, now) {
            self.traceability_log
        } else {
            None
        }
    }

    /// An orchestrator with no wiring yet.
    pub fn new() -> (s: Self)
        ensures
            s.bottle_factory is None,
            s.traceability_log is None,
            s.wiring_expiry == 0,
    {
        Transfer { bottle_factory: None, traceability_log: None, wiring_expiry: 0 }
    }

    /// Renews the configuration-class lease of the wiring entry.
    fn renew_wiring(&mut self, now: u64)
        requires
            time_ok(now),
        ensures
            final(self).bottle_factory == old(self).bottle_factory,
            final(self).traceability_log == old(self).traceability_log,
            final(self).wiring_expiry == spec_renewed(
                old(self).wiring_expiry,
                now,
                CONFIG_THRESHOLD,
                CONFIG_RENEWAL,
            ),
    {
        self.wiring_expiry = renew_expiry(self.wiring_expiry, now, CONFIG_THRESHOLD, CONFIG_RENEWAL);
    }

    /// Stores the addresses of the registry and the log. Fails with
    /// `AlreadyInitialized` — and only then — when wiring is already
    /// visible.
    pub fn init(
        &mut self,
        bottle_factory: Principal,
        traceability_log: Principal,
        now: u64,
    ) -> (r: Result<(), TransferError>)
        requires
            time_ok(now),
        ensures
            match r {
                Ok(_) => old(self).spec_factory(now) is None && final(self).bottle_factory
                    == Some(bottle_factory) && final(self).traceability_log == Some(
                    traceability_log,
                ) && final(self).wiring_expiry == now + CONFIG_RENEWAL,
                Err(e) => e == TransferError::AlreadyInitialized && old(self).spec_factory(
                    now,
                ) is Some && *final(self) == *old(self),
            },
    {
        if now < self.wiring_expiry && self.bottle_factory.is_some() {
            return Err(TransferError::AlreadyInitialized);
        }
        self.bottle_factory = Some(bottle_factory);
        self.traceability_log = Some(traceability_log);
        self.wiring_expiry = fresh_expiry(now, CONFIG_RENEWAL);
        Ok(())
    }

    /// The stored registry address; `NotInitialized` when none is
    /// visible. A successful read renews the wiring lease.
    pub fn bottle_factory(&mut self, now: u64) -> (r: Result<Principal, TransferError>)
        requires
            time_ok(now),
        ensures
            match r {
                Ok(a) => old(self).spec_factory(now) == Some(a) && final(self).bottle_factory
                    == old(self).bottle_factory && final(self).traceability_log == old(
                    self,
                ).traceability_log && final(self).wiring_expiry == spec_renewed(
                    old(self).wiring_expiry,
                    now,
                    CONFIG_THRESHOLD,
                    CONFIG_RENEWAL,
                ),
                Err(e) => e == TransferError::NotInitialized && old(self).spec_factory(
                    now,
                ) is None && *final(self) == *old(self),
            },
    {
        if !(now < self.wiring_expiry) {
            return Err(TransferError::NotInitialized);
        }
        match self.bottle_factory {
            Some(a) => {
                self.renew_wiring(now);
                Ok(a)
            },
            None => Err(TransferError::NotInitialized),
        }
    }

    /// The stored log address; `NotInitialized` when none is visible.
    /// A successful read renews the wiring lease.
    pub fn traceability_log(&mut self, now: u64) -> (r: Result<Principal, TransferError>)
        requires
            time_ok(now),
        ensures
            match r {
                Ok(a) => old(self).spec_log(now) == Some(a) && final(self).bottle_factory == old(
                    self,
                ).bottle_factory && final(self).traceability_log == old(self).traceability_log
                    && final(self).wiring_expiry == spec_renewed(
                    old(self).wiring_expiry,
                    now,
                    CONFIG_THRESHOLD,
                    CONFIG_RENEWAL,
                ),
                Err(e) => e == TransferError::NotInitialized && old(self).spec_log(now) is None
                    && *final(self) == *old(self),
            },
    {
        if !(now < self.wiring_expiry) {
            return Err(TransferError::NotInitialized);
        }
        match self.traceability_log {
            Some(a) => {
                self.renew_wiring(now);
                Ok(a)
            },
            None => Err(TransferError::NotInitialized),
        }
    }

    /// The saga. One attempt, strictly sequential, no compensation:
    ///
    /// 1. read the bottle from the registry — a host-level failure of
    ///    that hop is `FactoryCallFailed`, a clean miss surfaces as
    ///    `BottleNotFound`;
    /// 2. require the caller to be the owner read in step 1, else
    ///    `Unauthorized`;
    /// 3. commit the custody change in the registry — a host-level
    ///    failure is `FactoryCallFailed`, the custody unchanged;
    /// 4. append a Shipped event, actor the prior owner — a
    ///    host-level failure is `LogCallFailed`, and the custody
    ///    change of step 3 stays committed while the history entry is
    ///    missing: the documented inconsistency window;
    /// 5. report completion.
    pub fn transfer(
        &mut self,
        registry: &mut BottleFactory,
        log: &mut TraceabilityLog,
        bottle_id: &String,
        to: Principal,
        caller: Principal,
        faults: RemoteFaults,
        now: u64,
    ) -> (r: Result<TransferCompletedEvent, TransferError>)
        requires
            old(registry).wf(),
            old(log).wf(),
            time_ok(now),
        ensures
            final(registry).wf(),
            final(log).wf(),
            match r {
                Ok(ev) => {
                    &&& old(self).spec_factory(now) is Some
                    &&& !faults.factory_get && !faults.factory_update && !faults.log_append
                    &&& old(registry).spec_get(bottle_id@, now) matches Some(b0)
                        && caller == b0.current_owner
                        && final(registry).spec_get(bottle_id@, now) == Some(
                        (Bottle { current_owner: to, ..b0 }),
                    ) && ev == (TransferCompletedEvent {
                        bottle_id: *bottle_id,
                        from: b0.current_owner,
                        to: to,
                    }) && ({
                        let h0 = old(log).spec_history(bottle_id@, now);
                        let h1 = final(log).spec_history(bottle_id@, now);
                        &&& h1.len() == h0.len() + 1
                        &&& h1 == h0.push(h1.last())
                        &&& h1.last().event_type == EventType::Shipped
                        &&& h1.last().actor == b0.current_owner
                        &&& h1.last().timestamp == now
                        &&& h1.last().bottle_id == *bottle_id
                        &&& h1.last().description@ == "Transferred ownership"@
                    })
                    &&& forall|id2: Seq<char>|
                        id2 != bottle_id@ ==> final(registry).spec_entry(id2) == old(
                            registry,
                        ).spec_entry(id2)
                    &&& forall|id2: Seq<char>|
                        id2 != bottle_id@ ==> final(log).spec_entry(id2) == old(log).spec_entry(
                            id2,
                        )
                    &&& final(registry).admin == old(registry).admin
                    &&& final(self).bottle_factory == old(self).bottle_factory
                    &&& final(self).traceability_log == old(self).traceability_log
                    &&& final(self).wiring_expiry == spec_renewed(
                        old(self).wiring_expiry,
                        now,
                        CONFIG_THRESHOLD,
                        CONFIG_RENEWAL,
                    )
                },
                Err(TransferError::NotInitialized) => old(self).spec_factory(now) is None && *final(self) == *old(self) && *final(registry) == *old(registry) && *final(log) == *old(log),
                Err(TransferError::FactoryCallFailed) => {
                    &&& old(self).spec_factory(now) is Some
                    &&& (faults.factory_get || faults.factory_update)
                    &&& *final(self) == *old(self)
                    &&& *final(log) == *old(log)
                    &&& (if faults.factory_get {
                        *final(registry) == *old(registry)
                    } else {
                        // The read hop committed; the custody change
                        // did not happen.
                        (old(registry).spec_get(bottle_id@, now) matches Some(b0)
                            && caller == b0.current_owner) && (forall|id2: Seq<char>|
                            final(registry).spec_get(id2, now) == old(registry).spec_get(id2, now))
                    })
                },
                Err(TransferError::BottleNotFound) => {
                    &&& old(self).spec_factory(now) is Some
                    &&& !faults.factory_get
                    &&& old(registry).spec_get(bottle_id@, now) is None
                    &&& *final(self) == *old(self)
                    &&& *final(registry) == *old(registry)
                    &&& *final(log) == *old(log)
                },
                Err(TransferError::Unauthorized) => {
                    &&& old(self).spec_factory(now) is Some
                    &&& !faults.factory_get
                    &&& old(registry).spec_get(bottle_id@, now) matches Some(b0) && caller
                        != b0.current_owner
                    &&& (forall|id2: Seq<char>|
                        final(registry).spec_get(id2, now) == old(registry).spec_get(id2, now))
                    &&& *final(self) == *old(self)
                    &&& *final(log) == *old(log)
                },
                Err(TransferError::LogCallFailed) => {
                    // The inconsistency window: the custody change is
                    // committed, the history entry is missing.
                    &&& old(self).spec_factory(now) is Some
                    &&& !faults.factory_get && !faults.factory_update && faults.log_append
                    &&& old(registry).spec_get(bottle_id@, now) matches Some(b0)
                        && caller == b0.current_owner
                        && final(registry).spec_get(bottle_id@, now) == Some(
                        (Bottle { current_owner: to, ..b0 }),
                    )
                    &&& forall|id2: Seq<char>|
                        id2 != bottle_id@ ==> final(registry).spec_entry(id2) == old(
                            registry,
                        ).spec_entry(id2)
                    &&& *final(self) == *old(self)
                    &&& *final(log) == *old(log)
                },
                Err(_) => false,
            },
    {
        if !(now < self.wiring_expiry) {
            return Err(TransferError::NotInitialized);
        }
        if self.bottle_factory.is_none() {
            return Err(TransferError::NotInitialized);
        }
        if faults.factory_get {
            return Err(TransferError::FactoryCallFailed);
        }
        let b0 = match registry.get_bottle(bottle_id, now) {
            Ok(b) => b,
            Err(_) => {
                return Err(TransferError::BottleNotFound);
            },
        };
        let from = b0.current_owner;
        if caller != from {
            return Err(TransferError::Unauthorized);
        }
        if faults.factory_update {
            return Err(TransferError::FactoryCallFailed);
        }
        match registry.update_owner(bottle_id, to, caller, now) {
            Ok(_) => {},
            Err(_) => {
                // The bottle was read and its owner authorized in
                // this same step; the registry contract rules a
                // failure out.
                proof {
                    assert(false);
                }
                return Err(TransferError::FactoryCallFailed);
            },
        }
        if faults.log_append {
            return Err(TransferError::LogCallFailed);
        }
        let description = String::from_str("Transferred ownership");
        match log.log_event(
            bottle_id.clone(),
            EventType::Shipped,
            from,
            description,
            from,
            now,
        ) {
            Ok(_) => {},
            Err(_) => {
                // The actor self-authorizes: the log contract rules a
                // failure out.
                proof {
                    assert(false);
                }
                return Err(TransferError::LogCallFailed);
            },
        }
        self.renew_wiring(now);
        Ok(TransferCompletedEvent { bottle_id: bottle_id.clone(), from, to })
    }

    /// The current owner of a bottle, read through the registry;
    /// shares the orchestrator's `NotInitialized` failure mode.
    pub fn get_owner(&mut self, registry: &mut BottleFactory, bottle_id: &String, now: u64) -> (r:
        Result<Principal, TransferError>)
        requires
            old(registry).wf(),
            time_ok(now),
        ensures
            final(registry).wf(),
            match r {
                Ok(p) => {
                    &&& old(self).spec_factory(now) is Some
                    &&& old(registry).spec_get(bottle_id@, now) matches Some(b0) && p
                        == b0.current_owner
                    &&& forall|id2: Seq<char>|
                        final(registry).spec_get(id2, now) == old(registry).spec_get(id2, now)
                    &&& final(self).bottle_factory == old(self).bottle_factory
                    &&& final(self).traceability_log == old(self).traceability_log
                    &&& final(self).wiring_expiry == spec_renewed(
                        old(self).wiring_expiry,
                        now,
                        CONFIG_THRESHOLD,
                        CONFIG_RENEWAL,
                    )
                },
                Err(TransferError::NotInitialized) => old(self).spec_factory(now) is None && *final(self) == *old(self) && *final(registry) == *old(registry),
                Err(TransferError::BottleNotFound) => {
                    &&& old(self).spec_factory(now) is Some
                    &&& old(registry).spec_get(bottle_id@, now) is None
                    &&& *final(self) == *old(self)
                    &&& *final(registry) == *old(registry)
                },
                Err(_) => false,
            },
    {
        if !(now < self.wiring_expiry) {
            return Err(TransferError::NotInitialized);
        }
        if self.bottle_factory.is_none() {
            return Err(TransferError::NotInitialized);
        }
        let b0 = match registry.get_bottle(bottle_id, now) {
            Ok(b) => b,
            Err(_) => {
                return Err(TransferError::BottleNotFound);
            },
        };
        self.renew_wiring(now);
        Ok(b0.current_owner)
    }

    /// Repairs the inconsistency window: after a transfer reported
    /// `LogCallFailed`, the custody change is committed but the
    /// Shipped event is missing. The prior owner — the actor of the
    /// missing event — self-authorizes and the entry is appended as
    /// the transfer would have appended it.
    pub fn reconcile_shipped(
        &mut self,
        log: &mut TraceabilityLog,
        bottle_id: &String,
        prior_owner: Principal,
        caller: Principal,
        now: u64,
    ) -> (r: Result<(), TransferError>)
        requires
            old(log).wf(),
            time_ok(now),
        ensures
            final(log).wf(),
            match r {
                Ok(_) => {
                    &&& old(self).spec_log(now) is Some
                    &&& caller == prior_owner
                    &&& ({
                        let h0 = old(log).spec_history(bottle_id@, now);
                        let h1 = final(log).spec_history(bottle_id@, now);
                        &&& h1.len() == h0.len() + 1
                        &&& h1 == h0.push(h1.last())
                        &&& h1.last().event_type == EventType::Shipped
                        &&& h1.last().actor == prior_owner
                        &&& h1.last().timestamp == now
                        &&& h1.last().bottle_id == *bottle_id
                        &&& h1.last().description@ == "Transferred ownership"@
                    })
                    &&& forall|id2: Seq<char>|
                        id2 != bottle_id@ ==> final(log).spec_entry(id2) == old(log).spec_entry(
                            id2,
                        )
                    &&& final(self).bottle_factory == old(self).bottle_factory
                    &&& final(self).traceability_log == old(self).traceability_log
                    &&& final(self).wiring_expiry == spec_renewed(
                        old(self).wiring_expiry,
                        now,
                        CONFIG_THRESHOLD,
                        CONFIG_RENEWAL,
                    )
                },
                Err(TransferError::NotInitialized) => old(self).spec_log(now) is None && *final(self) == *old(self) && *final(log) == *old(log),
                Err(TransferError::Unauthorized) => old(self).spec_log(now) is Some && caller
                    != prior_owner && *final(self) == *old(self) && *final(log) == *old(log),
                Err(_) => false,
            },
    {
        if !(now < self.wiring_expiry) {
            return Err(TransferError::NotInitialized);
        }
        if self.traceability_log.is_none() {
            return Err(TransferError::NotInitialized);
        }
        if caller != prior_owner {
            return Err(TransferError::Unauthorized);
        }
        let description = String::from_str("Transferred ownership");
        match log.log_event(
            bottle_id.clone(),
            EventType::Shipped,
            prior_owner,
            description,
            caller,
            now,
        ) {
            Ok(_) => {},
            Err(_) => {
                // The actor self-authorizes: the log contract rules a
                // failure out.
                proof {
                    assert(false);
                }
                return Err(TransferError::Unauthorized);
            },
        }
        self.renew_wiring(now);
        Ok(())
    }
}

} // verus!
