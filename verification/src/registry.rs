//! The bottle registry.
//!
//! The registry owns identity and current custody per bottle. It
//! enforces identifier uniqueness, admin-gated minting and per-record
//! authorization: a bottle's custody is changed by its own current
//! owner, not by the global admin. Every persisted entry — the admin
//! identity (configuration class) and each bottle record (record
//! class) — carries a storage lease that is renewed on access; a
//! record whose lease has lapsed behaves as absent.
//!
//! A failed operation leaves the registry exactly as it was: errors
//! abort with zero mutation.

use vstd::prelude::*;

use crate::codec::{bottle_id_chars, format_bottle_id, id_fits};
use crate::errors::BottleFactoryError;
use crate::lease::{
    fresh_expiry, is_live, renew_expiry, spec_renewed, time_ok, CONFIG_RENEWAL, CONFIG_THRESHOLD,
    RECORD_RENEWAL, RECORD_THRESHOLD,
};
use crate::principal::Principal;
use crate::store::{
    lemma_lookup_none, lemma_lookup_prefix, lemma_lookup_push, lemma_lookup_update,
    lemma_unique_push, lemma_unique_update, lookup, unique_keys, Keyed,
};

verus! {

/// One registered bottle. The identifier is derived from the lot and
/// the sequence number by the codec; the producer (`winery`) never
/// changes after creation, while `current_owner` follows custody.
#[derive(Debug)]
pub struct Bottle {
    pub id: String,
    pub lot_id: String,
    pub bottle_number: u32,
    pub winery: Principal,
    pub current_owner: Principal,
    pub wine_name: String,
    pub vintage: u32,
    pub created_at: u64,
    pub metadata_uri: String,
}

impl Clone for Bottle {
    fn clone(&self) -> (r: Self)
        ensures
            r == *self,
    {
        Bottle {
            id: self.id.clone(),
            lot_id: self.lot_id.clone(),
            bottle_number: self.bottle_number,
            winery: self.winery,
            current_owner: self.current_owner,
            wine_name: self.wine_name.clone(),
            vintage: self.vintage,
            created_at: self.created_at,
            metadata_uri: self.metadata_uri.clone(),
        }
    }
}

/// The signal emitted when a bottle is minted, carrying all fields of
/// the new record.
#[derive(Debug)]
pub struct BottleMintedEvent {
    pub bottle_id: String,
    pub lot_id: String,
    pub bottle_number: u32,
    pub winery: Principal,
    pub wine_name: String,
    pub vintage: u32,
}

/// The signal emitted when a bottle's custody changes, reporting the
/// previous and the new owner.
#[derive(Debug)]
pub struct OwnerUpdatedEvent {
    pub bottle_id: String,
    pub previous_owner: Principal,
    pub new_owner: Principal,
}

/// A persisted bottle record together with its storage lease.
#[derive(Debug)]
pub struct BottleEntry {
    pub bottle: Bottle,
    pub expiry: u64,
}

impl Keyed for BottleEntry {
    open spec fn key(self) -> Seq<char> {
        self.bottle.id@
    }
}

/// The bottle registry: the stored admin identity with its
/// configuration-class lease, and the bottle records with their
/// record-class leases.
pub struct BottleFactory {
    pub admin: Option<Principal>,
    pub admin_expiry: u64,
    pub bottles: Vec<BottleEntry>,
}

impl BottleFactory {
    /// The admin as visible at ledger time `now`: absent once the
    /// configuration lease has lapsed.
    pub open spec fn spec_admin(self, now: u64) -> Option<Principal> {
        if is_live(self.admin_expiry, now) {
            self.admin
        } else {
            None
        }
    }

    /// The stored entry under an identifier, lease state included,
    /// whether live or lapsed.
    pub open spec fn spec_entry(self, id: Seq<char>) -> Option<BottleEntry> {
        lookup(self.bottles@, id)
    }

    /// The bottle as visible at ledger time `now`: absent when never
    /// minted or when its lease has lapsed.
    pub open spec fn spec_get(self, id: Seq<char>, now: u64) -> Option<Bottle> {
        match self.spec_entry(id) {
            Some(e) => if is_live(e.expiry, now) {
                Some(e.bottle)
            } else {
                None
            },
            None => None,
        }
    }

    /// Registry invariant: identifiers are unique across the
    /// registry, and every stored identifier is the codec image of
    /// its own lot and sequence number.
    pub open spec fn wf(self) -> bool {
        &&& unique_keys(self.bottles@)
        &&& forall|k: int|
            0 <= k < self.bottles@.len() ==> (#[trigger] self.bottles@[k]).bottle.id@
                == bottle_id_chars(
                self.bottles@[k].bottle.lot_id@,
                self.bottles@[k].bottle.bottle_number,
            )
    }

    /// An empty registry: no admin, no bottles.
    pub fn new() -> (s: Self)
        ensures
            s.admin is None,
            s.admin_expiry == 0,
            s.bottles@ == Seq::<BottleEntry>::empty(),
            s.wf(),
    {
        BottleFactory { admin: None, admin_expiry: 0, bottles: Vec::new() }
    }

    /// Renews the configuration-class lease of the admin entry.
    fn renew_instance(&mut self, now: u64)
        requires
            time_ok(now),
        ensures
            final(self).admin == old(self).admin,
            final(self).bottles == old(self).bottles,
            final(self).admin_expiry == spec_renewed(
                old(self).admin_expiry,
                now,
                CONFIG_THRESHOLD,
                CONFIG_RENEWAL,
            ),
    {
        self.admin_expiry = renew_expiry(self.admin_expiry, now, CONFIG_THRESHOLD, CONFIG_RENEWAL);
    }

    /// Position of the entry stored under `bottle_id`, if any.
    fn find_index(&self, bottle_id: &String) -> (r: Option<usize>)
        ensures
            match r {
                Some(i) => i < self.bottles@.len() && self.bottles@[i as int].bottle.id@
                    == bottle_id@ && self.spec_entry(bottle_id@) == Some(
                    self.bottles@[i as int],
                ) && (forall|k: int|
                    0 <= k < i ==> (#[trigger] self.bottles@[k]).bottle.id@ != bottle_id@),
                None => self.spec_entry(bottle_id@) is None,
            },
    {
        let n = self.bottles.len();
        let mut i: usize = 0;
        while i < n
            invariant
                n == self.bottles@.len(),
                i <= n,
                forall|k: int| 0 <= k < i ==> (#[trigger] self.bottles@[k]).bottle.id@ != bottle_id@,
            decreases n - i,
        {
            if self.bottles[i].bottle.id.eq(bottle_id) {
                proof {
                    lemma_lookup_prefix(self.bottles@, bottle_id@, i as int);
                    assert(self.bottles@.skip(i as int)[0] == self.bottles@[i as int]);
                }
                return Some(i);
            }
            i = i + 1;
        }
        proof {
            lemma_lookup_prefix(self.bottles@, bottle_id@, n as int);
            assert(self.bottles@.skip(n as int) =~= Seq::<BottleEntry>::empty());
        }
        None
    }

    /// Sets the admin. Fails with `AlreadyInitialized` — and only
    /// then — when an admin is already visible; on success the admin
    /// entry is written with a fresh configuration-class lease.
    pub fn init(&mut self, admin: Principal, now: u64) -> (r: Result<(), BottleFactoryError>)
        requires
            old(self).wf(),
            time_ok(now),
        ensures
            final(self).wf(),
            match r {
                Ok(_) => old(self).spec_admin(now) is None && final(self).admin == Some(admin)
                    && final(self).admin_expiry == now + CONFIG_RENEWAL && final(self).spec_admin(
                    now,
                ) == Some(admin) && final(self).bottles == old(self).bottles,
                Err(e) => e == BottleFactoryError::AlreadyInitialized && old(self).spec_admin(
                    now,
                ) is Some && *final(self) == *old(self),
            },
    {
        if now < self.admin_expiry && self.admin.is_some() {
            return Err(BottleFactoryError::AlreadyInitialized);
        }
        self.admin = Some(admin);
        self.admin_expiry = fresh_expiry(now, CONFIG_RENEWAL);
        Ok(())
    }

    /// The stored admin. Fails with `NotInitialized` — and only then —
    /// when no admin is visible; a successful read renews the
    /// configuration-class lease.
    pub fn admin(&mut self, now: u64) -> (r: Result<Principal, BottleFactoryError>)
        requires
            old(self).wf(),
            time_ok(now),
        ensures
            final(self).wf(),
            match r {
                Ok(a) => old(self).spec_admin(now) == Some(a) && final(self).admin
                    == old(self).admin && final(self).bottles == old(self).bottles
                    && final(self).admin_expiry
                    == spec_renewed(
                    old(self).admin_expiry,
                    now,
                    CONFIG_THRESHOLD,
                    CONFIG_RENEWAL,
                ) && final(self).spec_admin(now) == Some(a),
                Err(e) => e == BottleFactoryError::NotInitialized && old(self).spec_admin(
                    now,
                ) is None && *final(self) == *old(self),
            },
    {
        if !(now < self.admin_expiry) {
            return Err(BottleFactoryError::NotInitialized);
        }
        match self.admin {
            Some(a) => {
                self.renew_instance(now);
                Ok(a)
            },
            None => Err(BottleFactoryError::NotInitialized),
        }
    }

    /// Mints a bottle: requires authorization as the stored admin,
    /// derives the identifier through the codec, refuses an
    /// identifier that is already taken, and creates the record with
    /// the producer as first owner, stamped with the current ledger
    /// time and leased fresh. Returns the identifier together with
    /// the minted signal carrying all fields.
    pub fn mint_bottle(
        &mut self,
        lot_id: String,
        bottle_number: u32,
        winery: Principal,
        wine_name: String,
        vintage: u32,
        metadata_uri: String,
        caller: Principal,
        now: u64,
    ) -> (r: Result<(String, BottleMintedEvent), BottleFactoryError>)
        requires
            old(self).wf(),
            time_ok(now),
        ensures
            final(self).wf(),
            match r {
                Ok((id, ev)) => {
                    &&& old(self).spec_admin(now) == Some(caller)
                    &&& id_fits(lot_id@, bottle_number)
                    &&& id@ == bottle_id_chars(lot_id@, bottle_number)
                    &&& old(self).spec_get(id@, now) is None
                    &&& final(self).spec_entry(id@) == Some(
                        (BottleEntry {
                            bottle: (Bottle {
                                id: id,
                                lot_id: lot_id,
                                bottle_number: bottle_number,
                                winery: winery,
                                current_owner: winery,
                                wine_name: wine_name,
                                vintage: vintage,
                                created_at: now,
                                metadata_uri: metadata_uri,
                            }),
                            expiry: ((now + RECORD_RENEWAL) as u64),
                        }),
                    )
                    &&& forall|id2: Seq<char>|
                        id2 != id@ ==> final(self).spec_entry(id2) == old(self).spec_entry(id2)
                    &&& final(self).admin == old(self).admin
                    &&& final(self).admin_expiry == spec_renewed(
                        old(self).admin_expiry,
                        now,
                        CONFIG_THRESHOLD,
                        CONFIG_RENEWAL,
                    )
                    &&& ev == (BottleMintedEvent {
                        bottle_id: id,
                        lot_id: lot_id,
                        bottle_number: bottle_number,
                        winery: winery,
                        wine_name: wine_name,
                        vintage: vintage,
                    })
                },
                Err(BottleFactoryError::NotInitialized) => old(self).spec_admin(now) is None
                    && *final(self) == *old(self),
                Err(BottleFactoryError::Unauthorized) => (old(self).spec_admin(now) matches Some(a)
                    && a != caller) && *final(self) == *old(self),
                Err(BottleFactoryError::InvalidInput) => old(self).spec_admin(now) == Some(caller)
                    && !id_fits(lot_id@, bottle_number) && *final(self) == *old(self),
                Err(BottleFactoryError::DuplicateBottle) => old(self).spec_admin(now) == Some(
                    caller,
                ) && id_fits(lot_id@, bottle_number) && old(self).spec_get(
                    bottle_id_chars(lot_id@, bottle_number),
                    now,
                ) is Some && *final(self) == *old(self),
                Err(_) => false,
            },
    {
        if !(now < self.admin_expiry) {
            return Err(BottleFactoryError::NotInitialized);
        }
        let admin = match self.admin {
            Some(a) => a,
            None => {
                return Err(BottleFactoryError::NotInitialized);
            },
        };
        if caller != admin {
            return Err(BottleFactoryError::Unauthorized);
        }
        let bottle_id = match format_bottle_id(&lot_id, bottle_number) {
            Ok(id) => id,
            Err(e) => {
                return Err(e);
            },
        };
        let found = self.find_index(&bottle_id);
        if let Some(i) = found {
            if now < self.bottles[i].expiry {
                return Err(BottleFactoryError::DuplicateBottle);
            }
        }
        // The identifier is free: either never used, or only a lapsed
        // record — semantically absent — still holds it.
        self.renew_instance(now);
        let bottle = Bottle {
            id: bottle_id.clone(),
            lot_id: lot_id.clone(),
            bottle_number,
            winery,
            current_owner: winery,
            wine_name: wine_name.clone(),
            vintage,
            created_at: now,
            metadata_uri: metadata_uri.clone(),
        };
        let ev = BottleMintedEvent {
            bottle_id: bottle_id.clone(),
            lot_id,
            bottle_number,
            winery,
            wine_name,
            vintage,
        };
        let entry = BottleEntry { bottle, expiry: fresh_expiry(now, RECORD_RENEWAL) };
        let ghost pre = self.bottles@;
        match found {
            Some(i) => {
                proof {
                    lemma_lookup_update(pre, i as int, entry);
                    lemma_unique_update(pre, i as int, entry);
                }
                self.bottles[i] = entry;
                proof {
                    assert forall|k: int| 0 <= k < self.bottles@.len() implies (
                    #[trigger] self.bottles@[k]).bottle.id@ == bottle_id_chars(
                        self.bottles@[k].bottle.lot_id@,
                        self.bottles@[k].bottle.bottle_number,
                    ) by {
                        if k != i as int {
                            assert(self.bottles@[k] == pre[k]);
                        }
                    }
                }
            },
            None => {
                proof {
                    lemma_lookup_none(pre, bottle_id@);
                    lemma_lookup_push(pre, entry);
                    lemma_unique_push(pre, entry);
                }
                self.bottles.push(entry);
                proof {
                    assert forall|k: int| 0 <= k < self.bottles@.len() implies (
                    #[trigger] self.bottles@[k]).bottle.id@ == bottle_id_chars(
                        self.bottles@[k].bottle.lot_id@,
                        self.bottles@[k].bottle.bottle_number,
                    ) by {
                        if k < pre.len() {
                            assert(self.bottles@[k] == pre[k]);
                        }
                    }
                }
            },
        }
        Ok((bottle_id, ev))
    }

    /// Reads a bottle. Fails with `BottleNotFound` — and only then —
    /// when the identifier is unknown or its record's lease has
    /// lapsed; a successful read renews the record's lease and the
    /// configuration lease.
    pub fn get_bottle(&mut self, bottle_id: &String, now: u64) -> (r: Result<
        Bottle,
        BottleFactoryError,
    >)
        requires
            old(self).wf(),
            time_ok(now),
        ensures
            final(self).wf(),
            match r {
                Ok(b) => {
                    &&& old(self).spec_get(bottle_id@, now) == Some(b)
                    &&& old(self).spec_entry(bottle_id@) matches Some(e0)
                        && final(self).spec_entry(bottle_id@) == Some(
                        (BottleEntry {
                            bottle: e0.bottle,
                            expiry: spec_renewed(e0.expiry, now, RECORD_THRESHOLD, RECORD_RENEWAL),
                        }),
                    )
                    &&& forall|id2: Seq<char>|
                        id2 != bottle_id@ ==> final(self).spec_entry(id2) == old(self).spec_entry(
                            id2,
                        )
                    &&& forall|id2: Seq<char>|
                        final(self).spec_get(id2, now) == old(self).spec_get(id2, now)
                    &&& final(self).admin == old(self).admin
                    &&& final(self).admin_expiry == spec_renewed(
                        old(self).admin_expiry,
                        now,
                        CONFIG_THRESHOLD,
                        CONFIG_RENEWAL,
                    )
                },
                Err(e) => e == BottleFactoryError::BottleNotFound && old(self).spec_get(
                    bottle_id@,
                    now,
                ) is None && *final(self) == *old(self),
            },
    {
        let found = self.find_index(bottle_id);
        match found {
            None => Err(BottleFactoryError::BottleNotFound),
            Some(i) => {
                if !(now < self.bottles[i].expiry) {
                    return Err(BottleFactoryError::BottleNotFound);
                }
                self.renew_instance(now);
                let ghost pre = self.bottles@;
                let b = self.bottles[i].bottle.clone();
                let new_expiry = renew_expiry(
                    self.bottles[i].expiry,
                    now,
                    RECORD_THRESHOLD,
                    RECORD_RENEWAL,
                );
                let entry = BottleEntry { bottle: self.bottles[i].bottle.clone(), expiry: new_expiry };
                proof {
                    lemma_lookup_update(pre, i as int, entry);
                    lemma_unique_update(pre, i as int, entry);
                }
                self.bottles[i] = entry;
                proof {
                    assert forall|k: int| 0 <= k < self.bottles@.len() implies (
                    #[trigger] self.bottles@[k]).bottle.id@ == bottle_id_chars(
                        self.bottles@[k].bottle.lot_id@,
                        self.bottles@[k].bottle.bottle_number,
                    ) by {
                        if k != i as int {
                            assert(self.bottles@[k] == pre[k]);
                        }
                    }
                    assert forall|id2: Seq<char>| self.spec_get(id2, now) == old(self).spec_get(
                        id2,
                        now,
                    ) by {
                        if id2 != bottle_id@ {
                            assert(self.spec_entry(id2) == old(self).spec_entry(id2));
                        }
                    }
                }
                Ok(b)
            },
        }
    }

    /// Changes a bottle's custody. Requires authorization from the
    /// record's own current owner as read in this same step — not
    /// from the admin. Fails with `BottleNotFound` when the record is
    /// unknown or lapsed, with `Unauthorized` when the caller is not
    /// the current owner, each with zero mutation; on success only
    /// `current_owner` changes, the record's lease is renewed, and
    /// the returned signal reports the previous and the new owner.
    pub fn update_owner(
        &mut self,
        bottle_id: &String,
        new_owner: Principal,
        caller: Principal,
        now: u64,
    ) -> (r: Result<OwnerUpdatedEvent, BottleFactoryError>)
        requires
            old(self).wf(),
            time_ok(now),
        ensures
            final(self).wf(),
            match r {
                Ok(ev) => {
                    &&& old(self).spec_entry(bottle_id@) matches Some(e0)
                    &&& is_live(e0.expiry, now)
                    &&& caller == e0.bottle.current_owner
                    &&& final(self).spec_entry(bottle_id@) == Some(
                        (BottleEntry {
                            bottle: (Bottle { current_owner: new_owner, ..e0.bottle }),
                            expiry: spec_renewed(e0.expiry, now, RECORD_THRESHOLD, RECORD_RENEWAL),
                        }),
                    )
                    &&& forall|id2: Seq<char>|
                        id2 != bottle_id@ ==> final(self).spec_entry(id2) == old(self).spec_entry(
                            id2,
                        )
                    &&& final(self).admin == old(self).admin
                    &&& final(self).admin_expiry == spec_renewed(
                        old(self).admin_expiry,
                        now,
                        CONFIG_THRESHOLD,
                        CONFIG_RENEWAL,
                    )
                    &&& ev == (OwnerUpdatedEvent {
                        bottle_id: *bottle_id,
                        previous_owner: e0.bottle.current_owner,
                        new_owner: new_owner,
                    })
                },
                Err(BottleFactoryError::BottleNotFound) => old(self).spec_get(
                    bottle_id@,
                    now,
                ) is None && *final(self) == *old(self),
                Err(BottleFactoryError::Unauthorized) => (old(self).spec_get(
                    bottle_id@,
                    now,
                ) matches Some(b0) && caller != b0.current_owner) && *final(self) == *old(self),
                Err(_) => false,
            },
    {
        let found = self.find_index(bottle_id);
        match found {
            None => Err(BottleFactoryError::BottleNotFound),
            Some(i) => {
                if !(now < self.bottles[i].expiry) {
                    return Err(BottleFactoryError::BottleNotFound);
                }
                let previous_owner = self.bottles[i].bottle.current_owner;
                if caller != previous_owner {
                    return Err(BottleFactoryError::Unauthorized);
                }
                self.renew_instance(now);
                let ghost pre = self.bottles@;
                let new_expiry = renew_expiry(
                    self.bottles[i].expiry,
                    now,
                    RECORD_THRESHOLD,
                    RECORD_RENEWAL,
                );
                let b0 = self.bottles[i].bottle.clone();
                let entry = BottleEntry {
                    bottle: Bottle { current_owner: new_owner, ..b0 },
                    expiry: new_expiry,
                };
                proof {
                    lemma_lookup_update(pre, i as int, entry);
                    lemma_unique_update(pre, i as int, entry);
                }
                self.bottles[i] = entry;
                proof {
                    assert forall|k: int| 0 <= k < self.bottles@.len() implies (
                    #[trigger] self.bottles@[k]).bottle.id@ == bottle_id_chars(
                        self.bottles@[k].bottle.lot_id@,
                        self.bottles@[k].bottle.bottle_number,
                    ) by {
                        if k != i as int {
                            assert(self.bottles@[k] == pre[k]);
                        }
                    }
                }
                Ok(
                    OwnerUpdatedEvent {
                        bottle_id: bottle_id.clone(),
                        previous_owner,
                        new_owner,
                    },
                )
            },
        }
    }
}

} // verus!
