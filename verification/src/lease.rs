//! The storage lease model.
//!
//! Every persisted entry carries an expiry, measured in ledger time.
//! An entry whose lease has lapsed is semantically equivalent to an
//! absent entry. Any access — read or write — of an entry whose
//! remaining lease is at or below the class threshold pushes the
//! expiry to `now + renewal`; an access outside that window leaves the
//! expiry unchanged.
//!
//! Two storage classes exist: a configuration class (admin identity,
//! wiring addresses) and a per-entity record class (each bottle, each
//! event history). Records use a longer renewal window because they
//! are accessed less frequently than configuration.

use vstd::prelude::*;

verus! {

/// Remaining lease at or below this triggers renewal of a
/// configuration-class entry.
pub const CONFIG_THRESHOLD: u64 = 120_000;

/// A renewed configuration-class entry survives this long past the
/// access that renewed it.
pub const CONFIG_RENEWAL: u64 = 600_000;

/// Remaining lease at or below this triggers renewal of a
/// record-class entry.
pub const RECORD_THRESHOLD: u64 = 240_000;

/// A renewed record-class entry survives this long past the access
/// that renewed it. Longer than the configuration window: records are
/// touched less often.
pub const RECORD_RENEWAL: u64 = 1_200_000;

/// The ledger time is far enough from the end of its range that a
/// renewal of either class cannot overflow.
pub open spec fn time_ok(now: u64) -> bool {
    now + RECORD_RENEWAL <= u64::MAX && now + CONFIG_RENEWAL <= u64::MAX
}

/// An entry with this expiry is still present at ledger time `now`.
pub open spec fn is_live(expiry: u64, now: u64) -> bool {
    now < expiry
}

/// The expiry after one access at ledger time `now`: pushed to
/// `now + renewal` when the remaining lease is at or below the
/// threshold, untouched otherwise. A lapsed entry is gone and is not
/// resurrected by an access.
pub open spec fn spec_renewed(expiry: u64, now: u64, threshold: u64, renewal: u64) -> u64 {
    if is_live(expiry, now) && expiry - now <= threshold {
        (now + renewal) as u64
    } else {
        expiry
    }
}

/// Applies the renewal rule of one storage class to an entry's expiry
/// on an access at ledger time `now`.
pub fn renew_expiry(expiry: u64, now: u64, threshold: u64, renewal: u64) -> (r: u64)
    requires
        now + renewal <= u64::MAX,
    ensures
        r == spec_renewed(expiry, now, threshold, renewal),
{
    if now < expiry && expiry - now <= threshold {
        now + renewal
    } else {
        expiry
    }
}

/// The expiry a freshly written entry starts with.
pub fn fresh_expiry(now: u64, renewal: u64) -> (r: u64)
    requires
        now + renewal <= u64::MAX,
    ensures
        r == now + renewal,
{
    now + renewal
}

/// Law: renewal on access never shortens a live lease, and the entry
/// stays present — reading a record whose remaining lease has fallen
/// to or below the threshold keeps it alive.
pub proof fn lemma_renewal_keeps_live(expiry: u64, now: u64, threshold: u64, renewal: u64)
    requires
        is_live(expiry, now),
        threshold <= renewal,
        now + renewal <= u64::MAX,
    ensures
        is_live(spec_renewed(expiry, now, threshold, renewal), now),
        spec_renewed(expiry, now, threshold, renewal) >= expiry,
{
}

/// Law: inside the renewal window the expiry is pushed to exactly
/// `now + renewal`, for a still-present entry.
pub proof fn lemma_renewal_window(expiry: u64, now: u64, threshold: u64, renewal: u64)
    requires
        is_live(expiry, now),
        expiry - now <= threshold,
    ensures
        spec_renewed(expiry, now, threshold, renewal) == (now + renewal) as u64,
{
}

/// Law: an entry whose lease has fully lapsed behaves as absent and no
/// access renews it.
pub proof fn lemma_lapsed_stays_lapsed(expiry: u64, now: u64, threshold: u64, renewal: u64)
    requires
        !is_live(expiry, now),
    ensures
        spec_renewed(expiry, now, threshold, renewal) == expiry,
        !is_live(spec_renewed(expiry, now, threshold, renewal), now),
{
}

} // verus!
