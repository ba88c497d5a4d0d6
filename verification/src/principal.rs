//! Principals: cryptographically identifiable actors.
//!
//! The hosting ledger identifies every account and contract by an
//! opaque address and attests, per invocation, which principal has
//! authorized the call. The library only ever compares principals for
//! equality, so a principal is modelled as a plain numeric identity;
//! the adapter that sits between the library and the host maps real
//! addresses to these identities one for one.

use vstd::prelude::*;

verus! {

/// A cryptographically identifiable actor or account, able to
/// authorize calls. Two principals are the same actor exactly when
/// their identities are equal.
#[derive(Clone, Copy, PartialEq, Eq, Structural, Debug, Hash)]
pub struct Principal(pub u64);

} // verus!
