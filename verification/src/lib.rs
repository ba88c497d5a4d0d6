//! A provenance ledger for uniquely identified wine bottles.
//!
//! The library tracks current custody of each bottle and records an
//! immutable history of custody-affecting events, spread over three
//! cooperating components: a bottle registry (identity and current
//! ownership), a traceability log (append-only event history) and a
//! transfer orchestrator (a saga that keeps the two in sync). A
//! cross-cutting storage lease model governs how long any persisted
//! entry survives without being touched.
//!
//! The hosting ledger environment supplies authorization, the current
//! ledger time and the outcome of remote calls; all of these enter the
//! library as plain values, so every decision the system makes is
//! verified here.

pub mod codec;
pub mod errors;
pub mod lease;
pub mod orchestrator;
pub mod principal;
pub mod registry;
pub mod store;
pub mod traceability;
