//! The error taxonomy.
//!
//! Every operation returns a result that distinguishes success from a
//! specific kind of failure. The transfer orchestrator never leaks a
//! callee's raw error: it re-wraps registry failures as
//! `FactoryCallFailed` and log failures as `LogCallFailed`, so a caller
//! can tell which half of the workflow failed.

use vstd::prelude::*;

verus! {

/// Failures of the bottle registry.
#[derive(Clone, Copy, PartialEq, Eq, Structural, Debug)]
pub enum BottleFactoryError {
    NotInitialized,
    AlreadyInitialized,
    Unauthorized,
    DuplicateBottle,
    BottleNotFound,
    InvalidInput,
}

/// Failures of the traceability log.
#[derive(Clone, Copy, PartialEq, Eq, Structural, Debug)]
pub enum TraceabilityLogError {
    NotInitialized,
    Unauthorized,
    InvalidEvent,
    InvalidInput,
}

/// Failures of the transfer orchestrator.
#[derive(Clone, Copy, PartialEq, Eq, Structural, Debug)]
pub enum TransferError {
    NotInitialized,
    AlreadyInitialized,
    Unauthorized,
    BottleNotFound,
    FactoryCallFailed,
    LogCallFailed,
    InvalidInput,
}

} // verus!
