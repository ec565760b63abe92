//! Minimal host-integration contracts as a verified library: a job-indexed
//! callback state machine, a grant-based authorization gate for sponsored
//! message batches, and the owner-gated counters around them.
//!
//! Persistence, address validation and wire encoding belong to the host; the
//! functions here take and return plain values and state exactly how a
//! contract's record and reply follow from them.
use vstd::prelude::*;

pub mod error;
pub mod response;
pub mod callback;
pub mod chain;
pub mod grant;
pub mod query_state;
