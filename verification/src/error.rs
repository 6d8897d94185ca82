//! Error taxonomy of the crate.
//!
//! A failed probe write or mode-attribute call at the OS boundary is an
//! `IoError` and aborts the operation. A query that saw no matching reply
//! within its bounded window fails with `QueryError::Timeout`, which is kept
//! distinct from I/O failure and is never silently treated as "unsupported":
//! feature absence is encoded in a query's success value, not in its error.

use vstd::prelude::*;

verus! {

/// An I/O failure reported by one of the consumed terminal interfaces.
#[derive(Clone, Copy, Debug, PartialEq, Eq, Structural)]
pub struct IoError;

/// Why a capability query failed.
#[derive(Clone, Copy, Debug, PartialEq, Eq, Structural)]
pub enum QueryError {
    /// No matching reply arrived within the bounded polling window.
    Timeout,
    /// The probe write failed, or transient poll/read failures exhausted
    /// the query's retry budget.
    Io,
}

} // verus!
