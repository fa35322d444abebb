//! The error taxonomy of the session core.

use vstd::prelude::*;

verus! {

/// What can go wrong around a session.
///
/// `NotFound` marks a missing value or record and is a normal outcome, not a
/// failure of the store. Store failures at load time degrade to a fresh
/// session and at finalize time are discarded, so they never surface through
/// the engine; the variants exist for the adapters and backends around it.
#[derive(Clone, Copy, Debug, PartialEq, Eq, Structural)]
pub enum SessionError {
    /// The requested key or session is absent.
    NotFound,
    /// A value could not be represented in the store's wire format.
    Serialization,
    /// The session configuration is missing where it is required.
    Config,
    /// The backing store could not be reached.
    StoreUnavailable,
}

impl SessionError {
    /// A short description, for adapters that must render the error.
    pub fn message(&self) -> (r: &'static str) {
        match self {
            SessionError::NotFound => "session value not found",
            SessionError::Serialization => "session value could not be serialized",
            SessionError::Config => "session config not found",
            SessionError::StoreUnavailable => "session store unavailable",
        }
    }
}

} // verus!
