//! The handler-facing session handle.
//!
//! A `Session` owns the request's record outright: the adapter hands it to
//! the handler for the request's duration and takes it back for finalize, so
//! no sharing or interior mutability is involved.

use vstd::prelude::*;

use crate::errors::SessionError;
use crate::record::RecordView;
use crate::record::SessionInner;
use crate::record::SessionStatus;
use crate::record::spec_clear;
use crate::record::spec_destroy;
use crate::record::spec_remove;
use crate::record::spec_set;

verus! {

/// The session as the handler sees it.
pub struct Session {
    inner: SessionInner,
}

impl View for Session {
    type V = RecordView;

    closed spec fn view(&self) -> RecordView {
        self.inner@
    }
}

impl Session {
    /// Wraps a loaded or freshly created record.
    pub fn new(inner: SessionInner) -> (r: Session)
        ensures
            r@ == inner@,
    {
        Session { inner }
    }

    /// The serialized value under `key`, or `NotFound` if the key is absent.
    /// Never changes the status.
    pub fn get(&self, key: &str) -> (r: Result<String, SessionError>)
        ensures
            match r {
                Ok(v) => self@.data.contains_key(key@) && v@ == self@.data[key@],
                Err(e) => !self@.data.contains_key(key@) && e == SessionError::NotFound,
            },
    {
        match self.inner.get(key) {
            Some(v) => Ok(v.clone()),
            None => Err(SessionError::NotFound),
        }
    }

    /// Stores a serialized value under `key` and marks the session dirty.
    pub fn set(&mut self, key: &str, value: String)
        ensures
            final(self)@ == spec_set(old(self)@, key@, value@),
    {
        self.inner.set(key, value);
    }

    /// Drops the value under `key` and marks the session dirty.
    pub fn remove(&mut self, key: &str)
        ensures
            final(self)@ == spec_remove(old(self)@, key@),
    {
        self.inner.remove(key);
    }

    /// Wipes all data; the store entry will be removed at finalize.
    pub fn clear(&mut self)
        ensures
            final(self)@ == spec_clear(old(self)@),
    {
        self.inner.clear();
    }

    /// Marks the session for destruction; a later `set` revives it to dirty.
    pub fn destroy(&mut self)
        ensures
            final(self)@ == spec_destroy(old(self)@),
    {
        self.inner.destroy();
    }

    /// The number of stored values.
    pub fn len(&self) -> (r: usize)
        ensures
            r == self@.data.len(),
    {
        self.inner.len()
    }

    /// The session identifier.
    pub fn id(&self) -> (r: &String)
        ensures
            r@ == self@.id,
    {
        self.inner.id()
    }

    /// The current mutation status.
    pub fn status(&self) -> (r: SessionStatus)
        ensures
            r == self@.status,
    {
        self.inner.status()
    }

    /// A copy of the underlying record.
    pub fn inner(&self) -> (r: SessionInner)
        ensures
            r@ == self@,
    {
        self.inner.duplicate()
    }

    /// Gives the record back to the adapter for the finalize step.
    pub fn into_inner(self) -> (r: SessionInner)
        ensures
            r@ == self@,
    {
        self.inner
    }
}

/// Access to the request-scoped session slot of a host framework's depot.
pub trait SessionDepotExt {
    /// The session stashed for the current request, if one was loaded.
    fn inner_session(&self) -> Option<Session>;
}

} // verus!
