//! The per-request session record: an identifier, the key-value bag, and the
//! mutation status that drives the write-back policy at response time.

use vstd::prelude::*;

use crate::data::SessionData;
use crate::idgen::RandKey;

verus! {

/// Tracks how the record was mutated during the request.
///
/// The finalize step reads this status to decide which store operations to
/// issue and never resets it within a request.
#[derive(Clone, Copy, Debug, PartialEq, Eq, Structural)]
pub enum SessionStatus {
    /// The data was not modified.
    UnChange,
    /// A value was stored or removed; the record must be persisted.
    Change,
    /// All data was wiped; the record must be removed from the store.
    Clear,
    /// The record was marked for destruction and must be removed.
    Destroy,
    /// Only the expiration must be refreshed, without rewriting the value.
    Expire,
}

impl Default for SessionStatus {
    /// A fresh status: nothing touched yet.
    fn default() -> (r: SessionStatus)
        ensures
            r == SessionStatus::UnChange,
    {
        SessionStatus::UnChange
    }
}

/// A status that forces a store write or removal at finalize time.
///
/// Once reached, no later call on the record brings the status back to
/// `UnChange`.
pub open spec fn is_dirty(s: SessionStatus) -> bool {
    s == SessionStatus::Change || s == SessionStatus::Clear || s == SessionStatus::Destroy
}

/// The mathematical value of a session record.
#[verifier::ext_equal]
pub struct RecordView {
    pub id: Seq<char>,
    pub data: Map<Seq<char>, Seq<char>>,
    pub status: SessionStatus,
}

/// Effect of storing `v` under `k`.
pub open spec fn spec_set(r: RecordView, k: Seq<char>, v: Seq<char>) -> RecordView {
    RecordView { data: r.data.insert(k, v), status: SessionStatus::Change, ..r }
}

/// Effect of removing the value under `k`.
pub open spec fn spec_remove(r: RecordView, k: Seq<char>) -> RecordView {
    RecordView { data: r.data.remove(k), status: SessionStatus::Change, ..r }
}

/// Effect of clearing the record.
pub open spec fn spec_clear(r: RecordView) -> RecordView {
    RecordView {
        data: Map::<Seq<char>, Seq<char>>::empty(),
        status: SessionStatus::Clear,
        ..r
    }
}

/// Effect of destroying the record.
pub open spec fn spec_destroy(r: RecordView) -> RecordView {
    RecordView { status: SessionStatus::Destroy, ..r }
}

/// The per-request session record.
pub struct SessionInner {
    id: String,
    data: SessionData,
    status: SessionStatus,
}

impl View for SessionInner {
    type V = RecordView;

    closed spec fn view(&self) -> RecordView {
        RecordView { id: self.id@, data: self.data@, status: self.status }
    }
}

impl Default for SessionInner {
    /// An anonymous record under a freshly drawn version-7 UUID: empty and
    /// untouched.
    fn default() -> (r: SessionInner)
        ensures
            r@.id.len() == 36,
            r@.data == Map::<Seq<char>, Seq<char>>::empty(),
            r@.status == SessionStatus::UnChange,
    {
        SessionInner {
            id: RandKey::UuidV7.generate(),
            data: SessionData::new(),
            status: SessionStatus::UnChange,
        }
    }
}

impl SessionInner {
    /// A freshly minted record: empty data, already dirty so that the new id
    /// is persisted on the first response even without any value.
    pub fn new(id: String) -> (r: SessionInner)
        ensures
            r@.id == id@,
            r@.data == Map::<Seq<char>, Seq<char>>::empty(),
            r@.status == SessionStatus::Change,
    {
        SessionInner { id, data: SessionData::new(), status: SessionStatus::Change }
    }

    /// A record rebuilt from the store: loaded data, nothing modified yet.
    pub fn restored(id: String, data: SessionData) -> (r: SessionInner)
        ensures
            r@.id == id@,
            r@.data == data@,
            r@.status == SessionStatus::UnChange,
    {
        SessionInner { id, data, status: SessionStatus::UnChange }
    }

    /// The session identifier.
    pub fn id(&self) -> (r: &String)
        ensures
            r@ == self@.id,
    {
        &self.id
    }

    /// The current mutation status.
    pub fn status(&self) -> (r: SessionStatus)
        ensures
            r == self@.status,
    {
        self.status
    }

    /// The value stored under `key`, if any. Never changes the status.
    pub fn get(&self, key: &str) -> (r: Option<&String>)
        ensures
            match r {
                Some(v) => self@.data.contains_key(key@) && v@ == self@.data[key@],
                None => !self@.data.contains_key(key@),
            },
    {
        self.data.get(key)
    }

    /// Stores `value` under `key` and marks the record dirty.
    pub fn set(&mut self, key: &str, value: String)
        ensures
            final(self)@ == spec_set(old(self)@, key@, value@),
    {
        self.data.insert(key, value);
        self.status = SessionStatus::Change;
    }

    /// Drops the value under `key` and marks the record dirty.
    pub fn remove(&mut self, key: &str)
        ensures
            final(self)@ == spec_remove(old(self)@, key@),
    {
        self.data.remove(key);
        self.status = SessionStatus::Change;
    }

    /// Wipes the data; the record will be removed from the store.
    pub fn clear(&mut self)
        ensures
            final(self)@ == spec_clear(old(self)@),
    {
        self.data.clear();
        self.status = SessionStatus::Clear;
    }

    /// Marks the record for destruction; the store entry will be removed.
    pub fn destroy(&mut self)
        ensures
            final(self)@ == spec_destroy(old(self)@),
    {
        self.status = SessionStatus::Destroy;
    }

    /// The number of stored values.
    pub fn len(&self) -> (r: usize)
        ensures
            r == self@.data.len(),
    {
        self.data.len()
    }

    /// A copy of the whole record.
    pub fn duplicate(&self) -> (r: SessionInner)
        ensures
            r@ == self@,
    {
        SessionInner {
            id: self.id.clone(),
            data: self.data.duplicate(),
            status: self.status,
        }
    }

    /// Hands the parts out, for the finalize step.
    pub fn into_parts(self) -> (r: (String, SessionData, SessionStatus))
        ensures
            r.0@ == self@.id,
            r.1@ == self@.data,
            r.2 == self@.status,
    {
        (self.id, self.data, self.status)
    }
}

/// One call a handler can make on its record during a request.
pub enum RecordOp {
    Get(Seq<char>),
    Put(Seq<char>, Seq<char>),
    Remove(Seq<char>),
    Clear,
    Destroy,
}

/// The record after one handler call. `Get` leaves it untouched.
pub open spec fn apply_op(r: RecordView, op: RecordOp) -> RecordView {
    match op {
        RecordOp::Get(_) => r,
        RecordOp::Put(k, v) => spec_set(r, k, v),
        RecordOp::Remove(k) => spec_remove(r, k),
        RecordOp::Clear => spec_clear(r),
        RecordOp::Destroy => spec_destroy(r),
    }
}

/// The record after a sequence of handler calls, first call first.
pub open spec fn apply_ops(r: RecordView, ops: Seq<RecordOp>) -> RecordView
    decreases ops.len(),
{
    if ops.len() == 0 {
        r
    } else {
        apply_ops(apply_op(r, ops[0]), ops.drop_first())
    }
}

/// Law: storing a value and reading the same key back yields that value.
pub proof fn lemma_set_then_get(r: RecordView, k: Seq<char>, v: Seq<char>)
    ensures
        spec_set(r, k, v).data.contains_key(k),
        spec_set(r, k, v).data[k] == v,
{
}

/// Law: clearing twice leaves exactly the record that one clear leaves —
/// empty data and `Clear` status.
pub proof fn lemma_clear_idempotent(r: RecordView)
    ensures
        spec_clear(spec_clear(r)) == spec_clear(r),
{
}

/// Law: once the status is dirty (`Change`, `Clear` or `Destroy`), no
/// sequence of handler calls — reads included — brings it back to
/// `UnChange`; in particular a `get` changes nothing at all.
pub proof fn lemma_status_monotonic_dirty(r: RecordView, ops: Seq<RecordOp>)
    requires
        is_dirty(r.status),
    ensures
        is_dirty(apply_ops(r, ops).status),
    decreases ops.len(),
{
    if ops.len() > 0 {
        lemma_status_monotonic_dirty(apply_op(r, ops[0]), ops.drop_first());
    }
}

} // verus!
