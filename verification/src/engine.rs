//! The protocol engine: pure orchestration of the session lifecycle.
//!
//! `load_session` decides what record a request starts with; `finalize`
//! turns the finished record into the ordered list of store operations and
//! the cookie header. All policy lives here; executing the operations and
//! moving bytes is an adapter's job.

use vstd::prelude::*;

use crate::builder::SessionBuilder;
use crate::builder::SessionCookie;
use crate::builder::spec_cookie;
use crate::data::SessionData;
use crate::record::RecordView;
use crate::record::SessionInner;
use crate::record::SessionStatus;

verus! {

/// One operation to run against the backing store, in order.
pub enum StoreOp {
    /// Remove the record stored under the id.
    Remove(String),
    /// Store the data under the id; the store's `set`.
    Put(String, SessionData),
    /// Refresh the record's TTL to the given number of seconds.
    Expire(String, i64),
}

/// The mathematical value of a store operation.
#[verifier::ext_equal]
pub enum StoreOpView {
    Remove(Seq<char>),
    Put(Seq<char>, Map<Seq<char>, Seq<char>>),
    Expire(Seq<char>, i64),
}

impl View for StoreOp {
    type V = StoreOpView;

    open spec fn view(&self) -> StoreOpView {
        match self {
            StoreOp::Remove(id) => StoreOpView::Remove(id@),
            StoreOp::Put(id, data) => StoreOpView::Put(id@, data@),
            StoreOp::Expire(id, ttl) => StoreOpView::Expire(id@, *ttl),
        }
    }
}

/// The operations a vector denotes.
pub open spec fn ops_view(ops: Seq<StoreOp>) -> Seq<StoreOpView> {
    ops.map_values(|op: StoreOp| op@)
}

/// The write-back table: the exact store operations a finished record
/// demands, selected by its final status.
///
/// - `UnChange`: only a TTL refresh, and only when auto-expire is on; the
///   value is never rewritten on a read-only request.
/// - `Change`: remove, then store, then refresh — the remove guarantees a
///   full replacement even under a partial `set`.
/// - `Clear` and `Destroy`: remove only.
/// - `Expire`: a TTL refresh only.
pub open spec fn spec_finalize_ops(r: RecordView, auto_expire: bool, ttl: i64) -> Seq<
    StoreOpView,
> {
    match r.status {
        SessionStatus::UnChange => if auto_expire {
            seq![StoreOpView::Expire(r.id, ttl)]
        } else {
            Seq::<StoreOpView>::empty()
        },
        SessionStatus::Change => seq![
            StoreOpView::Remove(r.id),
            StoreOpView::Put(r.id, r.data),
            StoreOpView::Expire(r.id, ttl),
        ],
        SessionStatus::Clear => seq![StoreOpView::Remove(r.id)],
        SessionStatus::Destroy => seq![StoreOpView::Remove(r.id)],
        SessionStatus::Expire => seq![StoreOpView::Expire(r.id, ttl)],
    }
}

/// The ordered store operations for a finished record, exactly as the
/// write-back table demands.
pub fn finalize_ops(record: SessionInner, auto_expire: bool, ttl: i64) -> (r: Vec<StoreOp>)
    ensures
        ops_view(r@) == spec_finalize_ops(record@, auto_expire, ttl),
{
    let ghost rv = record@;
    let (id, data, status) = record.into_parts();
    let mut ops: Vec<StoreOp> = Vec::new();
    match status {
        SessionStatus::UnChange => {
            if auto_expire {
                ops.push(StoreOp::Expire(id, ttl));
            }
        },
        SessionStatus::Change => {
            ops.push(StoreOp::Remove(id.clone()));
            ops.push(StoreOp::Put(id.clone(), data));
            ops.push(StoreOp::Expire(id, ttl));
        },
        SessionStatus::Clear => {
            ops.push(StoreOp::Remove(id));
        },
        SessionStatus::Destroy => {
            ops.push(StoreOp::Remove(id));
        },
        SessionStatus::Expire => {
            ops.push(StoreOp::Expire(id, ttl));
        },
    }
    proof {
        assert(ops_view(ops@) =~= spec_finalize_ops(rv, auto_expire, ttl));
    }
    ops
}

/// Finalize: the store operations plus the cookie header for a finished
/// record. The cookie is emitted unconditionally, whatever the branch, and
/// always carries the record's id with the configuration's attributes.
pub fn finalize(record: SessionInner, config: &SessionBuilder, now: i64) -> (r: (
    Vec<StoreOp>,
    SessionCookie,
))
    requires
        config.expiry_fits(now),
    ensures
        ops_view(r.0@) == spec_finalize_ops(record@, config@.auto_expire, config@.expire_time),
        r.1@ == spec_cookie(config@, record@.id, now),
{
    let cookie = config.build(record.id().clone(), now);
    let ops = finalize_ops(record, config.auto_expire, config.expire_time);
    (ops, cookie)
}

/// Load: the record a request starts with.
///
/// A request without a cookie, or whose cookie misses the store, gets a
/// fresh record under the freshly generated id — a client-supplied id is
/// never trusted for a brand-new record — with empty data, already marked
/// `Change` so the id is persisted on the first response. A hit yields the
/// stored data under the presented id with status `UnChange`. Load never
/// fails: a store error degrades to the miss case.
pub fn load_session(
    presented: Option<String>,
    stored: Option<SessionData>,
    fresh_id: String,
) -> (r: SessionInner)
    ensures
        presented is Some && stored is Some ==> {
            &&& r@.id == presented.unwrap()@
            &&& r@.data == stored.unwrap()@
            &&& r@.status == SessionStatus::UnChange
        },
        presented is None || stored is None ==> {
            &&& r@.id == fresh_id@
            &&& r@.data == Map::<Seq<char>, Seq<char>>::empty()
            &&& r@.status == SessionStatus::Change
        },
{
    match (presented, stored) {
        (Some(id), Some(data)) => SessionInner::restored(id, data),
        _ => SessionInner::new(fresh_id),
    }
}

/// The store's contents: each session id to its data.
pub open spec fn apply_store_op(
    store: Map<Seq<char>, Map<Seq<char>, Seq<char>>>,
    op: StoreOpView,
) -> Map<Seq<char>, Map<Seq<char>, Seq<char>>> {
    match op {
        StoreOpView::Remove(id) => store.remove(id),
        StoreOpView::Put(id, data) => store.insert(id, data),
        StoreOpView::Expire(_, _) => store,
    }
}

/// The store's contents after a sequence of operations, first one first.
/// TTL refreshes do not change contents.
pub open spec fn apply_store_ops(
    store: Map<Seq<char>, Map<Seq<char>, Seq<char>>>,
    ops: Seq<StoreOpView>,
) -> Map<Seq<char>, Map<Seq<char>, Seq<char>>>
    decreases ops.len(),
{
    if ops.len() == 0 {
        store
    } else {
        apply_store_ops(apply_store_op(store, ops[0]), ops.drop_first())
    }
}

/// One step of `apply_store_ops`, spelled out.
proof fn lemma_apply_step(
    store: Map<Seq<char>, Map<Seq<char>, Seq<char>>>,
    ops: Seq<StoreOpView>,
)
    requires
        ops.len() > 0,
    ensures
        apply_store_ops(store, ops) == apply_store_ops(
            apply_store_op(store, ops[0]),
            ops.drop_first(),
        ),
{
}

/// No operations change nothing.
proof fn lemma_apply_empty(store: Map<Seq<char>, Map<Seq<char>, Seq<char>>>, ops: Seq<StoreOpView>)
    requires
        ops.len() == 0,
    ensures
        apply_store_ops(store, ops) == store,
{
}

/// Law: finalizing a `Change` record leaves the store holding exactly that
/// record's data under its id, whatever the store held before.
pub proof fn lemma_finalize_change_effect(
    r: RecordView,
    auto_expire: bool,
    ttl: i64,
    store: Map<Seq<char>, Map<Seq<char>, Seq<char>>>,
)
    requires
        r.status == SessionStatus::Change,
    ensures
        apply_store_ops(store, spec_finalize_ops(r, auto_expire, ttl)) == store.insert(
            r.id,
            r.data,
        ),
{
    let ops = spec_finalize_ops(r, auto_expire, ttl);
    let after_remove = store.remove(r.id);
    let after_put = after_remove.insert(r.id, r.data);
    lemma_apply_step(store, ops);
    lemma_apply_step(after_remove, ops.drop_first());
    lemma_apply_step(after_put, ops.drop_first().drop_first());
    lemma_apply_empty(after_put, ops.drop_first().drop_first().drop_first());
    assert(after_put =~= store.insert(r.id, r.data));
}

/// Law: finalizing a `Clear` or `Destroy` record removes exactly its id
/// from the store and stores nothing.
pub proof fn lemma_finalize_remove_effect(
    r: RecordView,
    auto_expire: bool,
    ttl: i64,
    store: Map<Seq<char>, Map<Seq<char>, Seq<char>>>,
)
    requires
        r.status == SessionStatus::Clear || r.status == SessionStatus::Destroy,
    ensures
        apply_store_ops(store, spec_finalize_ops(r, auto_expire, ttl)) == store.remove(r.id),
{
    let ops = spec_finalize_ops(r, auto_expire, ttl);
    lemma_apply_step(store, ops);
    lemma_apply_empty(store.remove(r.id), ops.drop_first());
}

/// Law: finalizing an untouched (`UnChange`) or TTL-only (`Expire`) record
/// leaves the store's contents exactly as they were — a read-only request
/// never rewrites a value.
pub proof fn lemma_finalize_read_only_effect(
    r: RecordView,
    auto_expire: bool,
    ttl: i64,
    store: Map<Seq<char>, Map<Seq<char>, Seq<char>>>,
)
    requires
        r.status == SessionStatus::UnChange || r.status == SessionStatus::Expire,
    ensures
        apply_store_ops(store, spec_finalize_ops(r, auto_expire, ttl)) == store,
{
    let ops = spec_finalize_ops(r, auto_expire, ttl);
    if ops.len() > 0 {
        lemma_apply_step(store, ops);
        lemma_apply_empty(store, ops.drop_first());
    } else {
        lemma_apply_empty(store, ops);
    }
}

} // verus!
