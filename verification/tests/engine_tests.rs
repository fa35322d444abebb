//! Scenario tests of the protocol engine: load and finalize.

use rsession::RefreshStrategy;
use rsession::Session;
use rsession::SessionBuilder;
use rsession::SessionStatus;
use rsession::StoreOp;
use rsession::engine::finalize;
use rsession::engine::finalize_ops;
use rsession::load_from_payload;

fn expect_remove(op: &StoreOp, id: &str) {
    match op {
        StoreOp::Remove(x) => assert_eq!(x.as_str(), id),
        _ => panic!("expected a remove operation"),
    }
}

fn expect_put<'a>(op: &'a StoreOp, id: &str) -> &'a rsession::SessionData {
    match op {
        StoreOp::Put(x, data) => {
            assert_eq!(x.as_str(), id);
            data
        }
        _ => panic!("expected a put operation"),
    }
}

fn expect_expire(op: &StoreOp, id: &str, ttl: i64) {
    match op {
        StoreOp::Expire(x, t) => {
            assert_eq!(x.as_str(), id);
            assert_eq!(*t, ttl);
        }
        _ => panic!("expected an expire operation"),
    }
}

fn config() -> SessionBuilder {
    SessionBuilder::default().key("session_key").expire_time(3600)
}

#[test]
fn scenario_no_cookie_creates_fresh_dirty_record() {
    // A request without the session cookie gets a freshly generated id and
    // finalize persists an empty record under it.
    let record = load_from_payload(None, None, "fresh-id".to_owned());
    assert_eq!(record.id().as_str(), "fresh-id");
    assert!(matches!(record.status(), SessionStatus::Change));

    let cfg = config();
    let (ops, cookie) = finalize(record, &cfg, 1_000);
    assert_eq!(cookie.value, "fresh-id");
    assert_eq!(ops.len(), 3);
    expect_remove(&ops[0], "fresh-id");
    let data = expect_put(&ops[1], "fresh-id");
    assert_eq!(data.len(), 0);
    expect_expire(&ops[2], "fresh-id", 3600);
}

#[test]
fn scenario_mutate_existing_record() {
    // The backend holds {"count":"1"} under id X; the handler reads 1 and
    // writes 2; finalize replaces the record in order and keeps the id.
    let payload = "{\"count\":\"1\"}".to_owned();
    let record = load_from_payload(Some("X".to_owned()), Some(payload), "fresh".to_owned());
    assert_eq!(record.id().as_str(), "X");
    assert!(matches!(record.status(), SessionStatus::UnChange));

    let mut session = Session::new(record);
    let count: i64 = session.get("count").unwrap().parse().unwrap();
    assert_eq!(count, 1);
    session.set("count", (count + 1).to_string());

    let cfg = config();
    let (ops, cookie) = finalize(session.into_inner(), &cfg, 1_000);
    assert_eq!(cookie.value, "X");
    assert_eq!(ops.len(), 3);
    expect_remove(&ops[0], "X");
    let data = expect_put(&ops[1], "X");
    assert_eq!(data.get("count").unwrap().as_str(), "2");
    assert_eq!(data.len(), 1);
    expect_expire(&ops[2], "X", 3600);
}

#[test]
fn scenario_stale_cookie_gets_fresh_id() {
    // A presented id that misses the store is not trusted: the fresh record
    // carries a newly generated id instead.
    let record = load_from_payload(Some("stale".to_owned()), None, "minted".to_owned());
    assert_eq!(record.id().as_str(), "minted");
    assert!(matches!(record.status(), SessionStatus::Change));
    assert_eq!(record.len(), 0);
}

#[test]
fn unparseable_payload_degrades_to_fresh_record() {
    let record = load_from_payload(
        Some("X".to_owned()),
        Some("not json".to_owned()),
        "minted".to_owned(),
    );
    assert_eq!(record.id().as_str(), "minted");
    assert!(matches!(record.status(), SessionStatus::Change));
}

#[test]
fn scenario_clear_issues_exactly_one_remove() {
    let payload = "{\"a\":\"1\"}".to_owned();
    let record = load_from_payload(Some("X".to_owned()), Some(payload), "fresh".to_owned());
    let mut session = Session::new(record);
    session.clear();

    let cfg = config();
    let (ops, cookie) = finalize(session.into_inner(), &cfg, 1_000);
    assert_eq!(cookie.value, "X");
    assert_eq!(ops.len(), 1);
    expect_remove(&ops[0], "X");
}

#[test]
fn destroy_issues_exactly_one_remove() {
    let payload = "{\"a\":\"1\"}".to_owned();
    let record = load_from_payload(Some("X".to_owned()), Some(payload), "fresh".to_owned());
    let mut session = Session::new(record);
    session.destroy();

    let cfg = config();
    let (ops, _cookie) = finalize(session.into_inner(), &cfg, 1_000);
    assert_eq!(ops.len(), 1);
    expect_remove(&ops[0], "X");
}

#[test]
fn scenario_read_only_with_auto_expire_touches_ttl_only() {
    // The handler only reads: finalize issues exactly expire(id, ttl).
    let payload = "{\"a\":\"1\"}".to_owned();
    let record = load_from_payload(Some("X".to_owned()), Some(payload), "fresh".to_owned());
    let session = Session::new(record);
    let _ = session.get("a");

    let cfg = config().auto_expire(true);
    let (ops, cookie) = finalize(session.into_inner(), &cfg, 1_000);
    assert_eq!(cookie.value, "X");
    assert_eq!(ops.len(), 1);
    expect_expire(&ops[0], "X", 3600);
}

#[test]
fn read_only_without_auto_expire_issues_nothing() {
    let payload = "{\"a\":\"1\"}".to_owned();
    let record = load_from_payload(Some("X".to_owned()), Some(payload), "fresh".to_owned());

    let cfg = config().auto_expire(false);
    let (ops, cookie) = finalize(record, &cfg, 1_000);
    assert_eq!(cookie.value, "X");
    assert_eq!(ops.len(), 0);
}

#[test]
fn finalize_ops_alone_matches_the_table() {
    let record = rsession::SessionInner::new("id9".to_owned());
    let ops = finalize_ops(record, false, 44);
    // A fresh record is dirty: remove, put, expire even with auto-expire off.
    assert_eq!(ops.len(), 3);
    expect_remove(&ops[0], "id9");
    expect_put(&ops[1], "id9");
    expect_expire(&ops[2], "id9", 44);
}

#[test]
fn cookie_is_reissued_on_every_branch() {
    let cfg = config();
    for make in 0..3u8 {
        let record = load_from_payload(
            Some("X".to_owned()),
            Some("{}".to_owned()),
            "fresh".to_owned(),
        );
        let mut session = Session::new(record);
        match make {
            0 => {}
            1 => session.set("k", "v".to_owned()),
            _ => session.clear(),
        }
        let (_ops, cookie) = finalize(session.into_inner(), &cfg, 1_000);
        assert_eq!(cookie.value, "X");
        assert_eq!(cookie.name, "session_key");
    }
}

#[test]
fn persistent_strategy_sets_absolute_expiry() {
    let cfg = config().refresh_strategy(RefreshStrategy::PersistentStorage(600));
    let record = rsession::SessionInner::new("sid".to_owned());
    let (_ops, cookie) = finalize(record, &cfg, 5_000);
    assert_eq!(cookie.expires, Some(5_600));
}
