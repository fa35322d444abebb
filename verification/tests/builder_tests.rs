//! Tests of the configuration builder and cookie derivation.

use rsession::RandKey;
use rsession::RefreshStrategy;
use rsession::SameSitePolicy;
use rsession::SessionBuilder;

#[test]
fn default_configuration() {
    let b = SessionBuilder::default();
    assert_eq!(b.key, "session_key");
    assert!(b.secret.is_none());
    assert_eq!(b.expire_time, 604_800);
    assert_eq!(b.path, "/");
    assert_eq!(b.domain, "");
    assert!(b.secure);
    assert!(b.http_only);
    assert!(b.max_age.is_none());
    assert!(b.same_site.is_none());
    assert!(matches!(b.refresh_strategy, RefreshStrategy::BrowserLifeCycle));
    assert!(matches!(b.rand_key, RandKey::UuidV7));
    assert!(b.auto_expire);
}

#[test]
fn new_equals_default() {
    let a = SessionBuilder::new();
    let b = SessionBuilder::default();
    assert_eq!(a.key, b.key);
    assert_eq!(a.expire_time, b.expire_time);
    assert_eq!(a.auto_expire, b.auto_expire);
}

#[test]
fn fluent_setters_apply() {
    let b = SessionBuilder::new()
        .key("sid")
        .expire_time(3600)
        .path("/app")
        .domain("example.com")
        .secure(false)
        .http_only(false)
        .max_age(60)
        .same_site(SameSitePolicy::Lax)
        .refresh_strategy(RefreshStrategy::PersistentStorage(120))
        .rand_key(RandKey::UuidV4)
        .auto_expire(false);
    assert_eq!(b.key, "sid");
    assert_eq!(b.expire_time, 3600);
    assert_eq!(b.path, "/app");
    assert_eq!(b.domain, "example.com");
    assert!(!b.secure);
    assert!(!b.http_only);
    assert_eq!(b.max_age, Some(60));
    assert!(matches!(b.same_site, Some(SameSitePolicy::Lax)));
    assert!(matches!(b.refresh_strategy, RefreshStrategy::PersistentStorage(120)));
    assert!(matches!(b.rand_key, RandKey::UuidV4));
    assert!(!b.auto_expire);
}

#[test]
fn secret_is_stored() {
    let bytes = [7u8; 64];
    let b = SessionBuilder::new().secret(&bytes);
    assert_eq!(b.secret.as_deref(), Some(&bytes[..]));
}

#[test]
fn cookie_fidelity_across_configurations() {
    // The cookie's attributes copy the configuration exactly.
    let b = SessionBuilder::new()
        .key("sid")
        .domain("example.com")
        .path("/app")
        .secure(true)
        .http_only(false)
        .max_age(90)
        .same_site(SameSitePolicy::Strict);
    let c = b.build("token".to_owned(), 10_000);
    assert_eq!(c.name, "sid");
    assert_eq!(c.value, "token");
    assert_eq!(c.domain, "example.com");
    assert_eq!(c.path, "/app");
    assert!(c.secure);
    assert!(!c.http_only);
    assert_eq!(c.max_age, Some(90));
    assert!(matches!(c.same_site, Some(SameSitePolicy::Strict)));
    assert_eq!(c.expires, None);
}

#[test]
fn browser_lifecycle_cookie_has_no_expiry() {
    let b = SessionBuilder::new().refresh_strategy(RefreshStrategy::BrowserLifeCycle);
    let c = b.build("t".to_owned(), 99);
    assert_eq!(c.expires, None);
}

#[test]
fn persistent_cookie_expires_at_now_plus_duration() {
    let b = SessionBuilder::new().refresh_strategy(RefreshStrategy::PersistentStorage(86_400));
    let c = b.build("t".to_owned(), 1_700_000_000);
    assert_eq!(c.expires, Some(1_700_086_400));
}

#[test]
fn build_now_uses_the_clock() {
    let b = SessionBuilder::new().refresh_strategy(RefreshStrategy::PersistentStorage(3_600));
    let before = rsession::builder::now_unix_seconds();
    let c = b.build_now("t".to_owned());
    let after = rsession::builder::now_unix_seconds();
    let expires = c.expires.unwrap();
    assert!(expires >= before + 3_600);
    assert!(expires <= after + 3_600);
}

#[test]
fn clock_is_past_the_epoch() {
    // Unix time on any sane host is far past 2001.
    assert!(rsession::builder::now_unix_seconds() > 1_000_000_000);
}
