//! Session configuration and cookie derivation.
//!
//! A `SessionBuilder` is assembled once at configuration time and then read
//! by every request. `build` turns the configuration plus a session id (and
//! the current time) into the exact cookie header value to attach.

use vstd::prelude::*;
use vstd::slice::slice_to_vec;

use crate::idgen::RandKey;

verus! {

/// How long the session cookie should persist on the client.
#[derive(Debug, Clone, Copy, PartialEq, Eq, Structural)]
pub enum RefreshStrategy {
    /// A session cookie: no explicit expiry, gone when the browser closes.
    BrowserLifeCycle,
    /// An absolute expiry, the given number of seconds from cookie-build
    /// time.
    PersistentStorage(i64),
}

/// The cookie's SameSite policy.
#[derive(Debug, Clone, Copy, PartialEq, Eq, Structural)]
pub enum SameSitePolicy {
    /// Sent on same-site requests only.
    Strict,
    /// Sent on same-site requests and top-level cross-site navigation.
    Lax,
    /// Sent on every request; rendered as `SameSite=None` on the wire.
    CrossSite,
}

/// The computed Set-Cookie header value, as structured data. An adapter
/// renders it on the wire and attaches it to the response.
pub struct SessionCookie {
    /// The cookie name, taken from the configured key.
    pub name: String,
    /// The cookie value: the session identifier.
    pub value: String,
    pub domain: String,
    pub path: String,
    pub secure: bool,
    pub http_only: bool,
    pub same_site: Option<SameSitePolicy>,
    /// Absolute expiry in Unix seconds; `None` means a browser-lifecycle
    /// cookie without an Expires attribute.
    pub expires: Option<i64>,
    /// The Max-Age override in seconds, if one was configured.
    pub max_age: Option<i64>,
}

/// The mathematical value of a session cookie.
#[verifier::ext_equal]
pub struct CookieView {
    pub name: Seq<char>,
    pub value: Seq<char>,
    pub domain: Seq<char>,
    pub path: Seq<char>,
    pub secure: bool,
    pub http_only: bool,
    pub same_site: Option<SameSitePolicy>,
    pub expires: Option<i64>,
    pub max_age: Option<i64>,
}

impl View for SessionCookie {
    type V = CookieView;

    open spec fn view(&self) -> CookieView {
        CookieView {
            name: self.name@,
            value: self.value@,
            domain: self.domain@,
            path: self.path@,
            secure: self.secure,
            http_only: self.http_only,
            same_site: self.same_site,
            expires: self.expires,
            max_age: self.max_age,
        }
    }
}

/// The mathematical value of a session configuration.
#[verifier::ext_equal]
pub struct BuilderView {
    pub key: Seq<char>,
    pub secret: Option<Seq<u8>>,
    pub expire_time: i64,
    pub path: Seq<char>,
    pub domain: Seq<char>,
    pub secure: bool,
    pub http_only: bool,
    pub max_age: Option<i64>,
    pub same_site: Option<SameSitePolicy>,
    pub refresh_strategy: RefreshStrategy,
    pub rand_key: RandKey,
    pub auto_expire: bool,
}

/// The cookie a configuration derives for session id `id` at time `now`
/// (Unix seconds): every attribute copies the configuration, and the expiry
/// is absent for a browser-lifecycle cookie or `now` plus the configured
/// duration for a persistent one.
pub open spec fn spec_cookie(cfg: BuilderView, id: Seq<char>, now: i64) -> CookieView {
    CookieView {
        name: cfg.key,
        value: id,
        domain: cfg.domain,
        path: cfg.path,
        secure: cfg.secure,
        http_only: cfg.http_only,
        same_site: cfg.same_site,
        expires: match cfg.refresh_strategy {
            RefreshStrategy::BrowserLifeCycle => None,
            RefreshStrategy::PersistentStorage(d) => Some((now + d) as i64),
        },
        max_age: cfg.max_age,
    }
}

/// Law: the derived cookie's name, domain, path, secure, http-only,
/// SameSite and Max-Age attributes equal the configuration's, for every
/// configuration, id and time — the derivation does not depend on the
/// record's status at all.
pub proof fn lemma_cookie_fidelity(cfg: BuilderView, id: Seq<char>, now: i64)
    ensures
        spec_cookie(cfg, id, now).name == cfg.key,
        spec_cookie(cfg, id, now).value == id,
        spec_cookie(cfg, id, now).domain == cfg.domain,
        spec_cookie(cfg, id, now).path == cfg.path,
        spec_cookie(cfg, id, now).secure == cfg.secure,
        spec_cookie(cfg, id, now).http_only == cfg.http_only,
        spec_cookie(cfg, id, now).same_site == cfg.same_site,
        spec_cookie(cfg, id, now).max_age == cfg.max_age,
        cfg.refresh_strategy is BrowserLifeCycle ==> spec_cookie(cfg, id, now).expires is None,
        cfg.refresh_strategy is PersistentStorage ==> spec_cookie(cfg, id, now).expires is Some,
{
}

/// Relies on time's OffsetDateTime::now_utc and unix_timestamp: the current
/// wall-clock time in whole Unix seconds. Nothing is claimed of the clock's
/// value.
#[verifier::external_body]
pub fn now_unix_seconds() -> i64 {
    time::OffsetDateTime::now_utc().unix_timestamp()
}

/// Immutable session configuration, assembled fluently.
pub struct SessionBuilder {
    /// The cookie name carrying the session id.
    pub key: String,
    /// Optional secret material for adapters that sign or seal values.
    pub secret: Option<Vec<u8>>,
    /// Store-side lifetime of a session, in seconds.
    pub expire_time: i64,
    pub path: String,
    pub domain: String,
    pub secure: bool,
    pub http_only: bool,
    /// The Max-Age cookie override in seconds, if any.
    pub max_age: Option<i64>,
    pub same_site: Option<SameSitePolicy>,
    pub refresh_strategy: RefreshStrategy,
    pub rand_key: RandKey,
    /// Whether a read-only request still refreshes the store-side TTL.
    pub auto_expire: bool,
}

impl View for SessionBuilder {
    type V = BuilderView;

    open spec fn view(&self) -> BuilderView {
        BuilderView {
            key: self.key@,
            secret: match self.secret {
                Some(s) => Some(s@),
                None => None,
            },
            expire_time: self.expire_time,
            path: self.path@,
            domain: self.domain@,
            secure: self.secure,
            http_only: self.http_only,
            max_age: self.max_age,
            same_site: self.same_site,
            refresh_strategy: self.refresh_strategy,
            rand_key: self.rand_key,
            auto_expire: self.auto_expire,
        }
    }
}

/// Seconds in seven days, the default session lifetime.
pub const DEFAULT_EXPIRE_SECONDS: i64 = 604800;

impl Default for SessionBuilder {
    /// The default configuration: cookie "session_key", a seven-day
    /// lifetime, path "/", empty domain, secure and http-only set, no
    /// Max-Age or SameSite override, browser-lifecycle cookies, version-7
    /// UUID ids, and TTL refresh on read-only requests.
    fn default() -> (r: SessionBuilder)
        ensures
            r@.key == "session_key"@,
            r@.secret is None,
            r@.expire_time == DEFAULT_EXPIRE_SECONDS,
            r@.path == "/"@,
            r@.domain == ""@,
            r@.secure == true,
            r@.http_only == true,
            r@.max_age is None,
            r@.same_site is None,
            r@.refresh_strategy == RefreshStrategy::BrowserLifeCycle,
            r@.rand_key == RandKey::UuidV7,
            r@.auto_expire == true,
    {
        SessionBuilder {
            key: "session_key".to_owned(),
            secret: None,
            expire_time: DEFAULT_EXPIRE_SECONDS,
            path: "/".to_owned(),
            domain: "".to_owned(),
            secure: true,
            http_only: true,
            max_age: None,
            same_site: None,
            refresh_strategy: RefreshStrategy::BrowserLifeCycle,
            rand_key: RandKey::UuidV7,
            auto_expire: true,
        }
    }
}

impl SessionBuilder {
    /// A builder with the default configuration.
    pub fn new() -> (r: SessionBuilder)
        ensures
            r@ == Self::default_view(),
    {
        SessionBuilder::default()
    }

    /// The default configuration, as a value the contracts can name.
    pub open spec fn default_view() -> BuilderView {
        BuilderView {
            key: "session_key"@,
            secret: None,
            expire_time: DEFAULT_EXPIRE_SECONDS,
            path: "/"@,
            domain: ""@,
            secure: true,
            http_only: true,
            max_age: None,
            same_site: None,
            refresh_strategy: RefreshStrategy::BrowserLifeCycle,
            rand_key: RandKey::UuidV7,
            auto_expire: true,
        }
    }

    /// Sets the cookie name for the session id.
    pub fn key(self, key: &str) -> (r: SessionBuilder)
        ensures
            r@ == (BuilderView { key: key@, ..self@ }),
    {
        SessionBuilder { key: key.to_owned(), ..self }
    }

    /// Sets the secret material; exactly 64 bytes are required.
    pub fn secret(self, secret: &[u8]) -> (r: SessionBuilder)
        requires
            secret@.len() == 64,
        ensures
            r@ == (BuilderView { secret: Some(secret@), ..self@ }),
    {
        SessionBuilder { secret: Some(slice_to_vec(secret)), ..self }
    }

    /// Sets the store-side session lifetime, in seconds.
    pub fn expire_time(self, expire_time: i64) -> (r: SessionBuilder)
        ensures
            r@ == (BuilderView { expire_time: expire_time, ..self@ }),
    {
        SessionBuilder { expire_time, ..self }
    }

    /// Sets the cookie path.
    pub fn path(self, path: &str) -> (r: SessionBuilder)
        ensures
            r@ == (BuilderView { path: path@, ..self@ }),
    {
        SessionBuilder { path: path.to_owned(), ..self }
    }

    /// Sets the cookie domain.
    pub fn domain(self, domain: &str) -> (r: SessionBuilder)
        ensures
            r@ == (BuilderView { domain: domain@, ..self@ }),
    {
        SessionBuilder { domain: domain.to_owned(), ..self }
    }

    /// Sets whether the cookie is sent over HTTPS only.
    pub fn secure(self, secure: bool) -> (r: SessionBuilder)
        ensures
            r@ == (BuilderView { secure: secure, ..self@ }),
    {
        SessionBuilder { secure, ..self }
    }

    /// Sets whether the cookie is hidden from client-side scripts.
    pub fn http_only(self, http_only: bool) -> (r: SessionBuilder)
        ensures
            r@ == (BuilderView { http_only: http_only, ..self@ }),
    {
        SessionBuilder { http_only, ..self }
    }

    /// Sets the Max-Age override, in seconds.
    pub fn max_age(self, max_age: i64) -> (r: SessionBuilder)
        ensures
            r@ == (BuilderView { max_age: Some(max_age), ..self@ }),
    {
        SessionBuilder { max_age: Some(max_age), ..self }
    }

    /// Sets the SameSite policy.
    pub fn same_site(self, same_site: SameSitePolicy) -> (r: SessionBuilder)
        ensures
            r@ == (BuilderView { same_site: Some(same_site), ..self@ }),
    {
        SessionBuilder { same_site: Some(same_site), ..self }
    }

    /// Sets the cookie persistence strategy.
    pub fn refresh_strategy(self, refresh_strategy: RefreshStrategy) -> (r: SessionBuilder)
        ensures
            r@ == (BuilderView { refresh_strategy: refresh_strategy, ..self@ }),
    {
        SessionBuilder { refresh_strategy, ..self }
    }

    /// Sets the id-generation strategy. An entropy length under 64 or over
    /// 1024 is rejected at configuration time, not at request time.
    pub fn rand_key(self, rand_key: RandKey) -> (r: SessionBuilder)
        requires
            rand_key.entropy_len_valid(),
        ensures
            r@ == (BuilderView { rand_key: rand_key, ..self@ }),
    {
        SessionBuilder { rand_key, ..self }
    }

    /// Sets whether read-only requests refresh the store-side TTL.
    pub fn auto_expire(self, auto_expire: bool) -> (r: SessionBuilder)
        ensures
            r@ == (BuilderView { auto_expire: auto_expire, ..self@ }),
    {
        SessionBuilder { auto_expire, ..self }
    }

    /// A persistent-strategy expiry computed at `now` stays within `i64`.
    pub open spec fn expiry_fits(&self, now: i64) -> bool {
        match self@.refresh_strategy {
            RefreshStrategy::BrowserLifeCycle => true,
            RefreshStrategy::PersistentStorage(d) => i64::MIN <= now + d <= i64::MAX,
        }
    }

    /// Derives the session cookie for `id` at time `now` (Unix seconds):
    /// domain, path and flags copy the configuration unconditionally; the
    /// expiry follows the refresh strategy; Max-Age is set only where one
    /// was configured.
    pub fn build(&self, id: String, now: i64) -> (r: SessionCookie)
        requires
            self.expiry_fits(now),
        ensures
            r@ == spec_cookie(self@, id@, now),
    {
        let expires: Option<i64> = match self.refresh_strategy {
            RefreshStrategy::BrowserLifeCycle => None,
            RefreshStrategy::PersistentStorage(d) => Some(now + d),
        };
        SessionCookie {
            name: self.key.clone(),
            value: id,
            domain: self.domain.clone(),
            path: self.path.clone(),
            secure: self.secure,
            http_only: self.http_only,
            same_site: self.same_site,
            expires,
            max_age: self.max_age,
        }
    }

    /// Derives the session cookie for `id` at the current wall-clock time,
    /// clamping the expiry instead of overflowing. Every attribute other
    /// than the expiry instant is pinned exactly; of the expiry only its
    /// presence is, since the clock's value is not.
    pub fn build_now(&self, id: String) -> (r: SessionCookie)
        ensures
            r@.name == self@.key,
            r@.value == id@,
            r@.domain == self@.domain,
            r@.path == self@.path,
            r@.secure == self@.secure,
            r@.http_only == self@.http_only,
            r@.same_site == self@.same_site,
            r@.max_age == self@.max_age,
            r@.expires is Some <==> self@.refresh_strategy is PersistentStorage,
    {
        let now = now_unix_seconds();
        let expires: Option<i64> = match self.refresh_strategy {
            RefreshStrategy::BrowserLifeCycle => None,
            RefreshStrategy::PersistentStorage(d) => Some(saturating_add_i64(now, d)),
        };
        SessionCookie {
            name: self.key.clone(),
            value: id,
            domain: self.domain.clone(),
            path: self.path.clone(),
            secure: self.secure,
            http_only: self.http_only,
            same_site: self.same_site,
            expires,
            max_age: self.max_age,
        }
    }
}

/// `a + b`, clamped to the `i64` range.
fn saturating_add_i64(a: i64, b: i64) -> (r: i64)
    ensures
        i64::MIN <= a + b <= i64::MAX ==> r == a + b,
        a + b > i64::MAX ==> r == i64::MAX,
        a + b < i64::MIN ==> r == i64::MIN,
{
    if b >= 0 {
        if a <= i64::MAX - b {
            a + b
        } else {
            i64::MAX
        }
    } else {
        if a >= i64::MIN - b {
            a + b
        } else {
            i64::MIN
        }
    }
}

} // verus!
