//! CAS access tokens and the cache that keeps them until shortly before they expire.
use vstd::prelude::*;

use reqwest::header::HeaderMap;

use crate::error::{owned, ErrorKind, XetError};
use crate::headers::{header_to_string, header_value, lowercase_token};
use crate::text::{parse_u64, same_text, u64_of};

verus! {

/// How long before its real expiry a token stops being handed out, in seconds.
pub const TOKEN_CACHE_SAFETY_WINDOW_SECS: u64 = 60;

/// A time-bounded capability to read or write a CAS backend.
#[derive(Debug)]
pub struct CasJwtInfo {
    cas_url: String,
    access_token: String,
    exp: u64,
}

/// A token's CAS endpoint, access token and expiry (unix seconds).
pub type JwtView = (Seq<char>, Seq<char>, u64);

impl View for CasJwtInfo {
    type V = JwtView;

    closed spec fn view(&self) -> JwtView {
        (self.cas_url@, self.access_token@, self.exp)
    }
}

impl CasJwtInfo {
    pub fn new(cas_url: String, access_token: String, exp: u64) -> (r: CasJwtInfo)
        ensures
            r@ == (cas_url@, access_token@, exp),
    {
        CasJwtInfo { cas_url, access_token, exp }
    }

    /// The URL of the CAS server.
    pub fn cas_url(&self) -> (r: String)
        ensures
            r@ == self@.0,
    {
        self.cas_url.clone()
    }

    /// The access token to present to the CAS server.
    pub fn access_token(&self) -> (r: String)
        ensures
            r@ == self@.1,
    {
        self.access_token.clone()
    }

    /// When the token expires, in unix seconds.
    pub fn exp(&self) -> (r: u64)
        ensures
            r == self@.2,
    {
        self.exp
    }

    /// A copy of the token.
    pub fn duplicate(&self) -> (r: CasJwtInfo)
        ensures
            r@ == self@,
    {
        CasJwtInfo { cas_url: self.cas_url.clone(), access_token: self.access_token.clone(), exp: self.exp }
    }
}

/// The token that a refresh response carries, or why it carries none: the `x-xet-cas-url`,
/// `x-xet-access-token` and `x-xet-token-expiration` headers are all required, in that order,
/// the last as a number of unix seconds.
pub open spec fn jwt_of(h: HeaderMap) -> Result<JwtView, (ErrorKind, Seq<char>)> {
    match header_value(h, "x-xet-cas-url"@) {
        None => Err((ErrorKind::Network, "CAS endpoint header missing"@)),
        Some(url) => match header_value(h, "x-xet-access-token"@) {
            None => Err((ErrorKind::Network, "CAS access token header missing"@)),
            Some(token) => match header_value(h, "x-xet-token-expiration"@) {
                Some(t) if u64_of(t) is Some => Ok((url, token, u64_of(t)->0)),
                _ => Err((ErrorKind::Network, "CAS expiration header missing"@)),
            },
        },
    }
}

proof fn lemma_token_names()
    ensures
        lowercase_token("x-xet-cas-url"@),
        lowercase_token("x-xet-access-token"@),
        lowercase_token("x-xet-token-expiration"@),
{
    reveal_strlit("x-xet-cas-url");
    reveal_strlit("x-xet-access-token");
    reveal_strlit("x-xet-token-expiration");
}

/// Reads a CAS token out of the headers of a refresh response.
pub fn parse_cas_jwt(headers: &HeaderMap) -> (r: Result<CasJwtInfo, XetError>)
    ensures
        r matches Ok(t) ==> jwt_of(*headers) == Ok::<JwtView, (ErrorKind, Seq<char>)>(t@),
        r matches Err(e) ==> jwt_of(*headers) == Err::<JwtView, (ErrorKind, Seq<char>)>(e@),
{
    proof {
        lemma_token_names();
    }
    let cas_url = match header_to_string(headers, "x-xet-cas-url") {
        Some(u) => u,
        None => {
            return Err(XetError::NetworkError { message: owned("CAS endpoint header missing") });
        },
    };
    let access_token = match header_to_string(headers, "x-xet-access-token") {
        Some(t) => t,
        None => {
            return Err(
                XetError::NetworkError { message: owned("CAS access token header missing") },
            );
        },
    };
    let exp = match header_to_string(headers, "x-xet-token-expiration") {
        Some(t) => parse_u64(t.as_str()),
        None => None,
    };
    match exp {
        Some(exp) => Ok(CasJwtInfo { cas_url, access_token, exp }),
        None => Err(XetError::NetworkError { message: owned("CAS expiration header missing") }),
    }
}

/// When a token that expires at `exp` (unix seconds) stops being handed out, on the
/// monotonic clock, where it was fetched when the unix clock read `unix_now` and the monotonic
/// clock `now`: the time left before `exp`, less the safety window, after `now`; never before
/// `now` (and at most the clock's last second).
pub open spec fn cache_expiry(exp: u64, unix_now: u64, now: u64) -> u64 {
    let ttl = exp - unix_now;
    if ttl > TOKEN_CACHE_SAFETY_WINDOW_SECS {
        if now + ttl - TOKEN_CACHE_SAFETY_WINDOW_SECS <= u64::MAX {
            (now + ttl - TOKEN_CACHE_SAFETY_WINDOW_SECS) as u64
        } else {
            u64::MAX
        }
    } else {
        now
    }
}

/// The monotonic time until which a token may be handed out (see `cache_expiry`).
pub fn compute_cache_expiry(exp: u64, unix_now: u64, now: u64) -> (r: u64)
    ensures
        r == cache_expiry(exp, unix_now, now),
        r >= now,
{
    let ttl = exp.saturating_sub(unix_now);
    if ttl > TOKEN_CACHE_SAFETY_WINDOW_SECS {
        now.saturating_add(ttl - TOKEN_CACHE_SAFETY_WINDOW_SECS)
    } else {
        now
    }
}

/// A cached token and the time (monotonic seconds) until which it is handed out.
#[derive(Debug)]
pub struct CachedToken {
    pub value: CasJwtInfo,
    pub expires_at: u64,
}

pub type CachedView = (JwtView, u64);

impl CachedToken {
    pub open spec fn view(&self) -> CachedView {
        (self.value@, self.expires_at)
    }

    /// Whether the token may still be handed out at `now`.
    pub fn is_valid(&self, now: u64) -> (r: bool)
        ensures
            r == (now < self.expires_at),
    {
        now < self.expires_at
    }

    pub fn duplicate(&self) -> (r: CachedToken)
        ensures
            r.view() == self.view(),
    {
        CachedToken { value: self.value.duplicate(), expires_at: self.expires_at }
    }
}

/// The cached token of `key` where it may be handed out at `now`.
pub open spec fn valid_entry(m: Map<Seq<char>, CachedView>, key: Seq<char>, now: u64) -> Option<
    JwtView,
> {
    if m.contains_key(key) && now < m[key].1 {
        Some(m[key].0)
    } else {
        None
    }
}

/// The cache after storing `jwt`, fetched when the unix clock read `unix_now` and the
/// monotonic clock `now`, under `key`: any earlier entry is replaced.
pub open spec fn stored(
    m: Map<Seq<char>, CachedView>,
    key: Seq<char>,
    jwt: JwtView,
    unix_now: u64,
    now: u64,
) -> Map<
    Seq<char>,
    CachedView,
> {
    m.insert(key, (jwt, cache_expiry(jwt.2, unix_now, now)))
}

/// CAS tokens keyed by the refresh route that minted them, at most one per route.
pub struct TokenCache {
    entries: Vec<(String, CachedToken)>,
    model: Ghost<Map<Seq<char>, CachedView>>,
}

impl View for TokenCache {
    type V = Map<Seq<char>, CachedView>;

    closed spec fn view(&self) -> Map<Seq<char>, CachedView> {
        self.model@
    }
}

/// What serving a token for a refresh route takes.
pub enum TokenStep {
    /// A cached token that may still be handed out: no request is needed.
    Cached(CasJwtInfo),
    /// A fresh token must be fetched from the route; `complete_refresh` takes the response.
    Refresh,
}

impl TokenCache {
    pub closed spec fn wf(&self) -> bool {
        &&& forall|i: int, j: int|
            0 <= i < j < self.entries@.len() ==> #[trigger] self.entries@[i].0@
                != #[trigger] self.entries@[j].0@
        &&& forall|i: int|
            0 <= i < self.entries@.len() ==> self.model@.contains_key(
                #[trigger] self.entries@[i].0@,
            ) && self.model@[self.entries@[i].0@] == self.entries@[i].1.view()
        &&& forall|k: Seq<char>|
            #[trigger] self.model@.contains_key(k) ==> exists|i: int|
                0 <= i < self.entries@.len() && #[trigger] self.entries@[i].0@ == k
    }

    /// An empty cache.
    pub fn new() -> (r: TokenCache)
        ensures
            r.wf(),
            r@ == Map::<Seq<char>, CachedView>::empty(),
    {
        TokenCache { entries: Vec::new(), model: Ghost(Map::empty()) }
    }

    fn position(&self, key: &str) -> (r: Option<usize>)
        requires
            self.wf(),
        ensures
            r matches Some(i) ==> i < self.entries@.len() && self.entries@[i as int].0@ == key@,
            r is None ==> !self@.contains_key(key@),
    {
        let mut i: usize = 0;
        while i < self.entries.len()
            invariant
                i <= self.entries@.len(),
                forall|j: int| 0 <= j < i ==> self.entries@[j].0@ != key@,
            decreases self.entries.len() - i,
        {
            if same_text(self.entries[i].0.as_str(), key) {
                return Some(i);
            }
            i = i + 1;
        }
        proof {
            if self.model@.contains_key(key@) {
                let j = choose|j: int| 0 <= j < self.entries@.len() && self.entries@[j].0@ == key@;
                assert(self.entries@[j].0@ != key@);
            }
        }
        None
    }

    /// The cache entry of `key`, valid or not.
    pub fn get_cached_token(&self, key: &str) -> (r: Option<CachedToken>)
        requires
            self.wf(),
        ensures
            r matches Some(t) ==> self@.contains_key(key@) && self@[key@] == t.view(),
            r is None ==> !self@.contains_key(key@),
    {
        match self.position(key) {
            Some(i) => Some(self.entries[i].1.duplicate()),
            None => None,
        }
    }

    /// The token cached under `key` where it may still be handed out at `now`.
    pub fn lookup(&self, key: &str, now: u64) -> (r: Option<CasJwtInfo>)
        requires
            self.wf(),
        ensures
            r matches Some(t) ==> valid_entry(self@, key@, now) == Some(t@),
            r is None ==> valid_entry(self@, key@, now) is None,
    {
        match self.position(key) {
            Some(i) => {
                if self.entries[i].1.is_valid(now) {
                    Some(self.entries[i].1.value.duplicate())
                } else {
                    None
                }
            },
            None => None,
        }
    }

    /// What serving a token for `key` at `now` takes: the cached token, or a refresh.
    pub fn begin(&self, key: &str, now: u64) -> (r: TokenStep)
        requires
            self.wf(),
        ensures
            r matches TokenStep::Cached(t) ==> valid_entry(self@, key@, now) == Some(t@),
            r is Refresh ==> valid_entry(self@, key@, now) is None,
    {
        match self.lookup(key, now) {
            Some(t) => TokenStep::Cached(t),
            None => TokenStep::Refresh,
        }
    }

    /// Stores `token` under `key`, replacing any earlier entry; it was fetched when the unix
    /// clock read `unix_now` and the monotonic clock `now`.
    pub fn cache_token(&mut self, key: String, token: CasJwtInfo, unix_now: u64, now: u64)
        requires
            old(self).wf(),
        ensures
            final(self).wf(),
            final(self)@ == stored(old(self)@, key@, token@, unix_now, now),
    {
        let expires_at = compute_cache_expiry(token.exp(), unix_now, now);
        let entry = CachedToken { value: token, expires_at };
        let ghost v = entry.view();
        let ghost k = key@;
        match self.position(key.as_str()) {
            Some(i) => {
                self.entries.set(i, (key, entry));
                self.model = Ghost(self.model@.insert(k, v));
                assert forall|k2: Seq<char>| #[trigger] self.model@.contains_key(k2) implies exists|
                    j: int,
                |
                    0 <= j < self.entries@.len() && #[trigger] self.entries@[j].0@ == k2 by {
                    if k2 != k {
                        let j = choose|j: int|
                            0 <= j < old(self).entries@.len() && old(self).entries@[j].0@ == k2;
                        assert(self.entries@[j].0@ == k2);
                    } else {
                        assert(self.entries@[i as int].0@ == k2);
                    }
                }
            },
            None => {
                self.entries.push((key, entry));
                self.model = Ghost(self.model@.insert(k, v));
                assert forall|k2: Seq<char>| #[trigger] self.model@.contains_key(k2) implies exists|
                    j: int,
                |
                    0 <= j < self.entries@.len() && #[trigger] self.entries@[j].0@ == k2 by {
                    if k2 != k {
                        let j = choose|j: int|
                            0 <= j < old(self).entries@.len() && old(self).entries@[j].0@ == k2;
                        assert(self.entries@[j].0@ == k2);
                    } else {
                        assert(self.entries@[self.entries@.len() - 1].0@ == k2);
                    }
                }
            },
        }
    }

    /// Takes in the headers of the refresh response for `key`, received when the unix clock
    /// read `unix_now` and the monotonic clock `now`: the
    /// token that they carry is stored under `key` and returned; a response without one
    /// leaves the cache as it was.
    pub fn complete_refresh(&mut self, key: &str, headers: &HeaderMap, unix_now: u64, now: u64) -> (r: Result<
        CasJwtInfo,
        XetError,
    >)
        requires
            old(self).wf(),
        ensures
            final(self).wf(),
            r matches Ok(t) ==> jwt_of(*headers) == Ok::<JwtView, (ErrorKind, Seq<char>)>(t@)
                && final(self)@ == stored(old(self)@, key@, t@, unix_now, now),
            r matches Err(e) ==> jwt_of(*headers) == Err::<JwtView, (ErrorKind, Seq<char>)>(e@)
                && final(self)@ == old(self)@,
    {
        match parse_cas_jwt(headers) {
            Ok(t) => {
                self.cache_token(owned(key), t.duplicate(), unix_now, now);
                Ok(t)
            },
            Err(e) => Err(e),
        }
    }
}

/// A token stored under a key is served from the cache, with no request, whenever it is
/// asked for again before its cache expiry.
pub proof fn law_cached_token_is_served(
    m: Map<Seq<char>, CachedView>,
    key: Seq<char>,
    jwt: JwtView,
    unix_fetched: u64,
    fetched: u64,
    asked: u64,
)
    requires
        asked < cache_expiry(jwt.2, unix_fetched, fetched),
    ensures
        valid_entry(stored(m, key, jwt, unix_fetched, fetched), key, asked) == Some(jwt),
{
}

/// A stored token is never handed out within the safety window before its real expiry (nor
/// after it), at any time from its fetch on: `asked - fetched` seconds after the fetch the
/// token has `jwt.2 - unix_fetched - (asked - fetched)` seconds left.
pub proof fn law_no_token_inside_safety_window(
    m: Map<Seq<char>, CachedView>,
    key: Seq<char>,
    jwt: JwtView,
    unix_fetched: u64,
    fetched: u64,
    asked: u64,
)
    requires
        fetched <= asked,
        jwt.2 - unix_fetched - (asked - fetched) <= TOKEN_CACHE_SAFETY_WINDOW_SECS,
    ensures
        valid_entry(stored(m, key, jwt, unix_fetched, fetched), key, asked) is None,
{
}

/// Before the safety window, a stored token is served at any time from its fetch on (short
/// of the clock's last second, where the expiry saturates).
pub proof fn law_token_served_until_safety_window(
    m: Map<Seq<char>, CachedView>,
    key: Seq<char>,
    jwt: JwtView,
    unix_fetched: u64,
    fetched: u64,
    asked: u64,
)
    requires
        fetched <= asked < u64::MAX,
        jwt.2 - unix_fetched - (asked - fetched) > TOKEN_CACHE_SAFETY_WINDOW_SECS,
    ensures
        valid_entry(stored(m, key, jwt, unix_fetched, fetched), key, asked) == Some(jwt),
{
}

} // verus!
