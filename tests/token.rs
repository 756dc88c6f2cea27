use reqwest::header::{HeaderMap, HeaderValue};
use swift_xet_rust::token::parse_cas_jwt;
use swift_xet_rust::{compute_cache_expiry, CasJwtInfo, TokenCache, TokenStep};

#[test]
fn token_cache_round_trip() {
    let token = CasJwtInfo::new(
        "https://cas.example.com".to_string(),
        "secret".to_string(),
        u64::MAX / 2,
    );
    let unix_now = 1_700_000_000;
    let now = 25;

    let mut cache = TokenCache::new();
    cache.cache_token("test".to_string(), token.duplicate(), unix_now, now);
    let cached = cache.get_cached_token("test").expect("token should be cached");
    assert!(cached.is_valid(now));
    assert_eq!(cached.value.access_token(), token.access_token());
}

#[test]
fn token_valid_until_safety_window() {
    let unix_now = 1_000_000;
    let now = 50;
    let mut cache = TokenCache::new();
    cache.cache_token(
        "route".to_string(),
        CasJwtInfo::new("https://cas".to_string(), "t".to_string(), unix_now + 120),
        unix_now,
        now,
    );
    assert!(cache.lookup("route", now).is_some());
    assert!(cache.lookup("route", now + 59).is_some());
    assert!(cache.lookup("route", now + 61).is_none());
    let cached = cache.get_cached_token("route").unwrap();
    assert_eq!(cached.expires_at, now + 60);
    assert!(cached.is_valid(now));
    assert!(!cached.is_valid(now + 61));
}

#[test]
fn cached_token_needs_no_refresh() {
    let now = 500;
    let unix_now = 1_700_000_000;
    let mut cache = TokenCache::new();
    assert!(matches!(cache.begin("k", now), TokenStep::Refresh));
    cache.cache_token(
        "k".to_string(),
        CasJwtInfo::new("https://cas".to_string(), "abc".to_string(), unix_now + 3600),
        unix_now,
        now,
    );
    match cache.begin("k", now + 10) {
        TokenStep::Cached(t) => {
            assert_eq!(t.access_token(), "abc");
            assert_eq!(t.cas_url(), "https://cas");
            assert_eq!(t.exp(), unix_now + 3600);
        }
        TokenStep::Refresh => panic!("a valid cached token must be served"),
    }
    assert!(matches!(cache.begin("other", now), TokenStep::Refresh));
}

#[test]
fn new_token_replaces_stale_entry() {
    let mut cache = TokenCache::new();
    cache.cache_token(
        "k".to_string(),
        CasJwtInfo::new("a".to_string(), "old".to_string(), 100),
        0,
        0,
    );
    assert!(cache.lookup("k", 50).is_none());
    cache.cache_token(
        "k".to_string(),
        CasJwtInfo::new("a".to_string(), "new".to_string(), 1000),
        50,
        50,
    );
    assert_eq!(cache.lookup("k", 60).unwrap().access_token(), "new");
}

#[test]
fn expiry_is_clamped_to_now() {
    assert_eq!(compute_cache_expiry(1120, 1000, 7), 67);
    assert_eq!(compute_cache_expiry(1060, 1000, 7), 7);
    assert_eq!(compute_cache_expiry(1030, 1000, 7), 7);
    assert_eq!(compute_cache_expiry(10, 1000, 7), 7);
    assert_eq!(compute_cache_expiry(u64::MAX, 0, 100), u64::MAX);
}

#[test]
fn refresh_response_is_parsed_and_cached() {
    let mut h = HeaderMap::new();
    h.insert("x-xet-cas-url", HeaderValue::from_static("https://cas.example"));
    h.insert("x-xet-access-token", HeaderValue::from_static("tok"));
    h.insert("x-xet-token-expiration", HeaderValue::from_static("5000"));
    let mut cache = TokenCache::new();
    let t = cache.complete_refresh("route", &h, 1000, 3).unwrap();
    assert_eq!(t.cas_url(), "https://cas.example");
    assert_eq!(t.access_token(), "tok");
    assert_eq!(t.exp(), 5000);
    assert_eq!(cache.get_cached_token("route").unwrap().expires_at, 3943);
}

#[test]
fn refresh_response_needs_all_headers() {
    let mut h = HeaderMap::new();
    assert_eq!(parse_cas_jwt(&h).unwrap_err().message(), "CAS endpoint header missing");
    h.insert("x-xet-cas-url", HeaderValue::from_static("https://cas.example"));
    assert_eq!(parse_cas_jwt(&h).unwrap_err().message(), "CAS access token header missing");
    h.insert("x-xet-access-token", HeaderValue::from_static("tok"));
    assert_eq!(parse_cas_jwt(&h).unwrap_err().message(), "CAS expiration header missing");
    h.insert("x-xet-token-expiration", HeaderValue::from_static("soon"));
    assert_eq!(parse_cas_jwt(&h).unwrap_err().message(), "CAS expiration header missing");
    let mut cache = TokenCache::new();
    assert!(cache.complete_refresh("route", &h, 0, 0).is_err());
    assert!(cache.get_cached_token("route").is_none());
}
