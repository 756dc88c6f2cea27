use reqwest::header::{HeaderMap, HeaderValue, CONTENT_LENGTH, CONTENT_RANGE, ETAG, LINK};
use swift_xet_rust::metadata::{extract_refresh_route, parse_xet_file_data, rewrite_refresh_route};
use swift_xet_rust::{
    canonical_repo_prefix, parse_file_size, parse_metadata_from_response,
    parse_total_from_content_range, ErrorKind,
};

fn headers(pairs: &[(&'static str, &'static str)]) -> HeaderMap {
    let mut h = HeaderMap::new();
    for (name, value) in pairs {
        h.insert(*name, HeaderValue::from_static(value));
    }
    h
}

#[test]
fn rewrite_route_replaces_default_endpoint() {
    let rewritten = rewrite_refresh_route(
        "https://huggingface.co/api/models/test/xet-read-token/main",
        "https://example.com",
    );
    assert_eq!(rewritten, "https://example.com/api/models/test/xet-read-token/main");
}

#[test]
fn rewrite_route_preserves_custom_endpoint() {
    let rewritten = rewrite_refresh_route(
        "https://alt.huggingface.co/api/models/test/xet-read-token/main",
        "https://example.com",
    );
    assert_eq!(rewritten, "https://alt.huggingface.co/api/models/test/xet-read-token/main");
}

#[test]
fn rewrite_route_ignores_lookalike_hosts() {
    let rewritten = rewrite_refresh_route("https://huggingface.co.x/p", "https://example.com");
    assert_eq!(rewritten, "https://huggingface.co.x/p");
    assert_eq!(
        rewrite_refresh_route("https://huggingface.co", "https://example.com"),
        "https://example.com"
    );
    assert_eq!(
        rewrite_refresh_route("https://huggingface.cohttps://huggingface.co/x", "https://example.com"),
        "https://huggingface.cohttps://huggingface.co/x"
    );
}

#[test]
fn rewrite_route_drops_trailing_slashes_of_endpoint() {
    let rewritten = rewrite_refresh_route(
        "https://huggingface.co/api/models/test/xet-read-token/main",
        "https://example.com//",
    );
    assert_eq!(rewritten, "https://example.com/api/models/test/xet-read-token/main");
}

#[test]
fn rewrite_route_keeps_route_for_empty_endpoint() {
    let route = "https://huggingface.co/api/models/test/xet-read-token/main";
    assert_eq!(rewrite_refresh_route(route, ""), route);
}

#[test]
fn extract_refresh_route_reads_link_header() {
    let mut headers = HeaderMap::new();
    headers.insert(
        LINK,
        HeaderValue::from_static(
            r#"<https://huggingface.co/api/models/foo/xet-read-token/main>; rel="xet-auth""#,
        ),
    );

    let refresh_route = extract_refresh_route(&headers, "https://example.com");
    assert_eq!(
        refresh_route.unwrap(),
        "https://example.com/api/models/foo/xet-read-token/main"
    );
}

#[test]
fn link_route_unchanged_for_default_endpoint() {
    let h = headers(&[(
        "link",
        r#"<https://huggingface.co/api/models/foo/xet-read-token/main>; rel="xet-auth""#,
    )]);
    assert_eq!(
        extract_refresh_route(&h, "https://huggingface.co").unwrap(),
        "https://huggingface.co/api/models/foo/xet-read-token/main"
    );
}

#[test]
fn link_route_picks_the_xet_auth_fragment() {
    let h = headers(&[(
        "link",
        r#"<https://other.example/next>; rel="next", < https://cas.example/token >; REL="XET-AUTH""#,
    )]);
    assert_eq!(
        extract_refresh_route(&h, "https://example.com").unwrap(),
        "https://cas.example/token"
    );
}

#[test]
fn link_without_xet_auth_gives_no_route() {
    let h = headers(&[("link", r#"<https://other.example/next>; rel="next""#)]);
    assert!(extract_refresh_route(&h, "https://example.com").is_none());
}

#[test]
fn parse_xet_file_data_uses_header_route() {
    let mut headers = HeaderMap::new();
    headers.insert("x-xet-hash", HeaderValue::from_static("sha256:abc"));
    headers.insert(
        "x-xet-refresh-route",
        HeaderValue::from_static("https://huggingface.co/api/models/foo/xet-read-token/main"),
    );

    let result = parse_xet_file_data(&headers, "https://example.com").unwrap();
    assert_eq!(result.file_hash, "sha256:abc");
    assert_eq!(
        result.refresh_route,
        "https://example.com/api/models/foo/xet-read-token/main"
    );
}

#[test]
fn link_route_preferred_over_route_header() {
    let h = headers(&[
        ("x-xet-hash", "abc"),
        ("x-xet-refresh-route", "https://one.example/route"),
        ("link", r#"<https://two.example/route>; rel="xet-auth""#),
    ]);
    let data = parse_xet_file_data(&h, "https://example.com").unwrap();
    assert_eq!(data.refresh_route, "https://two.example/route");
}

#[test]
fn xet_data_needs_hash_and_route() {
    let only_hash = headers(&[("x-xet-hash", "abc")]);
    assert!(parse_xet_file_data(&only_hash, "https://example.com").is_none());
    let only_route = headers(&[("x-xet-refresh-route", "https://one.example/route")]);
    assert!(parse_xet_file_data(&only_route, "https://example.com").is_none());
}

#[test]
fn linked_size_wins_over_content_length() {
    let mut h = HeaderMap::new();
    h.insert("x-linked-size", HeaderValue::from_static("1234"));
    h.insert(CONTENT_LENGTH, HeaderValue::from_static("1"));
    assert_eq!(parse_file_size(&h).unwrap(), 1234);
}

#[test]
fn content_range_total_gives_size() {
    let mut h = HeaderMap::new();
    h.insert(CONTENT_RANGE, HeaderValue::from_static("bytes 0-0/98765"));
    h.insert(CONTENT_LENGTH, HeaderValue::from_static("1"));
    assert_eq!(parse_file_size(&h).unwrap(), 98765);
}

#[test]
fn content_length_is_the_last_resort() {
    let h = headers(&[("x-linked-size", "many"), ("content-length", "77")]);
    assert_eq!(parse_file_size(&h).unwrap(), 77);
}

#[test]
fn missing_size_is_a_network_error() {
    let h = headers(&[("etag", "\"e\"")]);
    let e = parse_file_size(&h).unwrap_err();
    assert_eq!(e.kind(), ErrorKind::Network);
    assert_eq!(e.message(), "Missing file size headers in response");
    assert_eq!(e.describe(), "Network error: Missing file size headers in response");
}

#[test]
fn content_range_total_is_the_number_after_the_last_slash() {
    assert_eq!(parse_total_from_content_range("bytes 0-0/98765"), Some(98765));
    assert_eq!(parse_total_from_content_range("42"), Some(42));
    assert_eq!(parse_total_from_content_range("bytes 0-0/*"), None);
    assert_eq!(parse_total_from_content_range("bytes 0-0/"), None);
    assert_eq!(parse_total_from_content_range("bytes 0-0/+7"), Some(7));
    assert_eq!(
        parse_total_from_content_range("bytes 0-0/18446744073709551616"),
        None
    );
}

#[test]
fn metadata_record_from_headers() {
    let h = headers(&[
        ("x-repo-commit", "abc123"),
        ("x-linked-etag", "\"linked\""),
        ("etag", "\"plain\""),
        ("x-linked-size", "1234"),
        ("content-length", "5"),
        ("x-xet-hash", "h1"),
        ("x-xet-refresh-route", "https://huggingface.co/api/models/a/b/xet-read-token/main"),
    ]);
    let m = parse_metadata_from_response(&h, "https://cdn.example/file", "https://example.com/")
        .unwrap();
    assert_eq!(m.download_url, "https://cdn.example/file");
    assert_eq!(m.etag, "linked");
    assert_eq!(m.commit_hash, "abc123");
    assert_eq!(m.size, 1234);
    let x = m.xet_file_data.unwrap();
    assert_eq!(x.file_hash, "h1");
    assert_eq!(x.refresh_route, "https://example.com/api/models/a/b/xet-read-token/main");
}

#[test]
fn metadata_without_cas_headers_has_no_xet_data() {
    let mut h = HeaderMap::new();
    h.insert("x-repo-commit", HeaderValue::from_static("c"));
    h.insert(ETAG, HeaderValue::from_static("\"tag\""));
    h.insert(CONTENT_LENGTH, HeaderValue::from_static("10"));
    let m = parse_metadata_from_response(&h, "https://hub.example/x", "https://hub.example")
        .unwrap();
    assert_eq!(m.etag, "tag");
    assert!(m.xet_file_data.is_none());
    // Quotes are stripped before white space, so quotes inside the spaces stay.
    h.insert(ETAG, HeaderValue::from_static("  \"tag\"  "));
    let m = parse_metadata_from_response(&h, "https://hub.example/x", "https://hub.example")
        .unwrap();
    assert_eq!(m.etag, "\"tag\"");
}

#[test]
fn metadata_errors_come_in_order() {
    let none = HeaderMap::new();
    let e = parse_metadata_from_response(&none, "u", "e").unwrap_err();
    assert_eq!(e.message(), "Missing X-Repo-Commit header");
    let commit_only = headers(&[("x-repo-commit", "c")]);
    let e = parse_metadata_from_response(&commit_only, "u", "e").unwrap_err();
    assert_eq!(e.message(), "Missing ETag header");
    let no_size = headers(&[("x-repo-commit", "c"), ("etag", "t")]);
    let e = parse_metadata_from_response(&no_size, "u", "e").unwrap_err();
    assert_eq!(e.message(), "Missing file size headers in response");
}

#[test]
fn canonical_prefix_per_kind() {
    assert_eq!(canonical_repo_prefix("models"), "");
    assert_eq!(canonical_repo_prefix("datasets"), "datasets/");
    assert_eq!(canonical_repo_prefix("spaces"), "spaces/");
    assert_eq!(canonical_repo_prefix("other"), "");
}
