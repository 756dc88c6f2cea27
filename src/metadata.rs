//! What a resolve response says of a file: its URL, etag, commit, size and CAS addressing.
use vstd::prelude::*;

use reqwest::header::HeaderMap;

use crate::error::{owned, ErrorKind, XetError};
use crate::headers::{header_text, header_to_string, header_value, lowercase_token, raw_header};
use crate::text::{
    after_last, char_vec, contains_folded, drop_trailing, find_char, has_prefix, index_of,
    last_index_of, lemma_find_is_index_of, matches_at, parse_u64, range_contains_folded,
    same_text, skip_trailing, string_of_range, trim_range, trimmed, u64_of, append_range, CharClass,
};

verus! {

/// The public hub that refresh routes name unless a deployment hosts its own.
pub const DEFAULT_ENDPOINT: &'static str = "https://huggingface.co";

/// CAS addressing of a file: its content hash and the URL that mints access tokens for it.
#[derive(Clone, Debug)]
pub struct XetFileData {
    pub file_hash: String,
    pub refresh_route: String,
}

impl View for XetFileData {
    type V = (Seq<char>, Seq<char>);

    open spec fn view(&self) -> (Seq<char>, Seq<char>) {
        (self.file_hash@, self.refresh_route@)
    }
}

/// One file resolved at one revision.
#[derive(Clone, Debug)]
pub struct FileResolveMetadata {
    pub download_url: String,
    pub etag: String,
    pub commit_hash: String,
    pub size: u64,
    pub xet_file_data: Option<XetFileData>,
}

pub struct MetadataView {
    pub download_url: Seq<char>,
    pub etag: Seq<char>,
    pub commit_hash: Seq<char>,
    pub size: u64,
    pub xet_file_data: Option<(Seq<char>, Seq<char>)>,
}

pub open spec fn option_view(x: Option<XetFileData>) -> Option<(Seq<char>, Seq<char>)> {
    match x {
        Some(d) => Some(d@),
        None => None,
    }
}

impl View for FileResolveMetadata {
    type V = MetadataView;

    open spec fn view(&self) -> MetadataView {
        MetadataView {
            download_url: self.download_url@,
            etag: self.etag@,
            commit_hash: self.commit_hash@,
            size: self.size,
            xet_file_data: option_view(self.xet_file_data),
        }
    }
}

/// The path segment that canonical (non-API) URLs put before a repository's name.
pub open spec fn canonical_prefix(plural: Seq<char>) -> Seq<char> {
    if plural == "datasets"@ {
        "datasets/"@
    } else if plural == "spaces"@ {
        "spaces/"@
    } else {
        ""@
    }
}

/// The path segment that canonical URLs put before the name of a repository of the given
/// kind (in plural): none for models, `datasets/` and `spaces/` for the others.
pub fn canonical_repo_prefix(repo_type_plural: &str) -> (r: &'static str)
    ensures
        r@ == canonical_prefix(repo_type_plural@),
{
    if same_text(repo_type_plural, "datasets") {
        "datasets/"
    } else if same_text(repo_type_plural, "spaces") {
        "spaces/"
    } else {
        ""
    }
}

// ---------------------------------------------------------------------------
// Refresh routes
/// A route on the public hub itself: the hub's URL alone, or followed by a path.
pub open spec fn on_default_host(route: Seq<char>) -> bool {
    route == DEFAULT_ENDPOINT@ || has_prefix(route, DEFAULT_ENDPOINT@ + "/"@)
}

/// A refresh route on the public hub, moved onto the configured endpoint (without its
/// trailing slashes) with its path kept; any other route, or an empty endpoint, leaves it as
/// it is.
pub open spec fn rewritten_route(route: Seq<char>, endpoint: Seq<char>) -> Seq<char> {
    if on_default_host(route) && endpoint.len() > 0 {
        drop_trailing(endpoint, CharClass::Slash) + route.skip(DEFAULT_ENDPOINT@.len() as int)
    } else {
        route
    }
}

/// Moves a refresh route that the public hub issued onto the configured endpoint, so that
/// a self-hosted or proxy deployment receives the token traffic itself. Only routes on the
/// hub's own host move: `https://huggingface.co.example/...` stays where it is.
pub fn rewrite_refresh_route(route: &str, endpoint: &str) -> (r: String)
    ensures
        r@ == rewritten_route(route@, endpoint@),
{
    let rv = char_vec(route);
    let pv = char_vec(DEFAULT_ENDPOINT);
    let ev = char_vec(endpoint);
    proof {
        reveal_strlit("https://huggingface.co");
        reveal_strlit("/");
    }
    let n = rv.len();
    let k = pv.len();
    let on_hub = matches_at(&rv, &pv, 0) && (n == k || rv[k] == '/');
    proof {
        let d = DEFAULT_ENDPOINT@;
        let ds = d + "/"@;
        if on_hub {
            if n == k {
                assert(rv@ == rv@.subrange(0, k as int));
            } else {
                assert(rv@.subrange(0, k + 1) == ds);
            }
        } else {
            if rv@ == d {
                assert(rv@.subrange(0, k as int) == d);
            }
            if has_prefix(rv@, ds) {
                assert(rv@.subrange(0, k as int) == ds.subrange(0, k as int));
                assert(ds.subrange(0, k as int) == d);
                assert(rv@[k as int] == ds[k as int]);
            }
        }
    }
    if on_hub && ev.len() > 0 {
        let j = skip_trailing(&ev, 0, ev.len(), CharClass::Slash);
        assert(ev@.subrange(0, ev@.len() as int) == ev@);
        let mut out = string_of_range(&ev, 0, j);
        append_range(&mut out, &rv, k, n);
        assert(rv@.subrange(k as int, n as int) == rv@.skip(k as int));
        out
    } else {
        owned(route)
    }
}

/// A route on the public hub (`{hub}{suffix}`, the suffix empty or a path from `/`) moves
/// onto any configured endpoint, which keeps the suffix; configured as the public hub
/// itself, the endpoint leaves the route as it is. Any route that is not on the hub's own
/// host stays where it is.
pub proof fn law_hub_routes_follow_endpoint(suffix: Seq<char>, endpoint: Seq<char>, other: Seq<char>)
    requires
        suffix.len() == 0 || suffix[0] == '/',
        endpoint.len() > 0,
        !on_default_host(other),
    ensures
        rewritten_route(DEFAULT_ENDPOINT@ + suffix, endpoint) == drop_trailing(
            endpoint,
            CharClass::Slash,
        ) + suffix,
        rewritten_route(DEFAULT_ENDPOINT@ + suffix, DEFAULT_ENDPOINT@) == DEFAULT_ENDPOINT@
            + suffix,
        rewritten_route(other, endpoint) == other,
{
    reveal_strlit("https://huggingface.co");
    reveal_strlit("/");
    let d = DEFAULT_ENDPOINT@;
    let route = d + suffix;
    assert(route.skip(d.len() as int) == suffix);
    if suffix.len() == 0 {
        assert(route == d);
    } else {
        assert(route.subrange(0, d.len() as int + 1) == d + "/"@);
    }
    assert(d.last() == 'o');
    assert(drop_trailing(d, CharClass::Slash) == d);
}

/// The route that one fragment of a `Link` header names: a fragment carrying
/// `rel="xet-auth"` (in any ASCII case) names the trimmed text between its first `<` and the
/// next `>`.
pub open spec fn fragment_route(f: Seq<char>) -> Option<Seq<char>> {
    if contains_folded(f, "rel=\"xet-auth\""@) {
        let a = index_of(f, '<');
        if a < 0 {
            None
        } else {
            let rest = f.skip(a + 1);
            let b = index_of(rest, '>');
            if b < 0 {
                None
            } else {
                Some(trimmed(rest.take(b)))
            }
        }
    } else {
        None
    }
}

/// The route that the first fitting comma-separated fragment of a `Link` header names.
pub open spec fn link_route(s: Seq<char>) -> Option<Seq<char>>
    decreases s.len(),
{
    let i = index_of(s, ',');
    let frag = if i < 0 {
        s
    } else {
        s.take(i)
    };
    match fragment_route(frag) {
        Some(r) => Some(r),
        None => if 0 <= i < s.len() {
            link_route(s.skip(i + 1))
        } else {
            None
        },
    }
}

/// The route that `v[lo..hi]` names as a fragment of a `Link` header.
fn fragment_route_at(v: &Vec<char>, lo: usize, hi: usize) -> (r: Option<String>)
    requires
        lo <= hi <= v@.len(),
    ensures
        r matches Some(t) ==> fragment_route(v@.subrange(lo as int, hi as int)) == Some(t@),
        r is None ==> fragment_route(v@.subrange(lo as int, hi as int)) is None,
{
    let ghost f = v@.subrange(lo as int, hi as int);
    if !range_contains_folded(v, lo, hi, &char_vec("rel=\"xet-auth\"")) {
        return None;
    }
    let a = find_char(v, '<', lo, hi);
    proof {
        lemma_find_is_index_of(v@, '<', lo as int, hi as int, a);
    }
    match a {
        None => None,
        Some(a) => {
            let b = find_char(v, '>', a + 1, hi);
            proof {
                lemma_find_is_index_of(v@, '>', a + 1, hi as int, b);
                assert(f.skip(a - lo + 1) == v@.subrange(a + 1, hi as int));
            }
            match b {
                None => None,
                Some(b) => {
                    assert(f.skip(a - lo + 1).take(b - (a + 1)) == v@.subrange(a + 1, b as int));
                    let (c, d) = trim_range(v, a + 1, b, CharClass::WhiteSpace);
                    Some(string_of_range(v, c, d))
                },
            }
        },
    }
}

/// The refresh route that a `Link` header value names, before any rewriting.
pub fn link_header_route(value: &str) -> (r: Option<String>)
    ensures
        r matches Some(t) ==> link_route(value@) == Some(t@),
        r is None ==> link_route(value@) is None,
{
    let v = char_vec(value);
    let n = v.len();
    let mut start: usize = 0;
    assert(v@.skip(0) == v@);
    loop
        invariant
            start <= n == v@.len(),
            v@ == value@,
            link_route(value@) == link_route(v@.skip(start as int)),
        decreases n - start,
    {
        let ghost s = v@.skip(start as int);
        let comma = find_char(&v, ',', start, n);
        proof {
            lemma_find_is_index_of(v@, ',', start as int, n as int, comma);
            assert(v@.subrange(start as int, n as int) == s);
        }
        let end = match comma {
            Some(e) => e,
            None => n,
        };
        assert(v@.subrange(start as int, end as int) == if comma is None {
            s
        } else {
            s.take(end - start)
        });
        match fragment_route_at(&v, start, end) {
            Some(route) => {
                return Some(route);
            },
            None => {},
        }
        match comma {
            None => {
                return None;
            },
            Some(e) => {
                assert(s.skip(e - start + 1) == v@.skip(e + 1));
                start = e + 1;
            },
        }
    }
}

/// The route of a response's `Link` header, moved onto the configured endpoint.
pub open spec fn linked_refresh_route(h: HeaderMap, endpoint: Seq<char>) -> Option<Seq<char>> {
    match header_text(h, "link"@) {
        Some(t) => match link_route(t) {
            Some(r) => Some(rewritten_route(r, endpoint)),
            None => None,
        },
        None => None,
    }
}

proof fn lemma_link_name()
    ensures
        lowercase_token("link"@),
{
    reveal_strlit("link");
}

/// The refresh route that a response's `Link` header names under `rel="xet-auth"`, moved
/// onto the configured endpoint.
pub fn extract_refresh_route(headers: &HeaderMap, endpoint: &str) -> (r: Option<String>)
    ensures
        r matches Some(t) ==> linked_refresh_route(*headers, endpoint@) == Some(t@),
        r is None ==> linked_refresh_route(*headers, endpoint@) is None,
{
    proof {
        lemma_link_name();
    }
    match raw_header(headers, "link") {
        None => None,
        Some(value) => match link_header_route(value.as_str()) {
            None => None,
            Some(route) => Some(rewrite_refresh_route(route.as_str(), endpoint)),
        },
    }
}

// ---------------------------------------------------------------------------
// CAS addressing
/// The CAS addressing that a response announces: the `x-xet-hash` header, with the refresh
/// route of the `Link` header or else of the `x-xet-refresh-route` header, moved onto the
/// configured endpoint. Without a hash or a route the file is not CAS-backed.
pub open spec fn xet_data_of(h: HeaderMap, endpoint: Seq<char>) -> Option<(Seq<char>, Seq<char>)> {
    match header_value(h, "x-xet-hash"@) {
        None => None,
        Some(hash) => {
            let route = match linked_refresh_route(h, endpoint) {
                Some(r) => Some(r),
                None => match header_value(h, "x-xet-refresh-route"@) {
                    Some(r) => Some(rewritten_route(r, endpoint)),
                    None => None,
                },
            };
            match route {
                Some(r) => Some((hash, r)),
                None => None,
            }
        },
    }
}

proof fn lemma_xet_names()
    ensures
        lowercase_token("x-xet-hash"@),
        lowercase_token("x-xet-refresh-route"@),
{
    reveal_strlit("x-xet-hash");
    reveal_strlit("x-xet-refresh-route");
}

/// Reads the CAS addressing of a file from response headers.
pub fn parse_xet_file_data(headers: &HeaderMap, endpoint: &str) -> (r: Option<XetFileData>)
    ensures
        option_view(r) == xet_data_of(*headers, endpoint@),
{
    proof {
        lemma_xet_names();
    }
    let hash = match header_to_string(headers, "x-xet-hash") {
        Some(h) => h,
        None => {
            return None;
        },
    };
    let route = match extract_refresh_route(headers, endpoint) {
        Some(r) => Some(r),
        None => match header_to_string(headers, "x-xet-refresh-route") {
            Some(r) => Some(rewrite_refresh_route(r.as_str(), endpoint)),
            None => None,
        },
    };
    match route {
        Some(refresh_route) => Some(XetFileData { file_hash: hash, refresh_route }),
        None => None,
    }
}

// ---------------------------------------------------------------------------
// Sizes
/// The total of a `Content-Range` value (`bytes X-Y/TOTAL`): the number after its last `/`
/// (the whole text where there is no `/`).
pub open spec fn content_range_total(s: Seq<char>) -> Option<u64> {
    u64_of(s.skip(last_index_of(s, '/') + 1))
}

/// Reads the total size out of a `Content-Range` value.
pub fn parse_total_from_content_range(value: &str) -> (r: Option<u64>)
    ensures
        r == content_range_total(value@),
{
    let v = char_vec(value);
    let j = after_last(&v, '/');
    let tail = string_of_range(&v, j, v.len());
    assert(v@.subrange(j as int, v@.len() as int) == v@.skip(j as int));
    parse_u64(tail.as_str())
}

/// A header read as a decimal number.
pub open spec fn header_u64(h: HeaderMap, name: Seq<char>) -> Option<u64> {
    match header_value(h, name) {
        Some(t) => u64_of(t),
        None => None,
    }
}

/// The size of the file that a response describes: the `x-linked-size` header, else the
/// total of the `Content-Range` header, else the `Content-Length` header; a header that does
/// not hold a number is passed over.
pub open spec fn file_size_of(h: HeaderMap) -> Option<u64> {
    if header_u64(h, "x-linked-size"@) is Some {
        header_u64(h, "x-linked-size"@)
    } else {
        let range = match header_value(h, "content-range"@) {
            Some(t) => content_range_total(t),
            None => None,
        };
        if range is Some {
            range
        } else {
            header_u64(h, "content-length"@)
        }
    }
}

proof fn lemma_size_names()
    ensures
        lowercase_token("x-linked-size"@),
        lowercase_token("content-range"@),
        lowercase_token("content-length"@),
{
    reveal_strlit("x-linked-size");
    reveal_strlit("content-range");
    reveal_strlit("content-length");
}

/// Reads the size of a file from response headers.
pub fn parse_file_size(headers: &HeaderMap) -> (r: Result<u64, XetError>)
    ensures
        r matches Ok(n) ==> file_size_of(*headers) == Some(n),
        r matches Err(e) ==> file_size_of(*headers) is None && e@ == (
            ErrorKind::Network,
            "Missing file size headers in response"@,
        ),
{
    proof {
        lemma_size_names();
    }
    if let Some(linked) = header_to_string(headers, "x-linked-size") {
        if let Some(size) = parse_u64(linked.as_str()) {
            return Ok(size);
        }
    }
    if let Some(range) = header_to_string(headers, "content-range") {
        if let Some(total) = parse_total_from_content_range(range.as_str()) {
            return Ok(total);
        }
    }
    if let Some(length) = header_to_string(headers, "content-length") {
        if let Some(size) = parse_u64(length.as_str()) {
            return Ok(size);
        }
    }
    Err(XetError::NetworkError { message: owned("Missing file size headers in response") })
}

// ---------------------------------------------------------------------------
// The whole record
/// The etag of a response: the `x-linked-etag` header, else the `ETag` header.
pub open spec fn etag_of(h: HeaderMap) -> Option<Seq<char>> {
    if header_value(h, "x-linked-etag"@) is Some {
        header_value(h, "x-linked-etag"@)
    } else {
        header_value(h, "etag"@)
    }
}

/// What a successful resolve response says of the file, or why it says too little: the
/// commit, the etag and the size are required, in that order; the CAS addressing is not.
pub open spec fn resolved_metadata(h: HeaderMap, url: Seq<char>, endpoint: Seq<char>) -> Result<
    MetadataView,
    (ErrorKind, Seq<char>),
> {
    match header_value(h, "x-repo-commit"@) {
        None => Err((ErrorKind::Network, "Missing X-Repo-Commit header"@)),
        Some(commit) => match etag_of(h) {
            None => Err((ErrorKind::Network, "Missing ETag header"@)),
            Some(etag) => match file_size_of(h) {
                None => Err((ErrorKind::Network, "Missing file size headers in response"@)),
                Some(size) => Ok(
                    MetadataView {
                        download_url: url,
                        etag,
                        commit_hash: commit,
                        size,
                        xet_file_data: xet_data_of(h, endpoint),
                    },
                ),
            },
        },
    }
}

proof fn lemma_record_names()
    ensures
        lowercase_token("x-repo-commit"@),
        lowercase_token("x-linked-etag"@),
        lowercase_token("etag"@),
{
    reveal_strlit("x-repo-commit");
    reveal_strlit("x-linked-etag");
    reveal_strlit("etag");
}

/// Reads the record of a file out of a successful (2xx or 3xx) resolve response: its
/// headers, and `url`, the URL that the response finally came from.
pub fn parse_metadata_from_response(headers: &HeaderMap, url: &str, endpoint: &str) -> (r: Result<
    FileResolveMetadata,
    XetError,
>)
    ensures
        r matches Ok(m) ==> resolved_metadata(*headers, url@, endpoint@) == Ok::<
            MetadataView,
            (ErrorKind, Seq<char>),
        >(m@),
        r matches Err(e) ==> resolved_metadata(*headers, url@, endpoint@) == Err::<
            MetadataView,
            (ErrorKind, Seq<char>),
        >(e@),
{
    proof {
        lemma_record_names();
    }
    let commit_hash = match header_to_string(headers, "x-repo-commit") {
        Some(c) => c,
        None => {
            return Err(XetError::NetworkError { message: owned("Missing X-Repo-Commit header") });
        },
    };
    let etag = match header_to_string(headers, "x-linked-etag") {
        Some(e) => e,
        None => match header_to_string(headers, "etag") {
            Some(e) => e,
            None => {
                return Err(XetError::NetworkError { message: owned("Missing ETag header") });
            },
        },
    };
    let size = match parse_file_size(headers) {
        Ok(n) => n,
        Err(e) => {
            return Err(e);
        },
    };
    let xet_file_data = parse_xet_file_data(headers, endpoint);
    Ok(FileResolveMetadata { download_url: owned(url), etag, commit_hash, size, xet_file_data })
}

} // verus!
