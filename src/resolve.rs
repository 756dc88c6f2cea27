//! The candidate resolve URLs and the machine that probes them for a file's metadata.
use vstd::prelude::*;

use reqwest::header::HeaderMap;

use crate::error::{error_text, joined, owned, ErrorKind, XetError};
use crate::metadata::{
    canonical_prefix, canonical_repo_prefix, parse_metadata_from_response, resolved_metadata,
    FileResolveMetadata, MetadataView,
};
use crate::text::{
    append_str, char_vec, drop_trailing, skip_trailing, string_of_range,
    url_encode, url_encoded, CharClass,
};

verus! {

/// The URL shapes under which the hub resolves a path at a revision, in the order tried.
#[derive(Clone, Copy, PartialEq, Eq, Structural, Debug)]
pub enum ResolveShape {
    /// `{endpoint}/{prefix}{repo}/resolve/{revision}/{path}`, the prefix naming
    /// non-model kinds.
    Canonical,
    /// `{endpoint}/api/{kind}/{repo}/resolve/{revision}/{path}`.
    ApiRevisionInPath,
    /// `{endpoint}/api/{kind}/{repo}/resolve/{path}?revision={revision}`.
    ApiRevisionQuery,
}

pub open spec fn shape_order() -> Seq<ResolveShape> {
    seq![ResolveShape::Canonical, ResolveShape::ApiRevisionInPath, ResolveShape::ApiRevisionQuery]
}

/// The shapes of resolve URL, in the order that they are tried.
pub fn resolve_shapes() -> (r: Vec<ResolveShape>)
    ensures
        r@ == shape_order(),
{
    let r = vec![
        ResolveShape::Canonical,
        ResolveShape::ApiRevisionInPath,
        ResolveShape::ApiRevisionQuery,
    ];
    assert(r@ == shape_order());
    r
}

/// The URL of one shape; `endpoint` loses its trailing slashes, path and revision are
/// percent-encoded.
pub open spec fn resolve_url(
    shape: ResolveShape,
    endpoint: Seq<char>,
    plural: Seq<char>,
    full_name: Seq<char>,
    path: Seq<char>,
    revision: Seq<char>,
) -> Seq<char> {
    let e = drop_trailing(endpoint, CharClass::Slash);
    match shape {
        ResolveShape::Canonical => e + "/"@ + canonical_prefix(plural) + full_name + "/resolve/"@
            + url_encoded(revision) + "/"@ + url_encoded(path),
        ResolveShape::ApiRevisionInPath => e + "/api/"@ + plural + "/"@ + full_name
            + "/resolve/"@ + url_encoded(revision) + "/"@ + url_encoded(path),
        ResolveShape::ApiRevisionQuery => e + "/api/"@ + plural + "/"@ + full_name
            + "/resolve/"@ + url_encoded(path) + "?revision="@ + url_encoded(revision),
    }
}

/// `endpoint` without its trailing slashes.
pub fn trim_endpoint(endpoint: &str) -> (r: String)
    ensures
        r@ == drop_trailing(endpoint@, CharClass::Slash),
{
    let v = char_vec(endpoint);
    let j = skip_trailing(&v, 0, v.len(), CharClass::Slash);
    assert(v@.subrange(0, v@.len() as int) == v@);
    string_of_range(&v, 0, j)
}

/// The resolve URL of one shape.
pub fn build_resolve_url(
    shape: ResolveShape,
    endpoint: &str,
    repo_type_plural: &str,
    full_name: &str,
    path: &str,
    revision: &str,
) -> (r: String)
    ensures
        r@ == resolve_url(shape, endpoint@, repo_type_plural@, full_name@, path@, revision@),
{
    let mut r = trim_endpoint(endpoint);
    let enc_path = url_encode(path);
    let enc_rev = url_encode(revision);
    match shape {
        ResolveShape::Canonical => {
            append_str(&mut r, "/");
            append_str(&mut r, canonical_repo_prefix(repo_type_plural));
            append_str(&mut r, full_name);
            append_str(&mut r, "/resolve/");
            append_str(&mut r, enc_rev.as_str());
            append_str(&mut r, "/");
            append_str(&mut r, enc_path.as_str());
        },
        ResolveShape::ApiRevisionInPath => {
            append_str(&mut r, "/api/");
            append_str(&mut r, repo_type_plural);
            append_str(&mut r, "/");
            append_str(&mut r, full_name);
            append_str(&mut r, "/resolve/");
            append_str(&mut r, enc_rev.as_str());
            append_str(&mut r, "/");
            append_str(&mut r, enc_path.as_str());
        },
        ResolveShape::ApiRevisionQuery => {
            append_str(&mut r, "/api/");
            append_str(&mut r, repo_type_plural);
            append_str(&mut r, "/");
            append_str(&mut r, full_name);
            append_str(&mut r, "/resolve/");
            append_str(&mut r, enc_path.as_str());
            append_str(&mut r, "?revision=");
            append_str(&mut r, enc_rev.as_str());
        },
    }
    r
}

pub open spec fn string_views(v: Seq<String>) -> Seq<Seq<char>> {
    v.map_values(|s: String| s@)
}

/// The candidate URLs for resolving `path` at `revision`, one per shape, in order.
pub fn build_resolve_urls(
    endpoint: &str,
    repo_type_plural: &str,
    full_name: &str,
    path: &str,
    revision: &str,
) -> (r: Vec<String>)
    ensures
        r@.len() == shape_order().len(),
        forall|k: int|
            0 <= k < r@.len() ==> #[trigger] r@[k]@ == resolve_url(
                shape_order()[k],
                endpoint@,
                repo_type_plural@,
                full_name@,
                path@,
                revision@,
            ),
{
    let shapes = resolve_shapes();
    let mut r: Vec<String> = Vec::new();
    let mut k: usize = 0;
    while k < shapes.len()
        invariant
            shapes@ == shape_order(),
            k <= shapes@.len(),
            r@.len() == k,
            forall|j: int|
                0 <= j < k ==> #[trigger] r@[j]@ == resolve_url(
                    shape_order()[j],
                    endpoint@,
                    repo_type_plural@,
                    full_name@,
                    path@,
                    revision@,
                ),
        decreases shapes.len() - k,
    {
        let u = build_resolve_url(shapes[k], endpoint, repo_type_plural, full_name, path, revision);
        r.push(u);
        k = k + 1;
    }
    r
}

/// The tree-listing URL of a directory: `{endpoint}/api/{kind}/{repo}/tree/{revision}`, with
/// `/{path}` after it unless the path is empty (the repository's root).
pub open spec fn tree_url(
    endpoint: Seq<char>,
    plural: Seq<char>,
    full_name: Seq<char>,
    path: Seq<char>,
    revision: Seq<char>,
) -> Seq<char> {
    let base = endpoint + "/api/"@ + plural + "/"@ + full_name + "/tree/"@ + url_encoded(revision);
    if path.len() == 0 {
        base
    } else {
        base + "/"@ + url_encoded(path)
    }
}

pub fn build_tree_url(
    endpoint: &str,
    repo_type_plural: &str,
    full_name: &str,
    path: &str,
    revision: &str,
) -> (r: String)
    ensures
        r@ == tree_url(endpoint@, repo_type_plural@, full_name@, path@, revision@),
{
    let mut r = owned(endpoint);
    append_str(&mut r, "/api/");
    append_str(&mut r, repo_type_plural);
    append_str(&mut r, "/");
    append_str(&mut r, full_name);
    append_str(&mut r, "/tree/");
    let enc_rev = url_encode(revision);
    append_str(&mut r, enc_rev.as_str());
    if !path.is_empty() {
        append_str(&mut r, "/");
        let enc_path = url_encode(path);
        append_str(&mut r, enc_path.as_str());
    }
    r
}

// ---------------------------------------------------------------------------
// Probing
/// How a candidate URL is asked.
#[derive(Clone, Copy, PartialEq, Eq, Structural, Debug)]
pub enum ProbeMethod {
    /// `HEAD` without following redirects.
    Head,
    /// `GET` with `Range: bytes=0-0`, following redirects.
    RangedGet,
}

/// A request that the probe wants sent.
pub struct ProbeRequest {
    pub url: String,
    pub method: ProbeMethod,
}

pub struct ProbeView {
    pub candidates: Seq<Seq<char>>,
    pub endpoint: Seq<char>,
    pub index: int,
    pub method: ProbeMethod,
    pub last_error: Option<Seq<char>>,
    pub found: Option<MetadataView>,
}

/// Resolves a file's metadata by probing the candidate URLs in order. For each candidate a
/// `HEAD` is sent first; a 2xx or 3xx answer whose headers parse ends the probe (the first
/// success wins); one that does not parse, and any other status, moves on to the next
/// candidate. Only where the `HEAD` got no answer at all is a ranged `GET` sent to the same
/// URL. Client errors, 401 and 403 included, do not stop the probe: other shapes may still
/// answer. Whoever drives the probe sends what `next_request` asks for and reports the
/// outcome through `on_response` or `on_transport_error`.
pub struct MetadataProbe {
    candidates: Vec<String>,
    endpoint: String,
    index: usize,
    method: ProbeMethod,
    last_error: Option<String>,
    found: Option<FileResolveMetadata>,
}

pub open spec fn opt_text(o: Option<String>) -> Option<Seq<char>> {
    match o {
        Some(s) => Some(s@),
        None => None,
    }
}

pub open spec fn opt_metadata(o: Option<FileResolveMetadata>) -> Option<MetadataView> {
    match o {
        Some(m) => Some(m@),
        None => None,
    }
}

impl View for MetadataProbe {
    type V = ProbeView;

    closed spec fn view(&self) -> ProbeView {
        ProbeView {
            candidates: string_views(self.candidates@),
            endpoint: self.endpoint@,
            index: self.index as int,
            method: self.method,
            last_error: opt_text(self.last_error),
            found: opt_metadata(self.found),
        }
    }
}

pub open spec fn method_word(m: ProbeMethod) -> Seq<char> {
    match m {
        ProbeMethod::Head => "HEAD"@,
        ProbeMethod::RangedGet => "GET"@,
    }
}

/// The probe after the current candidate failed with `err`: on to the next one, by `HEAD`.
pub open spec fn advanced(p: ProbeView, err: Seq<char>) -> ProbeView {
    ProbeView { index: p.index + 1, method: ProbeMethod::Head, last_error: Some(err), ..p }
}

/// The probe after an answer with status `status` (read as `status_text`) whose headers
/// parse to `parsed`.
pub open spec fn after_response(
    p: ProbeView,
    status: u16,
    status_text: Seq<char>,
    parsed: Result<MetadataView, (ErrorKind, Seq<char>)>,
) -> ProbeView {
    if 200 <= status < 400 {
        match parsed {
            Ok(m) => ProbeView { found: Some(m), ..p },
            Err(e) => advanced(p, error_text(e)),
        }
    } else if 400 <= status < 500 {
        advanced(p, method_word(p.method) + " request failed with status: "@ + status_text)
    } else {
        advanced(p, method_word(p.method) + " request received unexpected status: "@ + status_text)
    }
}

/// The probe after a request that got no answer: a `HEAD` is retried as a ranged `GET`; a
/// failed `GET` moves on to the next candidate.
pub open spec fn after_transport_error(p: ProbeView, detail: Seq<char>) -> ProbeView {
    match p.method {
        ProbeMethod::Head => ProbeView { method: ProbeMethod::RangedGet, ..p },
        ProbeMethod::RangedGet => advanced(p, "GET request failed: "@ + detail),
    }
}

/// The probe has its answer: metadata found, or every candidate tried.
pub open spec fn probe_done(p: ProbeView) -> bool {
    p.found is Some || p.index >= p.candidates.len()
}

/// What a finished probe gives: the metadata found, or a network error that carries the
/// last failure seen.
pub open spec fn probe_result(p: ProbeView) -> Result<MetadataView, (ErrorKind, Seq<char>)> {
    match p.found {
        Some(m) => Ok(m),
        None => Err(
            (
                ErrorKind::Network,
                "Failed to retrieve HEAD metadata: "@ + match p.last_error {
                    Some(e) => e,
                    None => "unknown error"@,
                },
            ),
        ),
    }
}

impl MetadataProbe {
    pub open spec fn wf(&self) -> bool {
        0 <= self@.index <= self@.candidates.len()
    }

    /// A probe of the candidate URLs for `path` at `revision` in the given repository.
    pub fn new(
        endpoint: &str,
        repo_type_plural: &str,
        full_name: &str,
        path: &str,
        revision: &str,
    ) -> (r: MetadataProbe)
        ensures
            r.wf(),
            r@.candidates.len() == shape_order().len(),
            forall|k: int|
                0 <= k < r@.candidates.len() ==> #[trigger] r@.candidates[k] == resolve_url(
                    shape_order()[k],
                    endpoint@,
                    repo_type_plural@,
                    full_name@,
                    path@,
                    revision@,
                ),
            r@.endpoint == drop_trailing(endpoint@, CharClass::Slash),
            r@.index == 0,
            r@.method == ProbeMethod::Head,
            r@.last_error is None,
            r@.found is None,
    {
        let candidates = build_resolve_urls(endpoint, repo_type_plural, full_name, path, revision);
        MetadataProbe {
            candidates,
            endpoint: trim_endpoint(endpoint),
            index: 0,
            method: ProbeMethod::Head,
            last_error: None,
            found: None,
        }
    }

    pub fn is_done(&self) -> (r: bool)
        requires
            self.wf(),
        ensures
            r == probe_done(self@),
    {
        self.found.is_some() || self.index >= self.candidates.len()
    }

    /// The request to send next, or `None` once the probe has its answer.
    pub fn next_request(&self) -> (r: Option<ProbeRequest>)
        requires
            self.wf(),
        ensures
            r is None <==> probe_done(self@),
            r matches Some(q) ==> q.url@ == self@.candidates[self@.index] && q.method
                == self@.method,
    {
        if self.is_done() {
            None
        } else {
            Some(ProbeRequest { url: self.candidates[self.index].clone(), method: self.method })
        }
    }

    /// Takes in the answer to the last request: its status code, how the status reads
    /// (`"404 Not Found"`), its headers, and the URL that it finally came from.
    pub fn on_response(
        &mut self,
        status: u16,
        status_text: &str,
        headers: &HeaderMap,
        final_url: &str,
    )
        requires
            old(self).wf(),
            !probe_done(old(self)@),
        ensures
            final(self).wf(),
            final(self)@ == after_response(
                old(self)@,
                status,
                status_text@,
                resolved_metadata(*headers, final_url@, old(self)@.endpoint),
            ),
    {
        let word = match self.method {
            ProbeMethod::Head => "HEAD",
            ProbeMethod::RangedGet => "GET",
        };
        if 200 <= status && status < 400 {
            match parse_metadata_from_response(headers, final_url, self.endpoint.as_str()) {
                Ok(m) => {
                    self.found = Some(m);
                },
                Err(e) => {
                    let text = e.describe();
                    self.advance(text);
                },
            }
        } else if 400 <= status && status < 500 {
            let mut text = joined(word, " request failed with status: ");
            append_str(&mut text, status_text);
            self.advance(text);
        } else {
            let mut text = joined(word, " request received unexpected status: ");
            append_str(&mut text, status_text);
            self.advance(text);
        }
    }

    /// Takes in that the last request got no answer; `detail` says why.
    pub fn on_transport_error(&mut self, detail: &str)
        requires
            old(self).wf(),
            !probe_done(old(self)@),
        ensures
            final(self).wf(),
            final(self)@ == after_transport_error(old(self)@, detail@),
    {
        match self.method {
            ProbeMethod::Head => {
                self.method = ProbeMethod::RangedGet;
            },
            ProbeMethod::RangedGet => {
                let text = joined("GET request failed: ", detail);
                self.advance(text);
            },
        }
    }

    fn advance(&mut self, err: String)
        requires
            old(self).wf(),
            old(self).index < old(self).candidates@.len(),
        ensures
            final(self).wf(),
            final(self)@ == advanced(old(self)@, err@),
    {
        if self.index < self.candidates.len() {
            self.index = self.index + 1;
        }
        self.method = ProbeMethod::Head;
        self.last_error = Some(err);
    }

    /// The outcome of a finished probe.
    pub fn into_result(self) -> (r: Result<FileResolveMetadata, XetError>)
        requires
            self.wf(),
            probe_done(self@),
        ensures
            match r {
                Ok(m) => probe_result(self@) == Ok::<MetadataView, (ErrorKind, Seq<char>)>(m@),
                Err(e) => probe_result(self@) == Err::<MetadataView, (ErrorKind, Seq<char>)>(e@),
            },
    {
        match self.found {
            Some(m) => Ok(m),
            None => {
                let last = match self.last_error {
                    Some(e) => e,
                    None => owned("unknown error"),
                };
                Err(
                    XetError::NetworkError {
                        message: joined("Failed to retrieve HEAD metadata: ", last.as_str()),
                    },
                )
            },
        }
    }
}

} // verus!
