//! The download orchestrator: CAS transfer, then a direct HTTP fetch, then the legacy
//! resolve URLs, each tried at most once and in that order.
use vstd::prelude::*;

use crate::error::{joined, owned, ErrorKind, XetError};
use crate::metadata::{FileResolveMetadata, MetadataView};
use crate::repo::RepoInfo;
use crate::resolve::{
    build_resolve_urls, opt_metadata, opt_text, resolve_url, shape_order, string_views,
    MetadataProbe, ProbeMethod,
};
use crate::text::{append_str, drop_trailing, same_text, CharClass};
use crate::types::XetFileInfo;

verus! {

// ---------------------------------------------------------------------------
// Forwarding credentials
/// Whether `url::Url::parse` accepts `s`.
pub uninterp spec fn url_parses(s: Seq<char>) -> bool;

/// The host of the URL `s` as `url::Url::host_str` gives it (a domain or an IP address;
/// `None` for a URL without host).
pub uninterp spec fn url_host(s: Seq<char>) -> Option<Seq<char>>;

/// Relies on `url::Url::parse` (reached as `reqwest::Url`), whose success depends on the
/// text alone, and `Url::host_str`, which gives the parsed URL's host as written in it.
#[verifier::external_body]
fn parsed_host(s: &str) -> (r: Option<Option<String>>)
    ensures
        r is Some <==> url_parses(s@),
        r matches Some(h) ==> url_host(s@) == match h {
            Some(t) => Some(t@),
            None => None::<Seq<char>>,
        },
{
    reqwest::Url::parse(s).ok().map(|u| u.host_str().map(|h| h.to_string()))
}

pub open spec fn host_view(d: Option<Option<String>>) -> Option<Option<Seq<char>>> {
    match d {
        Some(Some(t)) => Some(Some(t@)),
        Some(None) => Some(None),
        None => None,
    }
}

/// Given the parse of the target URL and of the endpoint (`None` where a URL does not parse,
/// else its host), whether they are on the same host: both parse, both have a host, and the
/// hosts are equal.
pub open spec fn same_host(target: Option<Option<Seq<char>>>, base: Option<Option<Seq<char>>>) -> bool {
    match (target, base) {
        (Some(Some(t)), Some(Some(b))) => t == b,
        _ => false,
    }
}

pub fn same_host_decision(target: &Option<Option<String>>, base: &Option<Option<String>>) -> (r:
    bool)
    ensures
        r == same_host(host_view(*target), host_view(*base)),
{
    match (target, base) {
        (Some(Some(t)), Some(Some(b))) => same_text(t.as_str(), b.as_str()),
        _ => false,
    }
}

/// Credentials go with a direct download only where there are any and the download URL is
/// on the endpoint's host, so that the caller's token does not leak to other hosts: both
/// URLs must parse, and their hosts must be present and equal.
pub open spec fn auth_allowed(has_token: bool, url: Seq<char>, endpoint: Seq<char>) -> bool {
    &&& has_token
    &&& url_parses(url)
    &&& url_parses(endpoint)
    &&& url_host(url) is Some
    &&& url_host(url) == url_host(endpoint)
}

/// Whether to attach the caller's bearer token to a direct download of `download_url`.
pub fn should_send_auth(has_token: bool, download_url: &str, endpoint: &str) -> (r: bool)
    ensures
        r == auth_allowed(has_token, download_url@, endpoint@),
{
    if !has_token {
        return false;
    }
    let target = parsed_host(download_url);
    let base = parsed_host(endpoint);
    same_host_decision(&target, &base)
}

// ---------------------------------------------------------------------------
// Stages
/// The stages of one download, in the only order in which they can follow each other.
#[derive(Clone, Copy, PartialEq, Eq, Structural, Debug)]
pub enum DownloadStage {
    ResolveMetadata,
    TryCas,
    TryHttp,
    Legacy,
    Done,
    Failed,
}

/// What ends a stage.
#[derive(Clone, Copy, PartialEq, Eq, Structural, Debug)]
pub enum StageEvent {
    /// The metadata resolved; `cas` tells whether it carries CAS addressing that is to be used.
    MetadataFound { cas: bool },
    /// The metadata did not resolve.
    MetadataFailed,
    /// The stage's attempt succeeded.
    Succeeded,
    /// The stage's attempt failed; the legacy stage goes on to its next URL.
    Failed,
    /// The legacy stage has tried its last URL.
    Exhausted,
}

/// The transition table. A failure falls through to the next strategy; a success ends
/// the download; an event that does not belong to the stage changes nothing.
pub open spec fn next_stage(s: DownloadStage, e: StageEvent) -> DownloadStage {
    match (s, e) {
        (DownloadStage::ResolveMetadata, StageEvent::MetadataFound { cas }) => if cas {
            DownloadStage::TryCas
        } else {
            DownloadStage::TryHttp
        },
        (DownloadStage::ResolveMetadata, StageEvent::MetadataFailed) => DownloadStage::Legacy,
        (DownloadStage::TryCas, StageEvent::Succeeded) => DownloadStage::Done,
        (DownloadStage::TryCas, StageEvent::Failed) => DownloadStage::TryHttp,
        (DownloadStage::TryHttp, StageEvent::Succeeded) => DownloadStage::Done,
        (DownloadStage::TryHttp, StageEvent::Failed) => DownloadStage::Legacy,
        (DownloadStage::Legacy, StageEvent::Succeeded) => DownloadStage::Done,
        (DownloadStage::Legacy, StageEvent::Exhausted) => DownloadStage::Failed,
        _ => s,
    }
}

pub fn transition(s: DownloadStage, e: StageEvent) -> (r: DownloadStage)
    ensures
        r == next_stage(s, e),
{
    match (s, e) {
        (DownloadStage::ResolveMetadata, StageEvent::MetadataFound { cas }) => if cas {
            DownloadStage::TryCas
        } else {
            DownloadStage::TryHttp
        },
        (DownloadStage::ResolveMetadata, StageEvent::MetadataFailed) => DownloadStage::Legacy,
        (DownloadStage::TryCas, StageEvent::Succeeded) => DownloadStage::Done,
        (DownloadStage::TryCas, StageEvent::Failed) => DownloadStage::TryHttp,
        (DownloadStage::TryHttp, StageEvent::Succeeded) => DownloadStage::Done,
        (DownloadStage::TryHttp, StageEvent::Failed) => DownloadStage::Legacy,
        (DownloadStage::Legacy, StageEvent::Succeeded) => DownloadStage::Done,
        (DownloadStage::Legacy, StageEvent::Exhausted) => DownloadStage::Failed,
        _ => s,
    }
}

pub open spec fn stage_rank(s: DownloadStage) -> int {
    match s {
        DownloadStage::ResolveMetadata => 0,
        DownloadStage::TryCas => 1,
        DownloadStage::TryHttp => 2,
        DownloadStage::Legacy => 3,
        DownloadStage::Done => 4,
        DownloadStage::Failed => 4,
    }
}

pub open spec fn is_terminal(s: DownloadStage) -> bool {
    s == DownloadStage::Done || s == DownloadStage::Failed
}

/// Each stage is attempted at most once: every transition that changes the stage moves
/// forward, and a finished download stays finished.
pub proof fn law_stages_move_forward(s: DownloadStage, e: StageEvent)
    ensures
        stage_rank(next_stage(s, e)) >= stage_rank(s),
        next_stage(s, e) != s ==> stage_rank(next_stage(s, e)) > stage_rank(s),
        is_terminal(s) ==> next_stage(s, e) == s,
{
}

// ---------------------------------------------------------------------------
// Plans for the transfer engine
/// One file for the transfer engine: what to fetch and where to write it.
#[derive(Debug)]
pub struct XetDownloadPlan {
    pub file_info: XetFileInfo,
    pub destination: String,
}

impl XetDownloadPlan {
    pub fn new(file_info: XetFileInfo, destination: String) -> (r: XetDownloadPlan)
        ensures
            r.file_info.view() == file_info.view(),
            r.destination@ == destination@,
    {
        XetDownloadPlan { file_info, destination }
    }
}

// ---------------------------------------------------------------------------
// One download
/// What a legacy fetch of one URL came to.
pub enum FetchOutcome {
    /// The body was received (and, for a download to disk, written).
    Saved,
    /// The request got no answer; the text says why.
    RequestFailed(String),
    /// The answer had an error status; the text says which.
    StatusFailed(String),
    /// The body could not be read; the text says why.
    BodyFailed(String),
    /// Writing the received body failed: this ends the download.
    WriteFailed(XetError),
}

/// What the driver of a download is to do next.
pub enum DownloadAction {
    /// Resolve the file's metadata by driving `metadata_probe()`, then call `on_metadata`.
    ResolveMetadata,
    /// Get a CAS token from `refresh_route` and hand `plan` to the transfer engine, then
    /// call `on_cas_outcome`.
    TransferCas { refresh_route: String, plan: Vec<XetDownloadPlan> },
    /// Fetch `url`, with the bearer token only where `send_auth`, and keep the body, then
    /// call `on_direct_outcome`.
    FetchDirect { url: String, send_auth: bool },
    /// Fetch `url` with the bearer token and keep the body, then call `on_legacy_outcome`.
    FetchLegacy { url: String },
    /// Nothing: `outcome` has the result.
    Finished,
}

pub struct FlowView {
    pub stage: DownloadStage,
    pub to_memory: bool,
    pub destination: Seq<char>,
    pub endpoint: Seq<char>,
    pub has_token: bool,
    pub repo_type_plural: Seq<char>,
    pub full_name: Seq<char>,
    pub path: Seq<char>,
    pub revision: Seq<char>,
    pub legacy_urls: Seq<Seq<char>>,
    pub legacy_index: int,
    pub last_error: Option<Seq<char>>,
    pub metadata: Option<MetadataView>,
    pub failure: Option<(ErrorKind, Seq<char>)>,
}

/// One download of one file, to a path on disk or into memory. Both go through the same
/// stages. The transfer engine writes files, so a download into memory has it write to a
/// scratch file, which the driver reads back.
pub struct DownloadFlow {
    stage: DownloadStage,
    to_memory: bool,
    destination: String,
    endpoint: String,
    has_token: bool,
    repo_type_plural: String,
    full_name: String,
    path: String,
    revision: String,
    legacy_urls: Vec<String>,
    legacy_index: usize,
    last_error: Option<String>,
    metadata: Option<FileResolveMetadata>,
    failure: Option<XetError>,
}

pub open spec fn opt_error(e: Option<XetError>) -> Option<(ErrorKind, Seq<char>)> {
    match e {
        Some(x) => Some(x@),
        None => None,
    }
}

impl View for DownloadFlow {
    type V = FlowView;

    closed spec fn view(&self) -> FlowView {
        FlowView {
            stage: self.stage,
            to_memory: self.to_memory,
            destination: self.destination@,
            endpoint: self.endpoint@,
            has_token: self.has_token,
            repo_type_plural: self.repo_type_plural@,
            full_name: self.full_name@,
            path: self.path@,
            revision: self.revision@,
            legacy_urls: string_views(self.legacy_urls@),
            legacy_index: self.legacy_index as int,
            last_error: opt_text(self.last_error),
            metadata: opt_metadata(self.metadata),
            failure: opt_error(self.failure),
        }
    }
}

/// The text that a failed legacy fetch leaves; a download into memory names the URL.
pub open spec fn fetch_error_text(to_memory: bool, url: Seq<char>, o: FetchOutcome) -> Seq<char> {
    match o {
        FetchOutcome::RequestFailed(d) => if to_memory {
            "Request error for "@ + url + ": "@ + d@
        } else {
            "Request error: "@ + d@
        },
        FetchOutcome::StatusFailed(d) => if to_memory {
            "HTTP error for "@ + url + ": "@ + d@
        } else {
            "HTTP error: "@ + d@
        },
        FetchOutcome::BodyFailed(d) => "Failed to read response body: "@ + d@,
        _ => Seq::empty(),
    }
}

/// The error that ends a download whose every legacy URL failed.
pub open spec fn exhausted_error(to_memory: bool, last: Option<Seq<char>>) -> (ErrorKind, Seq<char>) {
    (
        ErrorKind::Network,
        if to_memory {
            "Could not retrieve file. Tried multiple endpoints. Last error: "@
        } else {
            "Could not download file. Tried multiple endpoints. Last error: "@
        } + match last {
            Some(e) => e,
            None => "Unknown error"@,
        },
    )
}

impl DownloadFlow {
    pub open spec fn wf(&self) -> bool {
        &&& 0 <= self@.legacy_index <= self@.legacy_urls.len()
        &&& self@.legacy_urls.len() > 0
        &&& (self@.stage == DownloadStage::TryCas ==> (self@.metadata is Some
            && self@.metadata->0.xet_file_data is Some))
        &&& (self@.stage == DownloadStage::TryHttp ==> self@.metadata is Some)
        &&& (self@.stage == DownloadStage::Legacy ==> self@.legacy_index < self@.legacy_urls.len())
        &&& (self@.stage == DownloadStage::Failed ==> self@.failure is Some)
        &&& (stage_rank(self@.stage) < 3 ==> self@.legacy_index == 0)
        &&& (self@.stage == DownloadStage::ResolveMetadata ==> self@.metadata is None)
        &&& self@.legacy_urls.len() == shape_order().len()
        &&& forall|k: int|
            0 <= k < self@.legacy_urls.len() ==> #[trigger] self@.legacy_urls[k] == resolve_url(
                shape_order()[k],
                self@.endpoint,
                self@.repo_type_plural,
                self@.full_name,
                self@.path,
                self@.revision,
            )
    }

    /// A download of `path` at `revision` from the repository `repo` on `endpoint`, to the
    /// file `destination`, or into memory where `to_memory` (then `destination` names the
    /// scratch file that a CAS transfer writes). `has_token` tells whether the caller holds a
    /// bearer token.
    pub fn new(
        endpoint: &str,
        has_token: bool,
        repo: &RepoInfo,
        path: &str,
        revision: &str,
        destination: String,
        to_memory: bool,
    ) -> (r: DownloadFlow)
        ensures
            r.wf(),
            r@.stage == DownloadStage::ResolveMetadata,
            r@.to_memory == to_memory,
            r@.destination == destination@,
            r@.endpoint == endpoint@,
            r@.has_token == has_token,
            r@.repo_type_plural == repo.repo_type.plural(),
            r@.full_name == repo.full_name@,
            r@.path == path@,
            r@.revision == revision@,
            r@.legacy_urls.len() == shape_order().len(),
            forall|k: int|
                0 <= k < r@.legacy_urls.len() ==> #[trigger] r@.legacy_urls[k] == resolve_url(
                    shape_order()[k],
                    endpoint@,
                    repo.repo_type.plural(),
                    repo.full_name@,
                    path@,
                    revision@,
                ),
            r@.legacy_index == 0,
            r@.last_error is None,
            r@.metadata is None,
            r@.failure is None,
    {
        let plural = repo.repo_type.plural_str();
        let legacy_urls = build_resolve_urls(
            endpoint,
            plural,
            repo.full_name.as_str(),
            path,
            revision,
        );
        DownloadFlow {
            stage: DownloadStage::ResolveMetadata,
            to_memory,
            destination,
            endpoint: owned(endpoint),
            has_token,
            repo_type_plural: owned(plural),
            full_name: repo.full_name.clone(),
            path: owned(path),
            revision: owned(revision),
            legacy_urls,
            legacy_index: 0,
            last_error: None,
            metadata: None,
            failure: None,
        }
    }

    pub fn stage(&self) -> (r: DownloadStage)
        ensures
            r == self@.stage,
    {
        self.stage
    }

    /// The probe that resolves the file's metadata: over the same candidate URLs that the
    /// legacy stage fetches, built anew.
    pub fn metadata_probe(&self) -> (r: MetadataProbe)
        requires
            self.wf(),
        ensures
            r.wf(),
            r@.candidates == self@.legacy_urls,
            r@.endpoint == drop_trailing(self@.endpoint, CharClass::Slash),
            r@.index == 0,
            r@.method == ProbeMethod::Head,
            r@.last_error is None,
            r@.found is None,
    {
        let r = MetadataProbe::new(
            self.endpoint.as_str(),
            self.repo_type_plural.as_str(),
            self.full_name.as_str(),
            self.path.as_str(),
            self.revision.as_str(),
        );
        assert(r@.candidates =~= self@.legacy_urls);
        r
    }

    /// What to do next.
    pub fn next_action(&self) -> (r: DownloadAction)
        requires
            self.wf(),
        ensures
            self@.stage == DownloadStage::ResolveMetadata <==> r is ResolveMetadata,
            is_terminal(self@.stage) <==> r is Finished,
            r matches DownloadAction::TransferCas { refresh_route, plan } ==> ({
                let m = self@.metadata->0;
                let x = m.xet_file_data->0;
                &&& self@.stage == DownloadStage::TryCas
                &&& refresh_route@ == x.1
                &&& plan@.len() == 1
                &&& plan@[0].file_info.view() == (x.0, m.size)
                &&& plan@[0].destination@ == self@.destination
            }),
            r matches DownloadAction::FetchDirect { url, send_auth } ==> ({
                let m = self@.metadata->0;
                &&& self@.stage == DownloadStage::TryHttp
                &&& url@ == m.download_url
                &&& send_auth == auth_allowed(self@.has_token, m.download_url, self@.endpoint)
            }),
            r matches DownloadAction::FetchLegacy { url } ==> self@.stage == DownloadStage::Legacy
                && url@ == self@.legacy_urls[self@.legacy_index],
            self@.stage == DownloadStage::TryCas ==> r is TransferCas,
            self@.stage == DownloadStage::TryHttp ==> r is FetchDirect,
            self@.stage == DownloadStage::Legacy ==> r is FetchLegacy,
    {
        match self.stage {
            DownloadStage::ResolveMetadata => DownloadAction::ResolveMetadata,
            DownloadStage::TryCas => {
                let m = self.metadata.as_ref().unwrap();
                let x = m.xet_file_data.as_ref().unwrap();
                let info = XetFileInfo::new(x.file_hash.clone(), m.size);
                let mut plan: Vec<XetDownloadPlan> = Vec::new();
                plan.push(XetDownloadPlan::new(info, self.destination.clone()));
                DownloadAction::TransferCas { refresh_route: x.refresh_route.clone(), plan }
            },
            DownloadStage::TryHttp => {
                let m = self.metadata.as_ref().unwrap();
                let send_auth = should_send_auth(
                    self.has_token,
                    m.download_url.as_str(),
                    self.endpoint.as_str(),
                );
                DownloadAction::FetchDirect { url: m.download_url.clone(), send_auth }
            },
            DownloadStage::Legacy => DownloadAction::FetchLegacy {
                url: self.legacy_urls[self.legacy_index].clone(),
            },
            _ => DownloadAction::Finished,
        }
    }

    /// Takes in the resolved metadata, or the failure to resolve it. Metadata with CAS
    /// addressing leads to the CAS stage, whatever the destination; other metadata to the
    /// direct fetch, a failure straight to the legacy URLs.
    pub fn on_metadata(&mut self, resolved: Result<FileResolveMetadata, XetError>)
        requires
            old(self).wf(),
            old(self)@.stage == DownloadStage::ResolveMetadata,
        ensures
            final(self).wf(),
            final(self)@ == (FlowView {
                stage: next_stage(
                    old(self)@.stage,
                    match resolved {
                        Ok(m) => StageEvent::MetadataFound {
                            cas: m@.xet_file_data is Some,
                        },
                        Err(_) => StageEvent::MetadataFailed,
                    },
                ),
                metadata: match resolved {
                    Ok(m) => Some(m@),
                    Err(_) => None,
                },
                ..old(self)@
            }),
    {
        match resolved {
            Ok(m) => {
                let cas = m.xet_file_data.is_some();
                self.stage = transition(self.stage, StageEvent::MetadataFound { cas });
                self.metadata = Some(m);
            },
            Err(_) => {
                self.stage = transition(self.stage, StageEvent::MetadataFailed);
            },
        }
    }

    /// Takes in whether the CAS transfer succeeded.
    pub fn on_cas_outcome(&mut self, succeeded: bool)
        requires
            old(self).wf(),
            old(self)@.stage == DownloadStage::TryCas,
        ensures
            final(self).wf(),
            final(self)@ == (FlowView {
                stage: next_stage(
                    old(self)@.stage,
                    if succeeded {
                        StageEvent::Succeeded
                    } else {
                        StageEvent::Failed
                    },
                ),
                ..old(self)@
            }),
    {
        let e = if succeeded {
            StageEvent::Succeeded
        } else {
            StageEvent::Failed
        };
        self.stage = transition(self.stage, e);
    }

    /// Takes in whether the direct fetch (and, for a download to disk, the write) succeeded.
    pub fn on_direct_outcome(&mut self, succeeded: bool)
        requires
            old(self).wf(),
            old(self)@.stage == DownloadStage::TryHttp,
        ensures
            final(self).wf(),
            final(self)@ == (FlowView {
                stage: next_stage(
                    old(self)@.stage,
                    if succeeded {
                        StageEvent::Succeeded
                    } else {
                        StageEvent::Failed
                    },
                ),
                ..old(self)@
            }),
    {
        let e = if succeeded {
            StageEvent::Succeeded
        } else {
            StageEvent::Failed
        };
        self.stage = transition(self.stage, e);
    }

    /// Takes in what the fetch of the current legacy URL came to. A saved body ends the
    /// download; a failed write ends it with that error; any other failure moves on to the
    /// next URL, and after the last one the download fails with the last failure's text.
    pub fn on_legacy_outcome(&mut self, outcome: FetchOutcome)
        requires
            old(self).wf(),
            old(self)@.stage == DownloadStage::Legacy,
        ensures
            final(self).wf(),
            outcome is Saved ==> final(self)@ == (FlowView {
                stage: DownloadStage::Done,
                ..old(self)@
            }),
            outcome matches FetchOutcome::WriteFailed(e) ==> final(self)@ == (FlowView {
                stage: DownloadStage::Failed,
                failure: Some(e@),
                ..old(self)@
            }),
            !(outcome is Saved) && !(outcome is WriteFailed) ==> {
                let err = fetch_error_text(
                    old(self)@.to_memory,
                    old(self)@.legacy_urls[old(self)@.legacy_index],
                    outcome,
                );
                let index = old(self)@.legacy_index + 1;
                if index < old(self)@.legacy_urls.len() {
                    final(self)@ == (FlowView {
                        legacy_index: index,
                        last_error: Some(err),
                        ..old(self)@
                    })
                } else {
                    final(self)@ == (FlowView {
                        stage: DownloadStage::Failed,
                        legacy_index: index,
                        last_error: Some(err),
                        failure: Some(exhausted_error(old(self)@.to_memory, Some(err))),
                        ..old(self)@
                    })
                }
            },
    {
        let err = match outcome {
            FetchOutcome::Saved => {
                self.stage = transition(self.stage, StageEvent::Succeeded);
                return ;
            },
            FetchOutcome::WriteFailed(e) => {
                self.stage = DownloadStage::Failed;
                self.failure = Some(e);
                return ;
            },
            FetchOutcome::RequestFailed(d) => {
                if self.to_memory {
                    let mut t = joined("Request error for ", self.legacy_urls[self.legacy_index].as_str());
                    append_str(&mut t, ": ");
                    append_str(&mut t, d.as_str());
                    t
                } else {
                    joined("Request error: ", d.as_str())
                }
            },
            FetchOutcome::StatusFailed(d) => {
                if self.to_memory {
                    let mut t = joined("HTTP error for ", self.legacy_urls[self.legacy_index].as_str());
                    append_str(&mut t, ": ");
                    append_str(&mut t, d.as_str());
                    t
                } else {
                    joined("HTTP error: ", d.as_str())
                }
            },
            FetchOutcome::BodyFailed(d) => joined("Failed to read response body: ", d.as_str()),
        };
        let n = self.legacy_urls.len();
        assert(self.legacy_index < n);
        self.legacy_index = self.legacy_index + 1;
        if self.legacy_index >= n {
            let head = if self.to_memory {
                "Could not retrieve file. Tried multiple endpoints. Last error: "
            } else {
                "Could not download file. Tried multiple endpoints. Last error: "
            };
            let message = joined(head, err.as_str());
            self.stage = transition(self.stage, StageEvent::Exhausted);
            self.failure = Some(XetError::NetworkError { message });
        }
        self.last_error = Some(err);
    }

    /// The result of a finished download.
    pub fn outcome(&self) -> (r: Option<Result<(), XetError>>)
        requires
            self.wf(),
        ensures
            self@.stage == DownloadStage::Done <==> r matches Some(Ok(_)),
            self@.stage == DownloadStage::Failed <==> r matches Some(Err(_)),
            r matches Some(Err(e)) ==> self@.failure == Some(e@),
    {
        match self.stage {
            DownloadStage::Done => Some(Ok(())),
            DownloadStage::Failed => match &self.failure {
                Some(e) => Some(Err(e.clone_error())),
                None => None,
            },
            _ => None,
        }
    }
}

/// A file whose metadata carries no CAS addressing goes straight to the direct fetch, never
/// through the CAS stage (and so never asks for a CAS token); a successful fetch ends the
/// download.
pub proof fn law_plain_file_downloads_directly(m: MetadataView)
    requires
        m.xet_file_data is None,
    ensures
        next_stage(
            DownloadStage::ResolveMetadata,
            StageEvent::MetadataFound { cas: m.xet_file_data is Some },
        ) == DownloadStage::TryHttp,
        next_stage(DownloadStage::TryHttp, StageEvent::Succeeded) == DownloadStage::Done,
{
}

/// A file whose metadata carries CAS addressing is first tried through the CAS stage, for a
/// download to disk and into memory alike; a failed CAS transfer falls through to the direct
/// fetch.
pub proof fn law_cas_file_tries_cas_first(m: MetadataView)
    requires
        m.xet_file_data is Some,
    ensures
        next_stage(
            DownloadStage::ResolveMetadata,
            StageEvent::MetadataFound { cas: m.xet_file_data is Some },
        ) == DownloadStage::TryCas,
        next_stage(DownloadStage::TryCas, StageEvent::Failed) == DownloadStage::TryHttp,
{
}

} // verus!
