//! Checking the arguments of a request, planning transfers, and running batches.
use vstd::prelude::*;

use crate::download::XetDownloadPlan;
use crate::error::{error_text, joined, owned, ErrorKind, XetError};
use crate::repo::{repo_parse, RepoInfo};
use crate::resolve::string_views;
use crate::text::{append_str, decimal, u64_text};
use crate::types::{FileDownloadRequest, XetFileInfo};

verus! {

/// The revision asked for, or `main` where none is.
pub open spec fn revision_or_main(revision: Option<Seq<char>>) -> Seq<char> {
    match revision {
        Some(r) => r,
        None => "main"@,
    }
}

pub fn resolved_revision(revision: Option<String>) -> (r: String)
    ensures
        r@ == revision_or_main(
            match revision {
                Some(s) => Some(s@),
                None => None,
            },
        ),
{
    match revision {
        Some(r) => r,
        None => owned("main"),
    }
}

/// What parsing `repo` gives, as a result over views.
pub open spec fn repo_outcome(repo: Seq<char>) -> Result<(crate::repo::RepoType, Seq<char>), (ErrorKind, Seq<char>)> {
    match repo_parse(repo) {
        Some(x) => Ok(x),
        None => Err(
            (
                ErrorKind::InvalidInput,
                "Repository identifier must be in format 'owner/repo' or 'type/owner/repo', got: "@
                    + repo,
            ),
        ),
    }
}

pub open spec fn repo_result_view(r: Result<RepoInfo, XetError>) -> Result<(crate::repo::RepoType, Seq<char>), (ErrorKind, Seq<char>)> {
    match r {
        Ok(i) => Ok((i.repo_type, i.full_name@)),
        Err(e) => Err(e@),
    }
}

fn parse_checked(repo: &str) -> (r: Result<RepoInfo, XetError>)
    ensures
        repo_result_view(r) == repo_outcome(repo@),
{
    proof {
        crate::text::lemma_index_of_bounds(repo@, '/');
    }
    RepoInfo::parse(repo)
}

/// The repository of a request that names only a repository: it must not be empty.
pub fn check_repo(repo: &str) -> (r: Result<RepoInfo, XetError>)
    ensures
        repo_result_view(r) == if repo@.len() == 0 {
            Err((ErrorKind::InvalidInput, "Repository cannot be empty"@))
        } else {
            repo_outcome(repo@)
        },
{
    if repo.is_empty() {
        return Err(XetError::InvalidInput { message: owned("Repository cannot be empty") });
    }
    parse_checked(repo)
}

/// The repository of a request for a file's content: neither it nor the path may be empty.
pub fn check_content_request(repo: &str, path: &str) -> (r: Result<RepoInfo, XetError>)
    ensures
        repo_result_view(r) == if repo@.len() == 0 {
            Err((ErrorKind::InvalidInput, "Repository cannot be empty"@))
        } else if path@.len() == 0 {
            Err((ErrorKind::InvalidInput, "Path cannot be empty"@))
        } else {
            repo_outcome(repo@)
        },
{
    if repo.is_empty() {
        return Err(XetError::InvalidInput { message: owned("Repository cannot be empty") });
    }
    if path.is_empty() {
        return Err(XetError::InvalidInput { message: owned("Path cannot be empty") });
    }
    parse_checked(repo)
}

/// The repository of a download request: repository, path and destination must not be empty.
pub fn check_download_request(repo: &str, path: &str, destination: &str) -> (r: Result<
    RepoInfo,
    XetError,
>)
    ensures
        repo_result_view(r) == if repo@.len() == 0 {
            Err((ErrorKind::InvalidInput, "Repository cannot be empty"@))
        } else if path@.len() == 0 {
            Err((ErrorKind::InvalidInput, "Path cannot be empty"@))
        } else if destination@.len() == 0 {
            Err((ErrorKind::InvalidInput, "Destination cannot be empty"@))
        } else {
            repo_outcome(repo@)
        },
{
    if repo.is_empty() {
        return Err(XetError::InvalidInput { message: owned("Repository cannot be empty") });
    }
    if path.is_empty() {
        return Err(XetError::InvalidInput { message: owned("Path cannot be empty") });
    }
    if destination.is_empty() {
        return Err(XetError::InvalidInput { message: owned("Destination cannot be empty") });
    }
    parse_checked(repo)
}

/// A bearer token must not be empty.
pub fn check_token(token: &str) -> (r: Result<(), XetError>)
    ensures
        r is Err <==> token@.len() == 0,
        r matches Err(e) ==> e@ == (ErrorKind::InvalidInput, "Token cannot be empty"@),
{
    if token.is_empty() {
        Err(XetError::InvalidInput { message: owned("Token cannot be empty") })
    } else {
        Ok(())
    }
}

// ---------------------------------------------------------------------------
// Plans for several files
/// `name` inside the directory `dir`, as `Path::join` puts it for a relative name: with a
/// `/` between them unless `dir` is empty or already ends with one.
pub open spec fn joined_path(dir: Seq<char>, name: Seq<char>) -> Seq<char> {
    if dir.len() == 0 || dir.last() == '/' {
        dir + name
    } else {
        dir + "/"@ + name
    }
}

/// Where the `i`th file of a plan into `dir` goes: `dir/file_{i}`.
pub open spec fn plan_destination(dir: Seq<char>, i: nat) -> Seq<char> {
    joined_path(dir, "file_"@ + decimal(i))
}

pub fn plan_destination_of(dir: &str, i: usize) -> (r: String)
    ensures
        r@ == plan_destination(dir@, i as nat),
{
    let mut r = owned(dir);
    let n = dir.unicode_len();
    if n > 0 && dir.get_char(n - 1) != '/' {
        append_str(&mut r, "/");
    }
    append_str(&mut r, "file_");
    let digits = u64_text(i as u64);
    append_str(&mut r, digits.as_str());
    r
}

/// The transfer plan for `file_infos` into `destination_dir`, file `i` to `file_{i}`; neither
/// may be empty.
pub fn plan_downloads(file_infos: &Vec<XetFileInfo>, destination_dir: &str) -> (r: Result<
    Vec<XetDownloadPlan>,
    XetError,
>)
    ensures
        file_infos@.len() == 0 ==> (r matches Err(e) && e@ == (
            ErrorKind::InvalidInput,
            "File infos cannot be empty"@,
        )),
        file_infos@.len() > 0 && destination_dir@.len() == 0 ==> (r matches Err(e) && e@ == (
            ErrorKind::InvalidInput,
            "Destination directory cannot be empty"@,
        )),
        file_infos@.len() > 0 && destination_dir@.len() > 0 ==> (r matches Ok(p) && p@.len()
            == file_infos@.len() && forall|i: int|
            0 <= i < p@.len() ==> (#[trigger] p@[i]).file_info.view() == file_infos@[i].view()
                && p@[i].destination@ == plan_destination(destination_dir@, i as nat)),
{
    if file_infos.len() == 0 {
        return Err(XetError::InvalidInput { message: owned("File infos cannot be empty") });
    }
    if destination_dir.is_empty() {
        return Err(
            XetError::InvalidInput { message: owned("Destination directory cannot be empty") },
        );
    }
    let mut plan: Vec<XetDownloadPlan> = Vec::new();
    let mut i: usize = 0;
    while i < file_infos.len()
        invariant
            i <= file_infos@.len(),
            plan@.len() == i,
            forall|j: int|
                0 <= j < i ==> (#[trigger] plan@[j]).file_info.view() == file_infos@[j].view()
                    && plan@[j].destination@ == plan_destination(destination_dir@, j as nat),
        decreases file_infos.len() - i,
    {
        let dest = plan_destination_of(destination_dir, i);
        plan.push(XetDownloadPlan::new(file_infos[i].duplicate(), dest));
        i = i + 1;
    }
    Ok(plan)
}

// ---------------------------------------------------------------------------
// Batches
pub struct BatchView {
    pub requests: Seq<(Seq<char>, Seq<char>, Seq<char>, Option<Seq<char>>)>,
    pub next: int,
    pub completed: Seq<Seq<char>>,
    pub failure: Option<(ErrorKind, Seq<char>)>,
}

/// Downloads several files one after the other, stopping at the first failure. The
/// destinations of the files that completed before it are kept; the failure names the
/// path that failed and why; later requests are never attempted.
pub struct BatchDownload {
    requests: Vec<FileDownloadRequest>,
    next: usize,
    completed: Vec<String>,
    failure: Option<XetError>,
}

impl View for BatchDownload {
    type V = BatchView;

    closed spec fn view(&self) -> BatchView {
        BatchView {
            requests: self.requests@.map_values(|q: FileDownloadRequest| q.view()),
            next: self.next as int,
            completed: string_views(self.completed@),
            failure: match self.failure {
                Some(e) => Some(e@),
                None => None,
            },
        }
    }
}

pub open spec fn batch_done(b: BatchView) -> bool {
    b.failure is Some || b.next >= b.requests.len()
}

impl BatchDownload {
    pub open spec fn wf(&self) -> bool {
        0 <= self@.next <= self@.requests.len() && self@.completed.len() == self@.next
    }

    pub fn new(requests: Vec<FileDownloadRequest>) -> (r: BatchDownload)
        ensures
            r.wf(),
            r@.requests == requests@.map_values(|q: FileDownloadRequest| q.view()),
            r@.next == 0,
            r@.completed.len() == 0,
            r@.failure is None,
    {
        BatchDownload { requests, next: 0, completed: Vec::new(), failure: None }
    }

    pub fn is_done(&self) -> (r: bool)
        requires
            self.wf(),
        ensures
            r == batch_done(self@),
    {
        self.failure.is_some() || self.next >= self.requests.len()
    }

    /// The request to attempt next, or `None` once the batch is over.
    pub fn current(&self) -> (r: Option<&FileDownloadRequest>)
        requires
            self.wf(),
        ensures
            r is None <==> batch_done(self@),
            r matches Some(q) ==> q.view() == self@.requests[self@.next],
    {
        if self.is_done() {
            None
        } else {
            Some(&self.requests[self.next])
        }
    }

    /// Takes in how the current request went.
    pub fn on_result(&mut self, result: Result<(), XetError>)
        requires
            old(self).wf(),
            !batch_done(old(self)@),
        ensures
            final(self).wf(),
            final(self)@.requests == old(self)@.requests,
            result is Ok ==> final(self)@ == (BatchView {
                next: old(self)@.next + 1,
                completed: old(self)@.completed.push(old(self)@.requests[old(self)@.next].2),
                ..old(self)@
            }),
            result matches Err(e) ==> final(self)@ == (BatchView {
                failure: Some(
                    (
                        ErrorKind::OperationFailed,
                        "Failed to download "@ + old(self)@.requests[old(self)@.next].1 + ": "@
                            + error_text(e@),
                    ),
                ),
                ..old(self)@
            }),
    {
        let n = self.requests.len();
        assert(self.next < n);
        match result {
            Ok(()) => {
                let d = self.requests[self.next].destination();
                let ghost before = self.completed@;
                let ghost dv = d@;
                self.completed.push(d);
                assert(string_views(self.completed@) =~= string_views(before).push(dv));
                self.next = self.next + 1;
            },
            Err(e) => {
                let mut m = joined("Failed to download ", self.requests[self.next].path().as_str());
                append_str(&mut m, ": ");
                append_str(&mut m, e.describe().as_str());
                self.failure = Some(XetError::OperationFailed { message: m });
            },
        }
    }

    /// The destinations of the files completed so far, in order.
    pub fn completed(&self) -> (r: Vec<String>)
        ensures
            string_views(r@) == self@.completed,
    {
        let mut r: Vec<String> = Vec::new();
        let mut i: usize = 0;
        while i < self.completed.len()
            invariant
                i <= self.completed@.len(),
                string_views(r@) =~= string_views(self.completed@.take(i as int)),
            decreases self.completed.len() - i,
        {
            let c = self.completed[i].clone();
            let ghost before = r@;
            r.push(c);
            assert(r@ == before.push(c));
            assert(string_views(r@) =~= string_views(before).push(c@));
            assert(self.completed@.take(i + 1) == self.completed@.take(i as int).push(
                self.completed@[i as int],
            ));
            i = i + 1;
            assert(string_views(r@) =~= string_views(self.completed@.take(i as int)));
        }
        assert(self.completed@.take(self.completed@.len() as int) == self.completed@);
        r
    }

    /// The failure that ended the batch, if one did.
    pub fn failure(&self) -> (r: Option<XetError>)
        ensures
            match r {
                Some(e) => self@.failure == Some(e@),
                None => self@.failure is None,
            },
    {
        match &self.failure {
            Some(e) => Some(e.clone_error()),
            None => None,
        }
    }
}

} // verus!
