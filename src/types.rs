//! Plain records that the library hands to and takes from its callers.
use vstd::prelude::*;

verus! {

/// The content hash and size of a file stored in content-addressable storage.
#[derive(Debug)]
pub struct XetFileInfo {
    hash: String,
    file_size: u64,
}

impl XetFileInfo {
    pub closed spec fn view(&self) -> (Seq<char>, u64) {
        (self.hash@, self.file_size)
    }

    /// The file with content hash `hash` and `file_size` bytes.
    pub fn new(hash: String, file_size: u64) -> (r: XetFileInfo)
        ensures
            r.view() == (hash@, file_size),
    {
        XetFileInfo { hash, file_size }
    }

    /// The content hash that addresses the file in storage.
    pub fn hash(&self) -> (r: String)
        ensures
            r@ == self.view().0,
    {
        self.hash.clone()
    }

    /// The size of the file in bytes.
    pub fn file_size(&self) -> (r: u64)
        ensures
            r == self.view().1,
    {
        self.file_size
    }

    pub fn duplicate(&self) -> (r: XetFileInfo)
        ensures
            r.view() == self.view(),
    {
        XetFileInfo { hash: self.hash.clone(), file_size: self.file_size }
    }
}

/// An entry of a repository's file tree.
#[derive(Debug)]
pub struct FileMetadata {
    path: String,
    entry_type: String,
    size: Option<u64>,
    hash: Option<String>,
    oid: Option<String>,
}

pub open spec fn opt_view(o: Option<String>) -> Option<Seq<char>> {
    match o {
        Some(s) => Some(s@),
        None => None,
    }
}

pub fn opt_clone(o: &Option<String>) -> (r: Option<String>)
    ensures
        opt_view(r) == opt_view(*o),
{
    match o {
        Some(s) => Some(s.clone()),
        None => None,
    }
}

impl FileMetadata {
    pub closed spec fn view(&self) -> (Seq<char>, Seq<char>, Option<u64>, Option<Seq<char>>, Option<Seq<char>>) {
        (self.path@, self.entry_type@, self.size, opt_view(self.hash), opt_view(self.oid))
    }

    /// An entry at `path` of type `entry_type` (`"file"` or `"directory"`), with the size,
    /// content hash and git object id where the listing gives them.
    pub fn new(
        path: String,
        entry_type: String,
        size: Option<u64>,
        hash: Option<String>,
        oid: Option<String>,
    ) -> (r: FileMetadata)
        ensures
            r.view() == (path@, entry_type@, size, opt_view(hash), opt_view(oid)),
    {
        FileMetadata { path, entry_type, size, hash, oid }
    }

    /// The entry's path from the repository root.
    pub fn path(&self) -> (r: String)
        ensures
            r@ == self.view().0,
    {
        self.path.clone()
    }

    /// The entry's type: `"file"` or `"directory"`.
    pub fn entry_type(&self) -> (r: String)
        ensures
            r@ == self.view().1,
    {
        self.entry_type.clone()
    }

    /// The size in bytes, where known.
    pub fn size(&self) -> (r: Option<u64>)
        ensures
            r == self.view().2,
    {
        self.size
    }

    /// The content hash, where the entry has one.
    pub fn hash(&self) -> (r: Option<String>)
        ensures
            opt_view(r) == self.view().3,
    {
        opt_clone(&self.hash)
    }

    /// The git object id, where known.
    pub fn oid(&self) -> (r: Option<String>)
        ensures
            opt_view(r) == self.view().4,
    {
        opt_clone(&self.oid)
    }
}

/// The paths of the entries that are files, in order.
pub open spec fn file_paths_of(entries: Seq<FileMetadata>) -> Seq<Seq<char>>
    decreases entries.len(),
{
    if entries.len() == 0 {
        Seq::empty()
    } else {
        let rest = file_paths_of(entries.drop_last());
        if entries.last().view().1 == "file"@ {
            rest.push(entries.last().view().0)
        } else {
            rest
        }
    }
}

/// The paths of the entries of a listing whose type is `"file"`, in order.
pub fn file_paths(entries: &Vec<FileMetadata>) -> (r: Vec<String>)
    ensures
        r@.map_values(|s: String| s@) == file_paths_of(entries@),
{
    let mut r: Vec<String> = Vec::new();
    let mut i: usize = 0;
    while i < entries.len()
        invariant
            i <= entries@.len(),
            r@.map_values(|s: String| s@) == file_paths_of(entries@.take(i as int)),
        decreases entries.len() - i,
    {
        assert(entries@.take(i + 1).drop_last() == entries@.take(i as int));
        let t = entries[i].entry_type();
        if crate::text::same_text(t.as_str(), "file") {
            r.push(entries[i].path());
        }
        i = i + 1;
        assert(r@.map_values(|s: String| s@) == file_paths_of(entries@.take(i as int)));
    }
    assert(entries@.take(entries@.len() as int) == entries@);
    r
}

/// Progress of a transfer: bytes in all, bytes done, and the same for the bytes that travel
/// over the network.
#[derive(Debug)]
pub struct ProgressUpdate {
    total_bytes: u64,
    total_bytes_completed: u64,
    total_transfer_bytes: u64,
    total_transfer_bytes_completed: u64,
}

impl ProgressUpdate {
    pub closed spec fn view(&self) -> (u64, u64, u64, u64) {
        (
            self.total_bytes,
            self.total_bytes_completed,
            self.total_transfer_bytes,
            self.total_transfer_bytes_completed,
        )
    }

    pub fn new(
        total_bytes: u64,
        total_bytes_completed: u64,
        total_transfer_bytes: u64,
        total_transfer_bytes_completed: u64,
    ) -> (r: ProgressUpdate)
        ensures
            r.view() == (
                total_bytes,
                total_bytes_completed,
                total_transfer_bytes,
                total_transfer_bytes_completed,
            ),
    {
        ProgressUpdate {
            total_bytes,
            total_bytes_completed,
            total_transfer_bytes,
            total_transfer_bytes_completed,
        }
    }

    /// The size of all files being transferred.
    pub fn total_bytes(&self) -> (r: u64)
        ensures
            r == self.view().0,
    {
        self.total_bytes
    }

    /// The bytes processed so far.
    pub fn total_bytes_completed(&self) -> (r: u64)
        ensures
            r == self.view().1,
    {
        self.total_bytes_completed
    }

    /// The bytes to move over the network, fewer than `total_bytes` after deduplication.
    pub fn total_transfer_bytes(&self) -> (r: u64)
        ensures
            r == self.view().2,
    {
        self.total_transfer_bytes
    }

    /// The bytes moved over the network so far.
    pub fn total_transfer_bytes_completed(&self) -> (r: u64)
        ensures
            r == self.view().3,
    {
        self.total_transfer_bytes_completed
    }
}

/// A request to download one file of a repository to a local path.
#[derive(Debug)]
pub struct FileDownloadRequest {
    repo: String,
    path: String,
    destination: String,
    revision: Option<String>,
}

impl FileDownloadRequest {
    pub closed spec fn view(&self) -> (Seq<char>, Seq<char>, Seq<char>, Option<Seq<char>>) {
        (self.repo@, self.path@, self.destination@, opt_view(self.revision))
    }

    /// Download `path` of `repo` at `revision` (the default branch where `None`) to
    /// `destination`.
    pub fn new(repo: String, path: String, destination: String, revision: Option<String>) -> (r:
        FileDownloadRequest)
        ensures
            r.view() == (repo@, path@, destination@, opt_view(revision)),
    {
        FileDownloadRequest { repo, path, destination, revision }
    }

    /// The repository identifier (`owner/repo` or `type/owner/repo`).
    pub fn repo(&self) -> (r: String)
        ensures
            r@ == self.view().0,
    {
        self.repo.clone()
    }

    /// The file's path from the repository root.
    pub fn path(&self) -> (r: String)
        ensures
            r@ == self.view().1,
    {
        self.path.clone()
    }

    /// Where the file is to be written.
    pub fn destination(&self) -> (r: String)
        ensures
            r@ == self.view().2,
    {
        self.destination.clone()
    }

    /// The revision, branch or tag; `None` means the default branch.
    pub fn revision(&self) -> (r: Option<String>)
        ensures
            opt_view(r) == self.view().3,
    {
        opt_clone(&self.revision)
    }
}

/// The size and number of files of the local cache.
#[derive(Debug)]
pub struct CacheStats {
    total_size_bytes: u64,
    file_count: u64,
}

impl CacheStats {
    pub closed spec fn view(&self) -> (u64, u64) {
        (self.total_size_bytes, self.file_count)
    }

    /// An empty cache.
    pub fn empty() -> (r: CacheStats)
        ensures
            r.view() == (0u64, 0u64),
    {
        CacheStats { total_size_bytes: 0, file_count: 0 }
    }

    /// The statistics with one more file of `size` bytes; the counts stop at `u64::MAX`.
    pub fn with_file(&self, size: u64) -> (r: CacheStats)
        ensures
            r.view().0 == if self.view().0 + size > u64::MAX {
                u64::MAX as int
            } else {
                self.view().0 + size
            },
            r.view().1 == if self.view().1 == u64::MAX {
                u64::MAX as int
            } else {
                self.view().1 + 1
            },
    {
        CacheStats {
            total_size_bytes: self.total_size_bytes.saturating_add(size),
            file_count: self.file_count.saturating_add(1),
        }
    }

    /// The total size of the cached files in bytes.
    pub fn total_size_bytes(&self) -> (r: u64)
        ensures
            r == self.view().0,
    {
        self.total_size_bytes
    }

    /// The number of cached files.
    pub fn file_count(&self) -> (r: u64)
        ensures
            r == self.view().1,
    {
        self.file_count
    }
}

} // verus!
