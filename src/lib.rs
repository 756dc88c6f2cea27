//! Resolving and downloading files of hub repositories: metadata resolution over several
//! URL shapes, a cache of CAS access tokens, and the order in which download strategies are
//! tried. The network, the file system and the transfer engine stay with the caller, who
//! performs what the state machines here ask for and reports back.
use vstd::prelude::*;

pub mod config;
pub mod download;
pub mod error;
pub mod headers;
pub mod metadata;
pub mod pointer;
pub mod repo;
pub mod request;
pub mod resolve;
pub mod text;
pub mod token;
pub mod types;

pub use config::{EnvSnapshot, EnvUpdate, XetDownloadConfig};
pub use download::{
    should_send_auth, transition, DownloadAction, DownloadFlow, DownloadStage, FetchOutcome,
    StageEvent, XetDownloadPlan,
};
pub use error::{ErrorKind, XetError};
pub use metadata::{
    canonical_repo_prefix, extract_refresh_route, parse_file_size, parse_metadata_from_response,
    parse_total_from_content_range, parse_xet_file_data, rewrite_refresh_route,
    FileResolveMetadata, XetFileData, DEFAULT_ENDPOINT,
};
pub use pointer::{pointer_file_info, should_try_pointer_detection, FileInfoStep};
pub use repo::{RepoInfo, RepoType};
pub use request::BatchDownload;
pub use resolve::{build_resolve_urls, MetadataProbe, ProbeMethod, ProbeRequest};
pub use token::{compute_cache_expiry, CachedToken, CasJwtInfo, TokenCache, TokenStep};
pub use types::{CacheStats, FileDownloadRequest, FileMetadata, ProgressUpdate, XetFileInfo};

verus! {

} // verus!
