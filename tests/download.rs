use reqwest::header::{HeaderMap, HeaderValue};
use swift_xet_rust::request::plan_downloads;
use swift_xet_rust::{
    build_resolve_urls, should_send_auth, transition, BatchDownload, DownloadAction,
    DownloadFlow, DownloadStage, ErrorKind, FetchOutcome, FileDownloadRequest,
    FileResolveMetadata, MetadataProbe, ProbeMethod, RepoInfo, StageEvent, XetError, XetFileData,
    XetFileInfo,
};

fn plain_metadata() -> FileResolveMetadata {
    FileResolveMetadata {
        download_url: "https://huggingface.co/owner/repo/resolve/main/a.txt".to_string(),
        etag: "e".to_string(),
        commit_hash: "c".to_string(),
        size: 12,
        xet_file_data: None,
    }
}

fn cas_metadata() -> FileResolveMetadata {
    FileResolveMetadata {
        xet_file_data: Some(XetFileData {
            file_hash: "hash1".to_string(),
            refresh_route: "https://huggingface.co/api/models/owner/repo/xet-read-token/main"
                .to_string(),
        }),
        ..plain_metadata()
    }
}

fn flow(destination: Option<&str>) -> DownloadFlow {
    let repo = RepoInfo::parse("owner/repo").unwrap();
    DownloadFlow::new(
        "https://huggingface.co",
        true,
        &repo,
        "dir/a b.txt",
        "main",
        destination.unwrap_or("/tmp/scratch").to_string(),
        destination.is_none(),
    )
}

#[test]
fn transition_table() {
    assert_eq!(transition(DownloadStage::ResolveMetadata, StageEvent::MetadataFound { cas: true }), DownloadStage::TryCas);
    assert_eq!(transition(DownloadStage::ResolveMetadata, StageEvent::MetadataFound { cas: false }), DownloadStage::TryHttp);
    assert_eq!(transition(DownloadStage::ResolveMetadata, StageEvent::MetadataFailed), DownloadStage::Legacy);
    assert_eq!(transition(DownloadStage::TryCas, StageEvent::Succeeded), DownloadStage::Done);
    assert_eq!(transition(DownloadStage::TryCas, StageEvent::Failed), DownloadStage::TryHttp);
    assert_eq!(transition(DownloadStage::TryHttp, StageEvent::Succeeded), DownloadStage::Done);
    assert_eq!(transition(DownloadStage::TryHttp, StageEvent::Failed), DownloadStage::Legacy);
    assert_eq!(transition(DownloadStage::Legacy, StageEvent::Failed), DownloadStage::Legacy);
    assert_eq!(transition(DownloadStage::Legacy, StageEvent::Exhausted), DownloadStage::Failed);
    assert_eq!(transition(DownloadStage::Done, StageEvent::Failed), DownloadStage::Done);
}

#[test]
fn plain_file_downloads_over_http_without_cas() {
    let mut f = flow(Some("/tmp/out/a.txt"));
    assert!(matches!(f.next_action(), DownloadAction::ResolveMetadata));
    f.on_metadata(Ok(plain_metadata()));
    assert_eq!(f.stage(), DownloadStage::TryHttp);
    match f.next_action() {
        DownloadAction::FetchDirect { url, send_auth } => {
            assert_eq!(url, "https://huggingface.co/owner/repo/resolve/main/a.txt");
            assert!(send_auth);
        }
        _ => panic!("expected a direct fetch"),
    }
    f.on_direct_outcome(true);
    assert_eq!(f.stage(), DownloadStage::Done);
    assert!(matches!(f.outcome(), Some(Ok(()))));
}

#[test]
fn cas_file_goes_through_the_transfer_engine() {
    let mut f = flow(Some("/tmp/out/a.txt"));
    f.on_metadata(Ok(cas_metadata()));
    match f.next_action() {
        DownloadAction::TransferCas { refresh_route, plan } => {
            assert_eq!(
                refresh_route,
                "https://huggingface.co/api/models/owner/repo/xet-read-token/main"
            );
            assert_eq!(plan.len(), 1);
            assert_eq!(plan[0].file_info.hash(), "hash1");
            assert_eq!(plan[0].file_info.file_size(), 12);
            assert_eq!(plan[0].destination, "/tmp/out/a.txt");
        }
        _ => panic!("expected a CAS transfer"),
    }
    f.on_cas_outcome(false);
    assert_eq!(f.stage(), DownloadStage::TryHttp);
    f.on_direct_outcome(false);
    assert_eq!(f.stage(), DownloadStage::Legacy);
}

#[test]
fn memory_download_tries_cas_through_scratch_file() {
    let mut f = flow(None);
    f.on_metadata(Ok(cas_metadata()));
    assert_eq!(f.stage(), DownloadStage::TryCas);
    match f.next_action() {
        DownloadAction::TransferCas { plan, .. } => {
            assert_eq!(plan[0].destination, "/tmp/scratch");
        }
        _ => panic!("expected a CAS transfer"),
    }
    f.on_cas_outcome(true);
    assert!(matches!(f.outcome(), Some(Ok(()))));
}

#[test]
fn failed_metadata_goes_to_legacy_urls_in_order() {
    let mut f = flow(Some("/tmp/x"));
    f.on_metadata(Err(XetError::NetworkError { message: "down".to_string() }));
    let expected = [
        "https://huggingface.co/owner/repo/resolve/main/dir%2Fa%20b.txt",
        "https://huggingface.co/api/models/owner/repo/resolve/main/dir%2Fa%20b.txt",
        "https://huggingface.co/api/models/owner/repo/resolve/dir%2Fa%20b.txt?revision=main",
    ];
    for (i, url) in expected.iter().enumerate() {
        match f.next_action() {
            DownloadAction::FetchLegacy { url: u } => assert_eq!(&u, url),
            _ => panic!("expected a legacy fetch"),
        }
        if i < 2 {
            f.on_legacy_outcome(FetchOutcome::StatusFailed("404".to_string()));
        }
    }
    f.on_legacy_outcome(FetchOutcome::RequestFailed("timeout".to_string()));
    assert_eq!(f.stage(), DownloadStage::Failed);
    let e = f.outcome().unwrap().unwrap_err();
    assert_eq!(e.kind(), ErrorKind::Network);
    assert_eq!(
        e.message(),
        "Could not download file. Tried multiple endpoints. Last error: Request error: timeout"
    );
}

#[test]
fn legacy_memory_failures_name_the_url() {
    let mut f = flow(None);
    f.on_metadata(Err(XetError::NetworkError { message: "down".to_string() }));
    f.on_legacy_outcome(FetchOutcome::BodyFailed("eof".to_string()));
    f.on_legacy_outcome(FetchOutcome::BodyFailed("eof".to_string()));
    f.on_legacy_outcome(FetchOutcome::StatusFailed("500".to_string()));
    let e = f.outcome().unwrap().unwrap_err();
    assert_eq!(
        e.message(),
        "Could not retrieve file. Tried multiple endpoints. Last error: HTTP error for \
         https://huggingface.co/api/models/owner/repo/resolve/dir%2Fa%20b.txt?revision=main: 500"
    );
}

#[test]
fn legacy_write_failure_ends_the_download() {
    let mut f = flow(Some("/tmp/x"));
    f.on_metadata(Err(XetError::NetworkError { message: "down".to_string() }));
    f.on_legacy_outcome(FetchOutcome::WriteFailed(XetError::IoError {
        message: "Failed to write file: denied".to_string(),
    }));
    let e = f.outcome().unwrap().unwrap_err();
    assert_eq!(e.kind(), ErrorKind::Io);
}

#[test]
fn legacy_success_ends_the_download() {
    let mut f = flow(Some("/tmp/x"));
    f.on_metadata(Err(XetError::NetworkError { message: "down".to_string() }));
    f.on_legacy_outcome(FetchOutcome::StatusFailed("404".to_string()));
    f.on_legacy_outcome(FetchOutcome::Saved);
    assert!(matches!(f.outcome(), Some(Ok(()))));
}

#[test]
fn credentials_stay_on_the_endpoint_domain() {
    assert!(should_send_auth(true, "https://huggingface.co/a/b", "https://huggingface.co"));
    assert!(!should_send_auth(true, "https://cdn-lfs.hf.co/a/b", "https://huggingface.co"));
    assert!(!should_send_auth(false, "https://huggingface.co/a/b", "https://huggingface.co"));
    assert!(!should_send_auth(true, "not a url", "https://huggingface.co"));
    assert!(!should_send_auth(true, "https://huggingface.co/a", "not a url"));
    assert!(!should_send_auth(true, "http://10.0.0.1/a", "http://10.0.0.2"));
    assert!(should_send_auth(true, "http://10.0.0.1/a", "http://10.0.0.1"));
    assert!(!should_send_auth(true, "https://huggingface.co.evil.example/a", "https://huggingface.co"));
}

fn request(path: &str, dest: &str) -> FileDownloadRequest {
    FileDownloadRequest::new("owner/repo".to_string(), path.to_string(), dest.to_string(), None)
}

#[test]
fn batch_stops_at_first_failure() {
    let mut batch = BatchDownload::new(vec![
        request("one.bin", "/tmp/one"),
        request("two.bin", "/tmp/two"),
        request("three.bin", "/tmp/three"),
    ]);
    let mut attempted = Vec::new();
    let mut step = 0;
    while let Some(r) = batch.current() {
        attempted.push(r.path());
        let outcome = if step == 1 {
            Err(XetError::NetworkError { message: "boom".to_string() })
        } else {
            Ok(())
        };
        batch.on_result(outcome);
        step += 1;
    }
    assert_eq!(attempted, vec!["one.bin".to_string(), "two.bin".to_string()]);
    assert_eq!(batch.completed(), vec!["/tmp/one".to_string()]);
    let e = batch.failure().unwrap();
    assert_eq!(e.kind(), ErrorKind::OperationFailed);
    assert_eq!(e.message(), "Failed to download two.bin: Network error: boom");
}

#[test]
fn batch_of_successes_completes_everything() {
    let mut batch = BatchDownload::new(vec![request("a", "/d/a"), request("b", "/d/b")]);
    while batch.current().is_some() {
        batch.on_result(Ok(()));
    }
    assert_eq!(batch.completed(), vec!["/d/a".to_string(), "/d/b".to_string()]);
    assert!(batch.failure().is_none());
}

#[test]
fn plan_puts_files_under_numbered_names() {
    let infos = vec![XetFileInfo::new("h0".to_string(), 1), XetFileInfo::new("h1".to_string(), 2)];
    let plan = plan_downloads(&infos, "/tmp/dir").unwrap();
    assert_eq!(plan[0].destination, "/tmp/dir/file_0");
    assert_eq!(plan[1].destination, "/tmp/dir/file_1");
    assert_eq!(plan[1].file_info.hash(), "h1");
    let plan = plan_downloads(&infos, "/tmp/dir/").unwrap();
    assert_eq!(plan[0].destination, "/tmp/dir/file_0");
    assert_eq!(
        plan_downloads(&vec![], "/tmp").unwrap_err().message(),
        "File infos cannot be empty"
    );
    assert_eq!(
        plan_downloads(&infos, "").unwrap_err().message(),
        "Destination directory cannot be empty"
    );
}

#[test]
fn resolve_urls_for_datasets() {
    let urls = build_resolve_urls("https://hub.example/", "datasets", "o/r", "f.json", "v1.0");
    assert_eq!(
        urls,
        vec![
            "https://hub.example/datasets/o/r/resolve/v1.0/f.json".to_string(),
            "https://hub.example/api/datasets/o/r/resolve/v1.0/f.json".to_string(),
            "https://hub.example/api/datasets/o/r/resolve/f.json?revision=v1.0".to_string(),
        ]
    );
}

fn ok_headers() -> HeaderMap {
    let mut h = HeaderMap::new();
    h.insert("x-repo-commit", HeaderValue::from_static("c1"));
    h.insert("etag", HeaderValue::from_static("\"e1\""));
    h.insert("content-length", HeaderValue::from_static("9"));
    h
}

#[test]
fn probe_moves_on_after_client_error_and_stops_at_first_success() {
    let mut p = MetadataProbe::new("https://hub.example", "models", "o/r", "f", "main");
    let q = p.next_request().unwrap();
    assert_eq!(q.url, "https://hub.example/o/r/resolve/main/f");
    assert_eq!(q.method, ProbeMethod::Head);
    p.on_response(401, "401 Unauthorized", &HeaderMap::new(), "ignored");
    let q = p.next_request().unwrap();
    assert_eq!(q.url, "https://hub.example/api/models/o/r/resolve/main/f");
    p.on_response(302, "302 Found", &ok_headers(), "https://cdn.example/f");
    assert!(p.next_request().is_none());
    let m = p.into_result().unwrap();
    assert_eq!(m.download_url, "https://cdn.example/f");
    assert_eq!(m.size, 9);
}

#[test]
fn probe_falls_back_to_ranged_get_without_answer() {
    let mut p = MetadataProbe::new("https://hub.example", "models", "o/r", "f", "main");
    p.on_transport_error("connection reset");
    let q = p.next_request().unwrap();
    assert_eq!(q.method, ProbeMethod::RangedGet);
    assert_eq!(q.url, "https://hub.example/o/r/resolve/main/f");
    p.on_transport_error("connection reset");
    p.on_response(500, "500 Internal Server Error", &HeaderMap::new(), "u");
    p.on_response(200, "200 OK", &HeaderMap::new(), "u");
    assert!(p.next_request().is_none());
    let e = p.into_result().unwrap_err();
    assert_eq!(e.kind(), ErrorKind::Network);
    assert_eq!(
        e.message(),
        "Failed to retrieve HEAD metadata: Network error: Missing X-Repo-Commit header"
    );
}

#[test]
fn probe_reports_last_status_failure() {
    let mut p = MetadataProbe::new("https://hub.example", "models", "o/r", "f", "main");
    p.on_response(404, "404 Not Found", &HeaderMap::new(), "u");
    p.on_response(404, "404 Not Found", &HeaderMap::new(), "u");
    p.on_transport_error("reset");
    p.on_response(503, "503 Service Unavailable", &HeaderMap::new(), "u");
    let e = p.into_result().unwrap_err();
    assert_eq!(
        e.message(),
        "Failed to retrieve HEAD metadata: GET request received unexpected status: 503 Service Unavailable"
    );
}

#[test]
fn http_failures_map_to_error_kinds() {
    let e = XetError::from_http_failure(Some(403), "403 Forbidden", "denied");
    assert_eq!(e.kind(), ErrorKind::Auth);
    assert_eq!(e.message(), "Authentication failed: denied");
    let e = XetError::from_http_failure(Some(404), "404 Not Found", "missing");
    assert_eq!(e.kind(), ErrorKind::Network);
    assert_eq!(e.message(), "Client error: missing");
    let e = XetError::from_http_failure(Some(500), "500 Internal Server Error", "oops");
    assert_eq!(e.message(), "HTTP error 500 Internal Server Error: oops");
    let e = XetError::from_http_failure(None, "", "dns");
    assert_eq!(e.kind(), ErrorKind::Network);
    assert_eq!(e.message(), "Network error: dns");
}
