use swift_xet_rust::request::{check_download_request, check_repo, check_token, resolved_revision};
use swift_xet_rust::{ErrorKind, RepoInfo, RepoType};

fn parsed(s: &str) -> (RepoType, String) {
    let info = RepoInfo::parse(s).unwrap();
    (info.repo_type, info.full_name())
}

#[test]
fn owner_repo_is_a_model() {
    assert_eq!(parsed("owner/repo"), (RepoType::Model, "owner/repo".to_string()));
}

#[test]
fn typed_identifiers_name_their_kind() {
    assert_eq!(parsed("models/owner/repo"), (RepoType::Model, "owner/repo".to_string()));
    assert_eq!(parsed("datasets/owner/repo"), (RepoType::Dataset, "owner/repo".to_string()));
    assert_eq!(parsed("spaces/owner/repo"), (RepoType::Space, "owner/repo".to_string()));
    assert_eq!(parsed("model/owner/repo"), (RepoType::Model, "owner/repo".to_string()));
    assert_eq!(parsed("dataset/owner/repo"), (RepoType::Dataset, "owner/repo".to_string()));
    assert_eq!(parsed("space/owner/repo"), (RepoType::Space, "owner/repo".to_string()));
}

#[test]
fn type_segment_ignores_case() {
    assert_eq!(parsed("DataSets/owner/repo"), (RepoType::Dataset, "owner/repo".to_string()));
    assert_eq!(parsed("SPACES/owner/repo"), (RepoType::Space, "owner/repo".to_string()));
}

#[test]
fn unknown_first_segment_is_part_of_a_model_name() {
    assert_eq!(parsed("org/team/repo"), (RepoType::Model, "org/team/repo".to_string()));
    assert_eq!(parsed("datasets/repo"), (RepoType::Model, "datasets/repo".to_string()));
}

#[test]
fn identifier_without_slash_is_invalid() {
    for s in ["", "repo", "models"] {
        let e = RepoInfo::parse(s).unwrap_err();
        assert_eq!(e.kind(), ErrorKind::InvalidInput);
        assert_eq!(
            e.message(),
            format!(
                "Repository identifier must be in format 'owner/repo' or 'type/owner/repo', got: {}",
                s
            )
        );
    }
}

#[test]
fn repo_info_reports_kind_names() {
    let info = RepoInfo::parse("datasets/a/b").unwrap();
    assert_eq!(info.repo_type(), "dataset");
    assert_eq!(info.full_name(), "a/b");
    assert_eq!(RepoType::Space.plural_str(), "spaces");
}

#[test]
fn empty_arguments_are_rejected_in_order() {
    let e = check_download_request("", "", "").unwrap_err();
    assert_eq!(e.message(), "Repository cannot be empty");
    let e = check_download_request("a/b", "", "").unwrap_err();
    assert_eq!(e.message(), "Path cannot be empty");
    let e = check_download_request("a/b", "f", "").unwrap_err();
    assert_eq!(e.message(), "Destination cannot be empty");
    assert!(check_download_request("a/b", "f", "/tmp/f").is_ok());
    assert_eq!(check_repo("").unwrap_err().kind(), ErrorKind::InvalidInput);
    assert_eq!(check_token("").unwrap_err().message(), "Token cannot be empty");
    assert!(check_token("hf_x").is_ok());
}

#[test]
fn missing_revision_means_main() {
    assert_eq!(resolved_revision(None), "main");
    assert_eq!(resolved_revision(Some("v1".to_string())), "v1");
}

#[test]
fn every_error_kind_describes_itself() {
    let cases = [
        (ErrorKind::OperationFailed, "Xet operation failed: m"),
        (ErrorKind::InvalidInput, "Invalid input: m"),
        (ErrorKind::Io, "IO error: m"),
        (ErrorKind::Network, "Network error: m"),
        (ErrorKind::Auth, "Authentication error: m"),
        (ErrorKind::Cache, "Cache error: m"),
        (ErrorKind::Token, "Token error: m"),
    ];
    for (kind, text) in cases {
        let e = swift_xet_rust::XetError::with_kind(kind, "m".to_string());
        assert_eq!(e.kind(), kind);
        assert_eq!(e.message(), "m");
        assert_eq!(e.describe(), text);
        assert_eq!(e.clone_error().describe(), text);
    }
}
