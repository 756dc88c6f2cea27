use swift_xet_rust::pointer::{file_info_step, is_pointer_candidate_extension, parse_pointer_lines};
use swift_xet_rust::{
    pointer_file_info, should_try_pointer_detection, FileInfoStep, FileResolveMetadata, XetError,
    XetFileData,
};

#[test]
fn lfs_pointer_round_trips() {
    let info = pointer_file_info(b"oid abcd1234\nsize 42".to_vec()).unwrap();
    assert_eq!(info.hash(), "abcd1234");
    assert_eq!(info.file_size(), 42);
}

#[test]
fn lfs_pointer_with_version_line_and_crlf() {
    let text = "version https://git-lfs.github.com/spec/v1\r\noid sha256:ff00 \r\nsize 7\r\n";
    let info = pointer_file_info(text.as_bytes().to_vec()).unwrap();
    assert_eq!(info.hash(), "sha256:ff00");
    assert_eq!(info.file_size(), 7);
}

#[test]
fn json_pointer_is_read_first() {
    let info = pointer_file_info(br#"{"hash": "abc", "file_size": 5}"#.to_vec()).unwrap();
    assert_eq!(info.hash(), "abc");
    assert_eq!(info.file_size(), 5);
}

#[test]
fn incomplete_pointers_give_nothing() {
    assert!(pointer_file_info(b"oid abc".to_vec()).is_none());
    assert!(pointer_file_info(b"size 5".to_vec()).is_none());
    assert!(pointer_file_info(b"oid abc\nsize many".to_vec()).is_none());
    assert!(pointer_file_info(vec![0xff, 0xfe, 0x00]).is_none());
    assert!(parse_pointer_lines("hello world").is_none());
}

#[test]
fn later_lines_win() {
    let info = parse_pointer_lines("oid one\nsize 1\noid two\nsize 2").unwrap();
    assert_eq!(info.hash(), "two");
    assert_eq!(info.file_size(), 2);
}

#[test]
fn binary_extensions_are_not_pointer_candidates() {
    assert!(!should_try_pointer_detection("model.safetensors"));
    assert!(!should_try_pointer_detection("weights/MODEL.BIN"));
    assert!(!should_try_pointer_detection("archive.tar.gz"));
    assert!(should_try_pointer_detection("README.md"));
    assert!(should_try_pointer_detection("LICENSE"));
    assert!(should_try_pointer_detection(".bin"));
    assert!(is_pointer_candidate_extension("json"));
    assert!(!is_pointer_candidate_extension("Pth"));
}

#[test]
fn cas_metadata_answers_file_info_at_once() {
    let m = FileResolveMetadata {
        download_url: "u".to_string(),
        etag: "e".to_string(),
        commit_hash: "c".to_string(),
        size: 99,
        xet_file_data: Some(XetFileData {
            file_hash: "hh".to_string(),
            refresh_route: "r".to_string(),
        }),
    };
    match file_info_step(&Ok(m), "model.safetensors") {
        FileInfoStep::Found(i) => {
            assert_eq!(i.hash(), "hh");
            assert_eq!(i.file_size(), 99);
        }
        _ => panic!("expected the CAS answer"),
    }
    let failed: Result<FileResolveMetadata, XetError> =
        Err(XetError::NetworkError { message: "x".to_string() });
    assert!(matches!(file_info_step(&failed, "model.safetensors"), FileInfoStep::NotFound));
    assert!(matches!(file_info_step(&failed, "pointer.txt"), FileInfoStep::ReadPointer));
}
