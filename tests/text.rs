use swift_xet_rust::text::{i32_text, parse_i32, parse_u64, trim, u64_text, url_encode};
use swift_xet_rust::{CacheStats, FileMetadata, ProgressUpdate};

#[test]
fn url_encoding_keeps_unreserved_bytes() {
    assert_eq!(url_encode("a-b_c.d~e"), "a-b_c.d~e");
    assert_eq!(url_encode("dir/file name.txt"), "dir%2Ffile%20name.txt");
    assert_eq!(url_encode("é"), "%C3%A9");
}

#[test]
fn numbers_parse_as_std_does() {
    assert_eq!(parse_u64("42"), Some(42));
    assert_eq!(parse_u64("+42"), Some(42));
    assert_eq!(parse_u64(""), None);
    assert_eq!(parse_u64("+"), None);
    assert_eq!(parse_u64("-1"), None);
    assert_eq!(parse_u64(" 1"), None);
    assert_eq!(parse_u64("18446744073709551615"), Some(u64::MAX));
    assert_eq!(parse_u64("18446744073709551616"), None);
    assert_eq!(parse_i32("-2147483648"), Some(i32::MIN));
    assert_eq!(parse_i32("2147483648"), None);
    assert_eq!(parse_i32("-"), None);
}

#[test]
fn numbers_print_as_std_does() {
    assert_eq!(u64_text(0), "0");
    assert_eq!(u64_text(8388608), "8388608");
    assert_eq!(u64_text(u64::MAX), u64::MAX.to_string());
    assert_eq!(i32_text(-256), "-256");
    assert_eq!(i32_text(i32::MIN), i32::MIN.to_string());
}

#[test]
fn trim_removes_unicode_white_space() {
    assert_eq!(trim("\u{3000} a b \t\n"), "a b");
    assert_eq!(trim("   "), "");
}

#[test]
fn records_keep_their_fields() {
    let m = FileMetadata::new(
        "a/b.txt".to_string(),
        "file".to_string(),
        Some(3),
        Some("h".to_string()),
        None,
    );
    assert_eq!(m.path(), "a/b.txt");
    assert_eq!(m.entry_type(), "file");
    assert_eq!(m.size(), Some(3));
    assert_eq!(m.hash(), Some("h".to_string()));
    assert_eq!(m.oid(), None);
    let dir = FileMetadata::new("a".to_string(), "directory".to_string(), None, None, None);
    assert_eq!(swift_xet_rust::types::file_paths(&vec![m, dir]), vec!["a/b.txt".to_string()]);
    let p = ProgressUpdate::new(10, 5, 4, 2);
    assert_eq!(
        (p.total_bytes(), p.total_bytes_completed(), p.total_transfer_bytes(), p.total_transfer_bytes_completed()),
        (10, 5, 4, 2)
    );
    let s = CacheStats::empty().with_file(10).with_file(u64::MAX);
    assert_eq!(s.total_size_bytes(), u64::MAX);
    assert_eq!(s.file_count(), 2);
}
