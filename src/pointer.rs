//! Pointer files: small text stand-ins that give a large file's content hash and size.
use vstd::prelude::*;

use crate::metadata::FileResolveMetadata;
use crate::text::{
    char_vec, eq_folded, find_char, has_prefix, index_of, lemma_find_is_index_of, matches_at,
    parse_u64, range_eq_folded, string_of_range, trim_range, trimmed, u64_of, CharClass,
};
use crate::types::XetFileInfo;
use crate::error::XetError;
use crate::repo::lemma_index_of_join;
use crate::text::{all_digits, decimal, digit_char, digits_value, drop_leading, drop_trailing};

verus! {

// ---------------------------------------------------------------------------
// Which files may be pointer files
/// The extension of a path as `std::path::Path::extension` gives it.
pub uninterp spec fn path_extension(p: Seq<char>) -> Option<Seq<char>>;

/// Relies on `Path::extension`: the part of the path's file name after its last `.`, the
/// result depending on the path alone. (The extension of a path given as `&str` is always
/// valid UTF-8, so reading it back as `&str` keeps it whole.)
#[verifier::external_body]
fn extension_of(path: &str) -> (r: Option<String>)
    ensures
        r matches Some(e) ==> path_extension(path@) == Some(e@),
        r is None ==> path_extension(path@) is None,
{
    std::path::Path::new(path).extension().and_then(|s| s.to_str()).map(|s| s.to_string())
}

/// Extensions of binary formats, in any ASCII case, that are never pointer files.
pub open spec fn is_binary_extension(e: Seq<char>) -> bool {
    ||| eq_folded(e, "safetensors"@)
    ||| eq_folded(e, "bin"@)
    ||| eq_folded(e, "pt"@)
    ||| eq_folded(e, "onnx"@)
    ||| eq_folded(e, "tflite"@)
    ||| eq_folded(e, "tar"@)
    ||| eq_folded(e, "gz"@)
    ||| eq_folded(e, "zip"@)
    ||| eq_folded(e, "xz"@)
    ||| eq_folded(e, "zst"@)
    ||| eq_folded(e, "bz2"@)
    ||| eq_folded(e, "npy"@)
    ||| eq_folded(e, "npz"@)
    ||| eq_folded(e, "h5"@)
    ||| eq_folded(e, "ckpt"@)
    ||| eq_folded(e, "pth"@)
}

fn folded_is(v: &Vec<char>, lit: &str) -> (r: bool)
    ensures
        r == eq_folded(v@, lit@),
{
    let l = char_vec(lit);
    assert(v@.subrange(0, v@.len() as int) == v@);
    range_eq_folded(v, 0, v.len(), &l)
}

/// Whether a file with extension `ext` may be a pointer file: not when the extension names
/// a binary format.
pub fn is_pointer_candidate_extension(ext: &str) -> (r: bool)
    ensures
        r == !is_binary_extension(ext@),
{
    let v = char_vec(ext);
    !(folded_is(&v, "safetensors") || folded_is(&v, "bin") || folded_is(&v, "pt") || folded_is(
        &v,
        "onnx",
    ) || folded_is(&v, "tflite") || folded_is(&v, "tar") || folded_is(&v, "gz") || folded_is(
        &v,
        "zip",
    ) || folded_is(&v, "xz") || folded_is(&v, "zst") || folded_is(&v, "bz2") || folded_is(
        &v,
        "npy",
    ) || folded_is(&v, "npz") || folded_is(&v, "h5") || folded_is(&v, "ckpt") || folded_is(
        &v,
        "pth",
    ))
}

/// Whether the file at `path` is worth reading as a pointer file: unless its extension
/// names a binary format (a path without extension is tried).
pub fn should_try_pointer_detection(path: &str) -> (r: bool)
    ensures
        r == pointer_candidate(path@),
{
    match extension_of(path) {
        Some(e) => is_pointer_candidate_extension(e.as_str()),
        None => true,
    }
}

// ---------------------------------------------------------------------------
// Reading pointer files
/// The string under `text_key` and the number under `number_key` of the JSON object `s`.
pub uninterp spec fn json_str_and_u64(s: Seq<char>, text_key: Seq<char>, number_key: Seq<char>) -> Option<(Seq<char>, u64)>;

/// Relies on `serde_json::from_str` into a `serde_json::Value`, and on `Value::get`,
/// `Value::as_str` and `Value::as_u64` to read a string and an unsigned number out of it;
/// the result depends on the arguments alone.
#[verifier::external_body]
fn json_fields(s: &str, text_key: &str, number_key: &str) -> (r: Option<(String, u64)>)
    ensures
        r matches Some(p) ==> json_str_and_u64(s@, text_key@, number_key@) == Some((p.0@, p.1)),
        r is None ==> json_str_and_u64(s@, text_key@, number_key@) is None,
{
    let v: serde_json::Value = serde_json::from_str(s).ok()?;
    let text = v.get(text_key)?.as_str()?.to_string();
    let number = v.get(number_key)?.as_u64()?;
    Some((text, number))
}

/// The hash and size that a JSON pointer object (`{"hash": ..., "file_size": ...}`) gives.
pub open spec fn json_pointer(s: Seq<char>) -> Option<(Seq<char>, u64)> {
    json_str_and_u64(s, "hash"@, "file_size"@)
}

/// Relies on `String::from_utf8`: succeeds exactly on valid UTF-8, and the string holds the
/// characters that the bytes encode.
#[verifier::external_body]
fn utf8_text(bytes: Vec<u8>) -> (r: Option<String>)
    ensures
        r is Some <==> vstd::utf8::valid_utf8(bytes@),
        r matches Some(s) ==> s@ == vstd::utf8::decode_utf8(bytes@),
{
    String::from_utf8(bytes).ok()
}

/// The `oid` and `size` that the lines of a pointer file give, from `s` on: the last line
/// starting `oid ` gives the hash, the last starting `size ` the size (nothing where that
/// line's number does not parse); values are trimmed.
pub open spec fn scan_lines(s: Seq<char>, oid: Option<Seq<char>>, size: Option<u64>) -> (
    Option<Seq<char>>,
    Option<u64>,
)
    decreases s.len(),
{
    let i = index_of(s, '\n');
    let line = if i < 0 {
        s
    } else {
        s.take(i)
    };
    let oid2 = if has_prefix(line, "oid "@) {
        Some(trimmed(line.skip(4)))
    } else {
        oid
    };
    let size2 = if has_prefix(line, "size "@) {
        u64_of(trimmed(line.skip(5)))
    } else {
        size
    };
    if 0 <= i < s.len() {
        scan_lines(s.skip(i + 1), oid2, size2)
    } else {
        (oid2, size2)
    }
}

/// The hash and size of a line-oriented pointer file (`oid <hash>` and `size <bytes>`).
pub open spec fn lfs_pointer(s: Seq<char>) -> Option<(Seq<char>, u64)> {
    match scan_lines(s, None, None) {
        (Some(h), Some(n)) => Some((h, n)),
        _ => None,
    }
}

/// The hash and size that a pointer file's bytes give: none unless the bytes are UTF-8
/// text; a JSON pointer object first, else the line form.
pub open spec fn pointer_info(bytes: Seq<u8>) -> Option<(Seq<char>, u64)> {
    if vstd::utf8::valid_utf8(bytes) {
        let s = vstd::utf8::decode_utf8(bytes);
        if json_pointer(s) is Some {
            json_pointer(s)
        } else {
            lfs_pointer(s)
        }
    } else {
        None
    }
}

/// Whether the line `v[lo..hi]` starts with `p`.
fn line_starts_with(v: &Vec<char>, lo: usize, hi: usize, p: &Vec<char>) -> (r: bool)
    requires
        lo <= hi <= v@.len(),
    ensures
        r == has_prefix(v@.subrange(lo as int, hi as int), p@),
{
    if p.len() > hi - lo {
        return false;
    }
    let r = matches_at(v, p, lo);
    assert(v@.subrange(lo as int, hi as int).subrange(0, p@.len() as int) == v@.subrange(
        lo as int,
        lo + p@.len(),
    ));
    r
}

/// Reads the line form of a pointer file.
pub fn parse_pointer_lines(text: &str) -> (r: Option<XetFileInfo>)
    ensures
        r matches Some(i) ==> lfs_pointer(text@) == Some(i.view()),
        r is None ==> lfs_pointer(text@) is None,
{
    let v = char_vec(text);
    let n = v.len();
    let oid_tag = char_vec("oid ");
    let size_tag = char_vec("size ");
    proof {
        reveal_strlit("oid ");
        reveal_strlit("size ");
    }
    let mut oid: Option<String> = None;
    let mut size: Option<u64> = None;
    let mut start: usize = 0;
    assert(v@.skip(0) == v@);
    loop
        invariant_except_break
            scan_lines(text@, None, None) == scan_lines(
                v@.skip(start as int),
                match oid {
                    Some(s) => Some(s@),
                    None => None,
                },
                size,
            ),
        invariant
            start <= n == v@.len(),
            v@ == text@,
            oid_tag@ == "oid "@,
            size_tag@ == "size "@,
        ensures
            scan_lines(text@, None, None) == (
                match oid {
                    Some(s) => Some(s@),
                    None => None,
                },
                size,
            ),
        decreases n - start,
    {
        proof {
            reveal_strlit("oid ");
            reveal_strlit("size ");
        }
        let ghost s = v@.skip(start as int);
        let nl = find_char(&v, '\n', start, n);
        proof {
            lemma_find_is_index_of(v@, '\n', start as int, n as int, nl);
            assert(v@.subrange(start as int, n as int) == s);
        }
        let end = match nl {
            Some(e) => e,
            None => n,
        };
        let ghost line = v@.subrange(start as int, end as int);
        assert(line == if nl is None {
            s
        } else {
            s.take(end - start)
        });
        if line_starts_with(&v, start, end, &oid_tag) {
            let (a, b) = trim_range(&v, start + 4, end, CharClass::WhiteSpace);
            assert(line.skip(4) == v@.subrange(start + 4, end as int));
            oid = Some(string_of_range(&v, a, b));
        }
        if line_starts_with(&v, start, end, &size_tag) {
            let (a, b) = trim_range(&v, start + 5, end, CharClass::WhiteSpace);
            assert(line.skip(5) == v@.subrange(start + 5, end as int));
            let t = string_of_range(&v, a, b);
            size = parse_u64(t.as_str());
        }
        match nl {
            None => {
                break;
            },
            Some(e) => {
                assert(s.skip(e - start + 1) == v@.skip(e + 1));
                start = e + 1;
            },
        }
    }
    match (oid, size) {
        (Some(h), Some(n)) => Some(XetFileInfo::new(h, n)),
        _ => None,
    }
}

/// Reads a pointer file's bytes: JSON first, then the line form.
pub fn pointer_file_info(content: Vec<u8>) -> (r: Option<XetFileInfo>)
    ensures
        r matches Some(i) ==> pointer_info(content@) == Some(i.view()),
        r is None ==> pointer_info(content@) is None,
{
    let ghost bytes = content@;
    let text = match utf8_text(content) {
        Some(t) => t,
        None => {
            return None;
        },
    };
    match json_fields(text.as_str(), "hash", "file_size") {
        Some((hash, size)) => Some(XetFileInfo::new(hash, size)),
        None => parse_pointer_lines(text.as_str()),
    }
}

proof fn lemma_decimal_digits(n: nat)
    ensures
        decimal(n).len() > 0,
        all_digits(decimal(n)),
        digits_value(decimal(n)) == n,
        !decimal(n).contains('\n'),
    decreases n,
{
    let d = decimal(n);
    if n >= 10 {
        lemma_decimal_digits(n / 10);
        assert(d.drop_last() == decimal(n / 10));
    }
    let c = digit_char((n % 10) as int);
    assert(d.last() == c);
    assert(c as u32 == 48 + n % 10);
    assert(crate::text::digit_value(c) == n % 10);
    if n < 10 {
        assert(d.drop_last().len() == 0);
        assert(digits_value(d.drop_last()) == 0);
    } else {
        assert((n / 10) * 10 + n % 10 == n);
    }
    assert(digits_value(d) == digits_value(d.drop_last()) * 10 + crate::text::digit_value(d.last()));
    assert forall|i: int| 0 <= i < d.len() implies crate::text::is_digit(#[trigger] d[i]) by {
        if i < d.len() - 1 {
            assert(d[i] == d.drop_last()[i]);
        }
    }
    if d.contains('\n') {
        let k = choose|k: int| 0 <= k < d.len() && d[k] == '\n';
        assert(crate::text::is_digit(d[k]));
    }
}

proof fn lemma_digits_untrimmed(d: Seq<char>)
    requires
        d.len() > 0,
        all_digits(d),
    ensures
        trimmed(d) == d,
{
    assert(crate::text::is_digit(d[0]));
    assert(crate::text::is_digit(d.last()));
    assert(drop_leading(d, CharClass::WhiteSpace) == d);
    assert(drop_trailing(d, CharClass::WhiteSpace) == d);
}

/// A pointer file in line form, `oid <hash>` then `size <bytes>`, gives back that hash and
/// size, for any hash without line breaks or surrounding white space.
pub proof fn law_pointer_lines_round_trip(hash: Seq<char>, size: u64)
    requires
        !hash.contains('\n'),
        trimmed(hash) == hash,
    ensures
        lfs_pointer("oid "@ + hash + "\n"@ + "size "@ + decimal(size as nat)) == Some((hash, size)),
{
    reveal_strlit("oid ");
    reveal_strlit("size ");
    reveal_strlit("\n");
    let ds = decimal(size as nat);
    lemma_decimal_digits(size as nat);
    lemma_digits_untrimmed(ds);
    let oid_line = "oid "@ + hash;
    let size_line = "size "@ + ds;
    assert(!oid_line.contains('\n')) by {
        if oid_line.contains('\n') {
            let k = choose|k: int| 0 <= k < oid_line.len() && oid_line[k] == '\n';
            if k >= 4 {
                assert(hash[k - 4] == '\n');
            }
        }
    }
    assert(!size_line.contains('\n')) by {
        if size_line.contains('\n') {
            let k = choose|k: int| 0 <= k < size_line.len() && size_line[k] == '\n';
            if k >= 5 {
                assert(ds[k - 5] == '\n');
            }
        }
    }
    let s = "oid "@ + hash + "\n"@ + "size "@ + ds;
    assert(s == oid_line + seq!['\n'] + size_line);
    lemma_index_of_join(oid_line, '\n', size_line);
    crate::text::lemma_index_of_bounds(size_line, '\n');
    assert(oid_line.subrange(0, 4) == "oid "@);
    assert(oid_line.skip(4) == hash);
    assert(oid_line[0] != "size "@[0]);
    assert(size_line.subrange(0, 5) == "size "@);
    assert(size_line.skip(5) == ds);
    assert(size_line[0] != "oid "@[0]);
    assert(crate::text::u64_of(ds) == Some(size)) by {
        assert(ds[0] != '+') by {
            assert(crate::text::is_digit(ds[0]));
        }
    }
    let (o1, z1) = (Some(hash), None::<u64>);
    assert(scan_lines(size_line, o1, z1) == (Some(hash), Some(size)));
    assert(scan_lines(s, None, None) == scan_lines(size_line, o1, z1));
}

// ---------------------------------------------------------------------------
// Finding a file's content hash
/// What finding a file's hash and size takes next.
pub enum FileInfoStep {
    /// The metadata carried CAS addressing: this is the answer.
    Found(XetFileInfo),
    /// There is no answer: the file is not CAS-backed and no pointer file is to be read.
    NotFound,
    /// Read the file's content and pass it to `pointer_file_info`.
    ReadPointer,
}

/// The hash and size that resolved metadata gives, where it carries CAS addressing.
pub open spec fn resolved_cas(resolved: &Result<FileResolveMetadata, XetError>) -> Option<(Seq<char>, u64)> {
    match resolved {
        Ok(m) => match m@.xet_file_data {
            Some(x) => Some((x.0, m@.size)),
            None => None,
        },
        Err(_) => None,
    }
}

/// Whether the file at `path` is worth reading as a pointer file.
pub open spec fn pointer_candidate(path: Seq<char>) -> bool {
    match path_extension(path) {
        Some(e) => !is_binary_extension(e),
        None => true,
    }
}

/// The step after resolving the metadata of the file at `path`: CAS addressing in the
/// metadata answers at once; otherwise a file that may be a pointer file is read.
pub fn file_info_step(resolved: &Result<FileResolveMetadata, XetError>, path: &str) -> (r:
    FileInfoStep)
    ensures
        match resolved_cas(resolved) {
            Some(c) => r matches FileInfoStep::Found(i) && i.view() == c,
            None => if pointer_candidate(path@) {
                r is ReadPointer
            } else {
                r is NotFound
            },
        },
{
    if let Ok(m) = resolved {
        if let Some(x) = &m.xet_file_data {
            return FileInfoStep::Found(XetFileInfo::new(x.file_hash.clone(), m.size));
        }
    }
    if should_try_pointer_detection(path) {
        FileInfoStep::ReadPointer
    } else {
        FileInfoStep::NotFound
    }
}

} // verus!
