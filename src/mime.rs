//! Content-type inference for cell values, without outside metadata.
use vstd::prelude::*;
use vstd::string::*;

verus! {

/// The MIME type that the file-signature table assigns to the leading bytes, if any.
pub uninterp spec fn signature_mime(b: Seq<u8>) -> Option<Seq<char>>;

/// The text without its leading and trailing whitespace.
pub uninterp spec fn trimmed(s: Seq<char>) -> Seq<char>;

/// Whether the text parses as one JSON value.
pub uninterp spec fn is_json_document(s: Seq<char>) -> bool;

/// Relies on `infer::get`: sniffs the magic-byte signature at the start of the
/// bytes and gives the MIME type of the matching kind.
#[verifier::external_body]
fn sniff_signature(b: &[u8]) -> (r: Option<String>)
    ensures
        match r {
            Some(m) => signature_mime(b@) == Some(m@),
            None => signature_mime(b@) is None,
        },
{
    match infer::get(b) {
        Some(t) => Some(t.mime_type().to_string()),
        None => None,
    }
}

/// Relies on `str::trim`: the slice without leading and trailing whitespace.
#[verifier::external_body]
fn trim_text(s: &str) -> (r: &str)
    ensures
        r@ == trimmed(s@),
{
    s.trim()
}

/// Relies on `serde_json::from_str` into a `serde_json::Value`: whether the
/// text is one well-formed JSON value.
#[verifier::external_body]
fn parses_as_json(s: &str) -> (r: bool)
    ensures
        r == is_json_document(s@),
{
    serde_json::from_str::<serde_json::Value>(s).is_ok()
}

pub open spec fn octet_stream() -> Seq<char> {
    "application/octet-stream"@
}

pub open spec fn json_mime() -> Seq<char> {
    "application/json"@
}

pub open spec fn plain_text_mime() -> Seq<char> {
    "text/plain"@
}

/// The content type of a blob: its signature's type, else the generic binary type.
pub open spec fn blob_mime(b: Seq<u8>) -> Seq<char> {
    match signature_mime(b) {
        Some(m) => m,
        None => octet_stream(),
    }
}

/// Text that opens and closes with matching braces or brackets.
pub open spec fn bracket_shaped(t: Seq<char>) -> bool {
    t.len() > 0 && ((t[0] == '{' && t[t.len() - 1] == '}') || (t[0] == '[' && t[t.len() - 1]
        == ']'))
}

/// The content type of already trimmed text, given whether it parses as JSON.
pub open spec fn trimmed_text_mime(t: Seq<char>, is_json: bool) -> Seq<char> {
    if bracket_shaped(t) && is_json {
        json_mime()
    } else {
        plain_text_mime()
    }
}

/// The content type of a text value.
pub open spec fn text_mime(s: Seq<char>) -> Seq<char> {
    trimmed_text_mime(trimmed(s), is_json_document(trimmed(s)))
}

/// Classifies a blob by its magic-byte signature.
pub fn infer_blob_type(b: &[u8]) -> (r: String)
    ensures
        r@ == blob_mime(b@),
{
    match sniff_signature(b) {
        Some(m) => m,
        None => String::from_str("application/octet-stream"),
    }
}

/// Whether trimmed text has the shape of a JSON object or array.
pub fn is_bracket_shaped(t: &str) -> (r: bool)
    ensures
        r == bracket_shaped(t@),
{
    let n = t.unicode_len();
    if n == 0 {
        return false;
    }
    let first = t.get_char(0);
    let last = t.get_char(n - 1);
    (first == '{' && last == '}') || (first == '[' && last == ']')
}

/// The content type of trimmed text, given whether it parses as JSON.
pub fn classify_trimmed(t: &str, is_json: bool) -> (r: String)
    ensures
        r@ == trimmed_text_mime(t@, is_json),
{
    if is_json && is_bracket_shaped(t) {
        String::from_str("application/json")
    } else {
        String::from_str("text/plain")
    }
}

/// Classifies text as JSON when, trimmed, it is bracket-shaped and parses;
/// otherwise as plain text.
pub fn infer_text_type(s: &str) -> (r: String)
    ensures
        r@ == text_mime(s@),
{
    let t = trim_text(s);
    if is_bracket_shaped(t) {
        let ok = parses_as_json(t);
        classify_trimmed(t, ok)
    } else {
        String::from_str("text/plain")
    }
}

} // verus!
