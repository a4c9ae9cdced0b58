//! Wire encoding of cell values: blobs travel as base64 data URIs.
use vstd::prelude::*;
use vstd::string::*;
use base64::Engine;
use base64::prelude::BASE64_STANDARD;
use crate::CellValue;
use crate::mime::{blob_mime, infer_blob_type};

verus! {

/// The padded standard-alphabet base64 text of the bytes.
pub uninterp spec fn base64_of(b: Seq<u8>) -> Seq<char>;

/// A character of the standard base64 alphabet, or the padding character.
pub open spec fn is_base64_char(c: char) -> bool {
    ('A' <= c && c <= 'Z') || ('a' <= c && c <= 'z') || ('0' <= c && c <= '9') || c == '+'
        || c == '/' || c == '='
}

pub open spec fn all_base64_chars(p: Seq<char>) -> bool {
    forall|i: int| 0 <= i < p.len() ==> is_base64_char(#[trigger] p[i])
}

/// Relies on base64's `Engine::encode` with the `STANDARD` engine: padded
/// base64 over the standard alphabet `A-Z a-z 0-9 + /` with `=` padding.
#[verifier::external_body]
fn base64_encode(b: &[u8]) -> (r: String)
    ensures
        r@ == base64_of(b@),
        all_base64_chars(r@),
{
    BASE64_STANDARD.encode(b)
}

/// Relies on base64's `Engine::decode` with the `STANDARD` engine: the
/// encoding of some bytes decodes back to those bytes.
#[verifier::external_body]
fn base64_decode(s: &str) -> (r: Option<Vec<u8>>)
    ensures
        forall|b: Seq<u8>| #[trigger] base64_of(b) == s@ ==> (r is Some && r.unwrap()@ == b),
{
    BASE64_STANDARD.decode(s).ok()
}

/// `data:<mime>;base64,<payload>`
pub open spec fn data_uri(mime: Seq<char>, payload: Seq<char>) -> Seq<char> {
    "data:"@ + mime + ";base64,"@ + payload
}

/// The data URI that carries a blob, with its inferred content type.
pub open spec fn blob_data_uri(b: Seq<u8>) -> Seq<char> {
    data_uri(blob_mime(b), base64_of(b))
}

/// `uri` is the encoding of blob `b`.
pub open spec fn encodes_blob(b: Seq<u8>, uri: Seq<char>) -> bool {
    uri == blob_data_uri(b) && all_base64_chars(base64_of(b))
}

/// The index of the last `;` among the first `n` characters, or -1.
pub open spec fn last_semicolon(u: Seq<char>, n: int) -> int
    decreases n,
{
    if n <= 0 {
        -1
    } else if u[n - 1] == ';' {
        n - 1
    } else {
        last_semicolon(u, n - 1)
    }
}

/// The base64 payload of a data URI: the text after the last `;`, which must
/// read `;base64,`, in a text that starts with `data:`.
pub open spec fn payload_of(u: Seq<char>) -> Option<Seq<char>> {
    let k = last_semicolon(u, u.len() as int);
    if 5 <= k && k + 8 <= u.len() && u.subrange(0, 5) == "data:"@ && u.subrange(k, k + 8)
        == ";base64,"@ {
        Some(u.subrange(k + 8, u.len() as int))
    } else {
        None
    }
}

/// The wire form of one cell.
pub enum WireCell {
    Text(String),
    Integer(i64),
    /// The bit pattern of a 64-bit IEEE-754 number.
    Float(u64),
    Null,
}

/// Encodes a blob as `data:<mime>;base64,<payload>`.
pub fn encode_blob(b: &[u8]) -> (r: String)
    ensures
        encodes_blob(b@, r@),
{
    let m = infer_blob_type(b);
    let p = base64_encode(b);
    let mut s = String::from_str("data:");
    s.append(m.as_str());
    s.append(";base64,");
    s.append(p.as_str());
    s
}

/// Encodes one cell for a text-based wire: numbers and text as they are,
/// null as null, and a blob as its data URI.
pub fn encode_cell(c: &CellValue) -> (r: WireCell)
    ensures
        match *c {
            CellValue::String(s) => r matches WireCell::Text(t) && t@ == s@,
            CellValue::Integer(i) => r == WireCell::Integer(i),
            CellValue::Float(f) => r == WireCell::Float(f),
            CellValue::Blob(b) => r matches WireCell::Text(t) && encodes_blob(b@, t@),
            CellValue::Null => r == WireCell::Null,
        },
{
    match c {
        CellValue::String(s) => WireCell::Text(s.clone()),
        CellValue::Integer(i) => WireCell::Integer(*i),
        CellValue::Float(f) => WireCell::Float(*f),
        CellValue::Blob(b) => WireCell::Text(encode_blob(b.as_slice())),
        CellValue::Null => WireCell::Null,
    }
}

/// Whether `lit` stands in `s` at character position `at`.
fn has_at(s: &str, at: usize, lit: &str) -> (r: bool)
    requires
        at <= s@.len(),
    ensures
        r == (at + lit@.len() <= s@.len() && s@.subrange(at as int, at + lit@.len()) == lit@),
{
    let n = s.unicode_len();
    let m = lit.unicode_len();
    if m > n - at {
        return false;
    }
    let mut i: usize = 0;
    while i < m
        invariant
            n == s@.len(),
            m == lit@.len(),
            at + m <= n,
            i <= m,
            forall|j: int| 0 <= j < i ==> s@[at + j] == lit@[j],
        decreases m - i,
    {
        if s.get_char(at + i) != lit.get_char(i) {
            assert(s@.subrange(at as int, at + m)[i as int] != lit@[i as int]);
            return false;
        }
        i = i + 1;
    }
    assert(s@.subrange(at as int, at + m) =~= lit@);
    true
}

/// Decodes the payload of a blob's data URI back to bytes.
pub fn decode_blob_uri(uri: &str) -> (r: Option<Vec<u8>>)
    ensures
        payload_of(uri@) is None ==> r is None,
        forall|b: Seq<u8>|
            #![trigger base64_of(b)]
            payload_of(uri@) == Some(base64_of(b)) ==> (r matches Some(v) && v@ == b),
{
    let n = uri.unicode_len();
    let mut k: usize = n;
    while k > 0 && uri.get_char(k - 1) != ';'
        invariant
            n == uri@.len(),
            k <= n,
            last_semicolon(uri@, k as int) == last_semicolon(uri@, n as int),
        decreases k,
    {
        k = k - 1;
    }
    if k == 0 {
        return None;
    }
    let semi = k - 1;
    assert(last_semicolon(uri@, n as int) == semi);
    if semi < 5 || !has_at(uri, 0, "data:") || !has_at(uri, semi, ";base64,") {
        proof {
            reveal_strlit("data:");
            reveal_strlit(";base64,");
        }
        return None;
    }
    proof {
        reveal_strlit("data:");
        reveal_strlit(";base64,");
    }
    let payload = uri.substring_char(semi + 8, n);
    base64_decode(payload)
}

/// With `last_semicolon` unchanged over characters that are not `;`.
proof fn lemma_last_semicolon_skip(u: Seq<char>, lo: int, n: int)
    requires
        0 <= lo <= n <= u.len(),
        forall|j: int| lo <= j < n ==> u[j] != ';',
    ensures
        last_semicolon(u, n) == last_semicolon(u, lo),
    decreases n - lo,
{
    if n > lo {
        lemma_last_semicolon_skip(u, lo, n - 1);
    }
}

/// The payload of a blob's data URI is the base64 text of that blob, so
/// `decode_blob_uri` on what `encode_blob` gave returns the same bytes.
pub proof fn lemma_blob_round_trip(b: Seq<u8>, uri: Seq<char>)
    requires
        encodes_blob(b, uri),
    ensures
        payload_of(uri) == Some(base64_of(b)),
{
    reveal_strlit("data:");
    reveal_strlit(";base64,");
    let m = blob_mime(b);
    let p = base64_of(b);
    let k: int = 5 + m.len() as int;
    assert(uri[k] == ';');
    assert forall|j: int| k + 1 <= j < uri.len() implies uri[j] != ';' by {
        if j >= k + 8 {
            assert(uri[j] == p[j - k - 8]);
            assert(is_base64_char(p[j - k - 8]));
        }
    }
    lemma_last_semicolon_skip(uri, k + 1, uri.len() as int);
    assert(uri.subrange(0, 5) =~= "data:"@);
    assert(uri.subrange(k, k + 8) =~= ";base64,"@);
    assert(uri.subrange(k + 8, uri.len() as int) =~= p);
}

} // verus!
