use sqlite_web_viewer::mime::{classify_trimmed, infer_blob_type, infer_text_type, is_bracket_shaped};

#[test]
fn json_object_text_is_json() {
    assert_eq!(infer_text_type("{\"a\":1}"), "application/json");
}

#[test]
fn plain_word_is_plain_text() {
    assert_eq!(infer_text_type("hello"), "text/plain");
}

#[test]
fn unclosed_brace_is_plain_text() {
    assert_eq!(infer_text_type("{not json"), "text/plain");
}

#[test]
fn bracket_shaped_but_malformed_is_plain_text() {
    assert_eq!(infer_text_type("{not: json}"), "text/plain");
    assert_eq!(infer_text_type("[1, 2,]"), "text/plain");
}

#[test]
fn surrounding_whitespace_is_trimmed() {
    assert_eq!(infer_text_type("  \n[1, 2, 3]\t "), "application/json");
}

#[test]
fn json_scalar_without_brackets_is_plain_text() {
    assert_eq!(infer_text_type("42"), "text/plain");
    assert_eq!(infer_text_type("\"quoted\""), "text/plain");
}

#[test]
fn empty_text_is_plain_text() {
    assert_eq!(infer_text_type(""), "text/plain");
}

#[test]
fn bracket_shape_needs_matching_ends() {
    assert!(is_bracket_shaped("{}"));
    assert!(is_bracket_shaped("[x]"));
    assert!(!is_bracket_shaped("{]"));
    assert!(!is_bracket_shaped("{"));
    assert!(!is_bracket_shaped(""));
}

#[test]
fn classify_trimmed_needs_both_shape_and_parse() {
    assert_eq!(classify_trimmed("{}", true), "application/json");
    assert_eq!(classify_trimmed("{}", false), "text/plain");
    assert_eq!(classify_trimmed("abc", true), "text/plain");
}

#[test]
fn png_signature_is_recognised() {
    let png = [0x89u8, b'P', b'N', b'G', 0x0D, 0x0A, 0x1A, 0x0A, 0, 0, 0, 0x0D];
    assert_eq!(infer_blob_type(&png), "image/png");
}

#[test]
fn unknown_bytes_fall_back_to_octet_stream() {
    assert_eq!(infer_blob_type(&[1u8, 2, 3]), "application/octet-stream");
    assert_eq!(infer_blob_type(&[]), "application/octet-stream");
}
