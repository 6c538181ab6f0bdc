use doneyet_cli::text::{
    chars_of, i64_decimal, repeat_char, same_text, starts_with, strip_trailing_char, trim,
    u16_decimal, uppercase,
};
use doneyet_cli::url::{enc_path, enc_query};

#[test]
fn enc_path_escapes_delimiters() {
    assert_eq!(enc_path("a b/c?d"), "a%20b%2Fc%3Fd");
    assert_eq!(enc_path("x&y=z#w"), "x%26y%3Dz%23w");
}

#[test]
fn enc_path_keeps_unreserved() {
    assert_eq!(enc_path("Az09-._~"), "Az09-._~");
    assert_eq!(enc_path(""), "");
}

#[test]
fn enc_path_encodes_utf8_bytes_upper_hex() {
    assert_eq!(enc_path("é"), "%C3%A9");
    assert_eq!(enc_path("\u{1F600}"), "%F0%9F%98%80");
}

#[test]
fn enc_query_matches_enc_path() {
    assert_eq!(enc_query("2025-05-16T00:00:00Z"), "2025-05-16T00%3A00%3A00Z");
    assert_eq!(enc_query("a/b c"), enc_path("a/b c"));
}

#[test]
fn encoding_law_output_is_url_safe() {
    for s in ["/runs/../x?y=1&z#f", "ünïcödé / ?", "\n\t\r", "%41"] {
        let e = enc_path(s);
        assert!(e
            .chars()
            .all(|c| c.is_ascii_alphanumeric() || "-._~%".contains(c)));
        assert!(!e.contains('/') && !e.contains('?') && !e.contains('&') && !e.contains('#'));
    }
}

#[test]
fn encoding_law_distinct_inputs_distinct_outputs() {
    let inputs = ["a", "a/", "a%2F", "a%2f", "é", "e", " ", "+", "%20"];
    for (i, a) in inputs.iter().enumerate() {
        for (j, b) in inputs.iter().enumerate() {
            if i != j {
                assert_ne!(enc_path(a), enc_path(b), "{a:?} vs {b:?}");
            }
        }
    }
}

#[test]
fn trim_removes_unicode_whitespace() {
    assert_eq!(trim(" \t hi there \n"), "hi there");
    assert_eq!(trim("\u{3000}x\u{00a0}"), "x");
    assert_eq!(trim("   "), "");
    assert_eq!(trim("a"), "a");
}

#[test]
fn strip_trailing_char_removes_all_trailing() {
    assert_eq!(strip_trailing_char("http://x//", '/'), "http://x");
    assert_eq!(strip_trailing_char("///", '/'), "");
    assert_eq!(strip_trailing_char("http://x/y", '/'), "http://x/y");
}

#[test]
fn uppercase_is_ascii_only() {
    assert_eq!(uppercase("run_id"), "RUN_ID");
    assert_eq!(uppercase("éa1"), "éA1");
}

#[test]
fn decimal_rendering() {
    assert_eq!(i64_decimal(0), "0");
    assert_eq!(i64_decimal(100), "100");
    assert_eq!(i64_decimal(-42), "-42");
    assert_eq!(i64_decimal(i64::MIN), "-9223372036854775808");
    assert_eq!(i64_decimal(i64::MAX), "9223372036854775807");
    assert_eq!(u16_decimal(404), "404");
}

#[test]
fn small_string_helpers() {
    assert!(starts_with("/api/v1", "/api/"));
    assert!(!starts_with("/ap", "/api/"));
    assert!(same_text("-", "-"));
    assert!(!same_text("-", "--"));
    assert_eq!(repeat_char('*', 3), "***");
    assert_eq!(chars_of("héllo"), vec!['h', 'é', 'l', 'l', 'o']);
}

/// Percent-decoding as a URL reader does it: `%XY` is the byte `0xXY`.
fn percent_decode(s: &str) -> String {
    let b = s.as_bytes();
    let mut out: Vec<u8> = Vec::new();
    let mut i: usize = 0;
    while i < b.len() {
        if b[i] == b'%' && i + 2 < b.len() {
            let hex = std::str::from_utf8(&b[i + 1..i + 3]).unwrap();
            out.push(u8::from_str_radix(hex, 16).unwrap());
            i += 3;
        } else {
            out.push(b[i]);
            i += 1;
        }
    }
    String::from_utf8(out).unwrap()
}

#[test]
fn enc_path_round_trips_through_decoding() {
    assert_eq!(enc_path("a/b c?d"), "a%2Fb%20c%3Fd");
    for s in ["a/b c?d", "x&y=z#w", "é\u{1F600}%", "", "100%", "tab\there"] {
        assert_eq!(percent_decode(&enc_path(s)), s);
    }
}
