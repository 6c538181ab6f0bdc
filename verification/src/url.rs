//! Centralised helpers for safely interpolating user-controlled values into
//! API URLs. Every request path is built by concatenating strings, so both
//! query parameters and path segments (slugs, ids) are percent-encoded: a `/`
//! or `?` in a value would otherwise change the endpoint semantics.
use vstd::prelude::*;
use vstd::utf8::*;

verus! {

/// Bytes kept as they are: ASCII alphanumerics and `-`, `.`, `_`, `~`.
pub open spec fn is_unreserved(b: u8) -> bool {
    ||| 0x30 <= b <= 0x39
    ||| 0x41 <= b <= 0x5a
    ||| 0x61 <= b <= 0x7a
    ||| b == 0x2d
    ||| b == 0x2e
    ||| b == 0x5f
    ||| b == 0x7e
}

/// Upper-case hexadecimal digit for `d` in `0..16`.
pub open spec fn hex_upper(d: int) -> char {
    if d < 10 {
        (0x30 + d) as char
    } else {
        (0x41 + d - 10) as char
    }
}

/// How one byte is written: itself when unreserved, `%XY` otherwise.
pub open spec fn encoded_byte(b: u8) -> Seq<char> {
    if is_unreserved(b) {
        seq![b as char]
    } else {
        seq!['%', hex_upper(b as int / 16), hex_upper(b as int % 16)]
    }
}

/// Percent-encoding of a byte sequence, byte by byte.
pub open spec fn percent_encoded(bytes: Seq<u8>) -> Seq<char>
    decreases bytes.len(),
{
    if bytes.len() == 0 {
        seq![]
    } else {
        encoded_byte(bytes[0]) + percent_encoded(bytes.drop_first())
    }
}

/// Percent-encoding of the UTF-8 encoding of `s`.
pub open spec fn url_encoded(s: Seq<char>) -> Seq<char> {
    percent_encoded(encode_utf8(s))
}

/// The characters that may appear in an encoded value: ASCII alphanumerics,
/// `-`, `.`, `_`, `~` and `%`. None of them is a URL delimiter.
pub open spec fn is_url_safe_char(c: char) -> bool {
    ||| '0' <= c <= '9'
    ||| 'A' <= c <= 'Z'
    ||| 'a' <= c <= 'z'
    ||| c == '-'
    ||| c == '.'
    ||| c == '_'
    ||| c == '~'
    ||| c == '%'
}

/// `urlencoding::encode`: percent-encodes every UTF-8 byte of `s` except ASCII
/// alphanumerics and `-`, `_`, `.`, `~`, using upper-case hexadecimal digits.
#[verifier::external_body]
fn percent_encode(s: &str) -> (res: String)
    ensures
        res@ == url_encoded(s@),
{
    urlencoding::encode(s).into_owned()
}

/// Percent-encode a value for use inside a URL path segment.
/// (`/`, spaces, control chars, etc. become `%xx`.)
pub fn enc_path(s: &str) -> (res: String)
    ensures
        res@ == url_encoded(s@),
{
    percent_encode(s)
}

/// Percent-encode a value for use inside a URL query parameter.
/// The encoding is the same as `enc_path`; the two names make the call
/// sites self-documenting.
pub fn enc_query(s: &str) -> (res: String)
    ensures
        res@ == url_encoded(s@),
{
    percent_encode(s)
}

proof fn lemma_percent_encoded_safe(bytes: Seq<u8>)
    ensures
        forall|i: int|
            0 <= i < percent_encoded(bytes).len() ==> is_url_safe_char(
                #[trigger] percent_encoded(bytes)[i],
            ),
    decreases bytes.len(),
{
    if bytes.len() > 0 {
        lemma_percent_encoded_safe(bytes.drop_first());
        let head = encoded_byte(bytes[0]);
        let tail = percent_encoded(bytes.drop_first());
        assert forall|i: int| 0 <= i < head.len() implies is_url_safe_char(#[trigger] head[i]) by {
            let b = bytes[0];
            if !is_unreserved(b) && i > 0 {
                let d = if i == 1 { b as int / 16 } else { b as int % 16 };
                assert(0 <= d < 16);
            }
        }
        assert forall|i: int|
            0 <= i < percent_encoded(bytes).len() implies is_url_safe_char(
                #[trigger] percent_encoded(bytes)[i],
            ) by {
            if i < head.len() {
                assert(percent_encoded(bytes)[i] == head[i]);
            } else {
                assert(percent_encoded(bytes)[i] == tail[i - head.len()]);
            }
        }
    }
}

/// Law: an encoded value holds only URL-safe characters, so it can never
/// introduce a `/`, `?`, `#`, `&`, `=` or space into a request path.
pub proof fn lemma_encoding_is_url_safe(s: Seq<char>)
    ensures
        forall|i: int|
            0 <= i < url_encoded(s).len() ==> is_url_safe_char(#[trigger] url_encoded(s)[i]),
        !url_encoded(s).contains('/'),
        !url_encoded(s).contains('?'),
        !url_encoded(s).contains('&'),
        !url_encoded(s).contains('#'),
{
    lemma_percent_encoded_safe(encode_utf8(s));
}

proof fn lemma_hex_upper_injective(x: int, y: int)
    requires
        0 <= x < 16,
        0 <= y < 16,
        hex_upper(x) == hex_upper(y),
    ensures
        x == y,
{
}

proof fn lemma_percent_encoded_injective(a: Seq<u8>, b: Seq<u8>)
    requires
        percent_encoded(a) == percent_encoded(b),
    ensures
        a == b,
    decreases a.len(),
{
    if a.len() == 0 {
        if b.len() > 0 {
            assert(percent_encoded(b).len() > 0);
        }
        assert(a =~= b);
    } else {
        if b.len() == 0 {
            assert(percent_encoded(a).len() > 0);
        }
        let ea = encoded_byte(a[0]);
        let eb = encoded_byte(b[0]);
        let ra = percent_encoded(a.drop_first());
        let rb = percent_encoded(b.drop_first());
        let whole = percent_encoded(a);
        assert(whole == ea + ra);
        assert(whole == eb + rb);
        assert(whole[0] == ea[0]);
        assert(whole[0] == eb[0]);
        if is_unreserved(a[0]) {
            assert(ea[0] != '%');
            assert(is_unreserved(b[0]));
            assert(a[0] == b[0]);
        } else {
            assert(!is_unreserved(b[0]));
            assert(whole[1] == ea[1] && whole[1] == eb[1]);
            assert(whole[2] == ea[2] && whole[2] == eb[2]);
            lemma_hex_upper_injective(a[0] as int / 16, b[0] as int / 16);
            lemma_hex_upper_injective(a[0] as int % 16, b[0] as int % 16);
            assert(a[0] == b[0]);
        }
        assert(ea == eb);
        assert(ra =~= whole.subrange(ea.len() as int, whole.len() as int));
        assert(rb =~= whole.subrange(eb.len() as int, whole.len() as int));
        lemma_percent_encoded_injective(a.drop_first(), b.drop_first());
        assert(a =~= seq![a[0]] + a.drop_first());
        assert(b =~= seq![b[0]] + b.drop_first());
    }
}

/// Law: encoding loses nothing; two values with the same encoding are the
/// same value, so distinct slugs and ids always reach distinct URLs.
pub proof fn lemma_encoding_is_injective(a: Seq<char>, b: Seq<char>)
    requires
        url_encoded(a) == url_encoded(b),
    ensures
        a == b,
{
    lemma_percent_encoded_injective(encode_utf8(a), encode_utf8(b));
    encode_utf8_decode_utf8(a);
    encode_utf8_decode_utf8(b);
}

/// The value of an upper-case hexadecimal digit.
pub open spec fn hex_value(c: char) -> int {
    if '0' <= c <= '9' {
        c as int - 0x30
    } else {
        c as int - 0x41 + 10
    }
}

/// Percent-decoding: `%XY` stands for the byte `0xXY`, every other character
/// for its own code.
pub open spec fn percent_decoded(s: Seq<char>) -> Seq<u8>
    decreases s.len(),
{
    if s.len() == 0 {
        seq![]
    } else if s[0] == '%' && s.len() >= 3 {
        seq![(hex_value(s[1]) * 16 + hex_value(s[2])) as u8] + percent_decoded(s.skip(3))
    } else {
        seq![s[0] as u8] + percent_decoded(s.drop_first())
    }
}

proof fn lemma_percent_round_trip(b: Seq<u8>)
    ensures
        percent_decoded(percent_encoded(b)) == b,
    decreases b.len(),
{
    if b.len() > 0 {
        lemma_percent_round_trip(b.drop_first());
        let e = encoded_byte(b[0]);
        let rest = percent_encoded(b.drop_first());
        let whole = percent_encoded(b);
        assert(whole == e + rest);
        if is_unreserved(b[0]) {
            assert(whole[0] == b[0] as char);
            assert(whole.drop_first() =~= rest);
            assert(percent_decoded(whole) == seq![b[0]] + percent_decoded(rest));
        } else {
            let hi = b[0] as int / 16;
            let lo = b[0] as int % 16;
            assert(whole[0] == '%');
            assert(whole[1] == hex_upper(hi));
            assert(whole[2] == hex_upper(lo));
            assert(hex_value(hex_upper(hi)) == hi);
            assert(hex_value(hex_upper(lo)) == lo);
            assert(whole.skip(3) =~= rest);
            assert((hi * 16 + lo) as u8 == b[0]);
            assert(percent_decoded(whole) == seq![b[0]] + percent_decoded(rest));
        }
        assert(b =~= seq![b[0]] + b.drop_first());
    }
}

/// Law: percent-decoding an encoded value gives back its UTF-8 bytes, and so
/// the value itself.
pub proof fn lemma_encoding_round_trip(s: Seq<char>)
    ensures
        percent_decoded(url_encoded(s)) == encode_utf8(s),
        decode_utf8(percent_decoded(url_encoded(s))) == s,
{
    lemma_percent_round_trip(encode_utf8(s));
    encode_utf8_decode_utf8(s);
}

} // verus!
