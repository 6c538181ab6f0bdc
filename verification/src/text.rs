//! Character-level string helpers shared by the rest of the library: building
//! strings piece by piece, Unicode whitespace trimming, ASCII upper-casing and
//! decimal rendering of integers.
use vstd::prelude::*;

verus! {

// ---------------------------------------------------------------------------
// Specifications
// ---------------------------------------------------------------------------

/// Unicode `White_Space` property (the definition `str::trim` uses).
pub open spec fn is_white_space(c: char) -> bool {
    let u = c as u32;
    ||| 0x09 <= u <= 0x0d
    ||| u == 0x20
    ||| u == 0x85
    ||| u == 0xa0
    ||| u == 0x1680
    ||| 0x2000 <= u <= 0x200a
    ||| u == 0x2028
    ||| u == 0x2029
    ||| u == 0x202f
    ||| u == 0x205f
    ||| u == 0x3000
}

/// `s` without its leading whitespace.
pub open spec fn trim_start_ws(s: Seq<char>) -> Seq<char>
    decreases s.len(),
{
    if s.len() > 0 && is_white_space(s[0]) {
        trim_start_ws(s.drop_first())
    } else {
        s
    }
}

/// `s` without its trailing whitespace.
pub open spec fn trim_end_ws(s: Seq<char>) -> Seq<char>
    decreases s.len(),
{
    if s.len() > 0 && is_white_space(s.last()) {
        trim_end_ws(s.drop_last())
    } else {
        s
    }
}

/// `s` without leading and trailing whitespace.
pub open spec fn trimmed(s: Seq<char>) -> Seq<char> {
    trim_end_ws(trim_start_ws(s))
}

/// `s` without any trailing occurrence of `c`.
pub open spec fn strip_trailing(s: Seq<char>, c: char) -> Seq<char>
    decreases s.len(),
{
    if s.len() > 0 && s.last() == c {
        strip_trailing(s.drop_last(), c)
    } else {
        s
    }
}

/// ASCII upper-casing of one character; every other character is kept.
pub open spec fn ascii_upper(c: char) -> char {
    if 'a' <= c <= 'z' {
        ((c as u32) - 32) as char
    } else {
        c
    }
}

/// ASCII upper-casing of a whole string.
pub open spec fn ascii_upper_all(s: Seq<char>) -> Seq<char> {
    s.map_values(|c: char| ascii_upper(c))
}

/// The decimal digit character for `d` in `0..10`.
pub open spec fn digit_char(d: int) -> char {
    (('0' as int) + d) as char
}

/// Decimal rendering of a natural number, most significant digit first.
pub open spec fn nat_decimal(n: nat) -> Seq<char>
    decreases n,
{
    if n < 10 {
        seq![digit_char(n as int)]
    } else {
        nat_decimal((n / 10) as nat) + seq![digit_char((n % 10) as int)]
    }
}

/// Decimal rendering of an integer, with a leading `-` for negative values
/// (what `Display` prints for the integer types).
pub open spec fn int_decimal(n: int) -> Seq<char> {
    if n < 0 {
        seq!['-'] + nat_decimal((-n) as nat)
    } else {
        nat_decimal(n as nat)
    }
}

/// `n` copies of `c`.
pub open spec fn repeated(c: char, n: nat) -> Seq<char> {
    Seq::new(n, |i: int| c)
}

// ---------------------------------------------------------------------------
// Trusted std helper
// ---------------------------------------------------------------------------

/// std's `String::push`: appends one character at the end of the string.
#[verifier::external_body]
fn push_char(s: &mut String, c: char)
    ensures
        final(s)@ == old(s)@.push(c),
{
    s.push(c);
}

// ---------------------------------------------------------------------------
// Executable helpers
// ---------------------------------------------------------------------------

/// The characters of `s`, in order.
pub fn chars_of(s: &str) -> (res: Vec<char>)
    ensures
        res@ == s@,
{
    let mut res: Vec<char> = Vec::new();
    for c in it: s.chars()
        invariant
            res@ == it.seq().take(it.index() as int),
    {
        res.push(c);
    }
    res
}

/// Appends the characters `chars[from..to]` to `s`.
pub fn push_chars(s: &mut String, chars: &Vec<char>, from: usize, to: usize)
    requires
        from <= to <= chars@.len(),
    ensures
        final(s)@ == old(s)@ + chars@.subrange(from as int, to as int),
{
    let mut i = from;
    while i < to
        invariant
            from <= i <= to <= chars@.len(),
            s@ == old(s)@ + chars@.subrange(from as int, i as int),
        decreases to - i,
    {
        push_char(s, chars[i]);
        i = i + 1;
        assert(chars@.subrange(from as int, i as int) =~= chars@.subrange(from as int, (i - 1) as int).push(chars@[i - 1]));
    }
}

/// A new `String` holding `chars`.
pub fn string_of(chars: &Vec<char>) -> (res: String)
    ensures
        res@ == chars@,
{
    let mut res = String::new();
    push_chars(&mut res, chars, 0, chars.len());
    assert(chars@.subrange(0, chars@.len() as int) =~= chars@);
    res
}

/// `a` followed by `b`.
pub fn concat2(a: &str, b: &str) -> (res: String)
    ensures
        res@ == a@ + b@,
{
    let mut res = String::from_str(a);
    res.append(b);
    res
}

/// `a`, `b` and `c`, one after the other.
pub fn concat3(a: &str, b: &str, c: &str) -> (res: String)
    ensures
        res@ == a@ + b@ + c@,
{
    let mut res = String::from_str(a);
    res.append(b);
    res.append(c);
    res
}

/// Whether `prefix` is a prefix of `s`.
pub fn starts_with(s: &str, prefix: &str) -> (res: bool)
    ensures
        res == prefix@.is_prefix_of(s@),
{
    let sv = chars_of(s);
    let pv = chars_of(prefix);
    if pv.len() > sv.len() {
        return false;
    }
    let mut i: usize = 0;
    while i < pv.len()
        invariant
            pv@ == prefix@,
            sv@ == s@,
            pv@.len() <= sv@.len(),
            i <= pv@.len(),
            forall|j: int| 0 <= j < i ==> pv@[j] == sv@[j],
        decreases pv@.len() - i,
    {
        if pv[i] != sv[i] {
            assert(sv@.subrange(0, pv@.len() as int)[i as int] == sv@[i as int]);
            assert(pv@ != sv@.subrange(0, pv@.len() as int));
            return false;
        }
        i = i + 1;
    }
    assert(pv@ =~= sv@.subrange(0, pv@.len() as int));
    true
}

/// Whether the two strings hold the same characters.
pub fn same_text(a: &str, b: &str) -> (res: bool)
    ensures
        res == (a@ == b@),
{
    let av = chars_of(a);
    let bv = chars_of(b);
    if av.len() != bv.len() {
        return false;
    }
    let mut i: usize = 0;
    while i < av.len()
        invariant
            av@ == a@,
            bv@ == b@,
            av@.len() == bv@.len(),
            i <= av@.len(),
            forall|j: int| 0 <= j < i ==> av@[j] == bv@[j],
        decreases av@.len() - i,
    {
        if av[i] != bv[i] {
            assert(a@[i as int] != b@[i as int]);
            return false;
        }
        i = i + 1;
    }
    assert(av@ =~= bv@);
    true
}

/// Whether `c` has the Unicode `White_Space` property.
pub fn white_space(c: char) -> (res: bool)
    ensures
        res == is_white_space(c),
{
    let u = c as u32;
    (0x09 <= u && u <= 0x0d) || u == 0x20 || u == 0x85 || u == 0xa0 || u == 0x1680 || (0x2000
        <= u && u <= 0x200a) || u == 0x2028 || u == 0x2029 || u == 0x202f || u == 0x205f || u
        == 0x3000
}

proof fn lemma_trim_start_skip(s: Seq<char>, i: int)
    requires
        0 <= i <= s.len(),
        forall|j: int| 0 <= j < i ==> is_white_space(#[trigger] s[j]),
    ensures
        trim_start_ws(s) == trim_start_ws(s.subrange(i, s.len() as int)),
    decreases i,
{
    if i > 0 {
        assert(s.drop_first().subrange(i - 1, s.drop_first().len() as int) =~= s.subrange(
            i,
            s.len() as int,
        ));
        assert forall|j: int| 0 <= j < i - 1 implies is_white_space(#[trigger] s.drop_first()[j]) by {
            assert(s.drop_first()[j] == s[j + 1]);
        }
        lemma_trim_start_skip(s.drop_first(), i - 1);
    } else {
        assert(s.subrange(0, s.len() as int) =~= s);
    }
}

proof fn lemma_trim_end_skip(s: Seq<char>, k: int)
    requires
        0 <= k <= s.len(),
        forall|j: int| k <= j < s.len() ==> is_white_space(#[trigger] s[j]),
    ensures
        trim_end_ws(s) == trim_end_ws(s.subrange(0, k)),
    decreases s.len() - k,
{
    if k < s.len() {
        assert(s.drop_last().subrange(0, k) =~= s.subrange(0, k));
        assert forall|j: int| k <= j < s.drop_last().len() implies is_white_space(
            #[trigger] s.drop_last()[j],
        ) by {
            assert(s.drop_last()[j] == s[j]);
        }
        lemma_trim_end_skip(s.drop_last(), k);
    } else {
        assert(s.subrange(0, k) =~= s);
    }
}

/// `s` with leading and trailing whitespace removed (`str::trim`).
pub fn trim(s: &str) -> (res: String)
    ensures
        res@ == trimmed(s@),
{
    let v = chars_of(s);
    let n = v.len();
    let mut start: usize = 0;
    while start < n && white_space(v[start])
        invariant
            start <= n == v@.len(),
            forall|j: int| 0 <= j < start ==> is_white_space(#[trigger] v@[j]),
        decreases n - start,
    {
        start = start + 1;
    }
    let mut end: usize = n;
    while end > start && white_space(v[end - 1])
        invariant
            start <= end <= n == v@.len(),
            forall|j: int| end <= j < n ==> is_white_space(#[trigger] v@[j]),
        decreases end,
    {
        end = end - 1;
    }
    proof {
        lemma_trim_start_skip(v@, start as int);
        let rest = v@.subrange(start as int, n as int);
        if start < n {
            assert(rest[0] == v@[start as int]);
        }
        assert(trim_start_ws(rest) == rest);
        assert forall|j: int| end - start <= j < rest.len() implies is_white_space(
            #[trigger] rest[j],
        ) by {
            assert(rest[j] == v@[j + start]);
        }
        lemma_trim_end_skip(rest, end - start);
        let core = rest.subrange(0, end - start);
        assert(core =~= v@.subrange(start as int, end as int));
        if end > start {
            assert(core.last() == v@[end - 1]);
        }
        assert(trim_end_ws(core) == core);
    }
    let mut res = String::new();
    push_chars(&mut res, &v, start, end);
    res
}

/// `s` with every trailing `c` removed (`str::trim_end_matches` with a char).
pub fn strip_trailing_char(s: &str, c: char) -> (res: String)
    ensures
        res@ == strip_trailing(s@, c),
{
    let v = chars_of(s);
    let mut end: usize = v.len();
    assert(v@.subrange(0, v@.len() as int) =~= v@);
    while end > 0 && v[end - 1] == c
        invariant
            end <= v@.len(),
            strip_trailing(s@, c) == strip_trailing(v@.subrange(0, end as int), c),
        decreases end,
    {
        proof {
            let pre = v@.subrange(0, end as int);
            assert(pre.last() == c);
            assert(pre.drop_last() =~= v@.subrange(0, end - 1));
        }
        end = end - 1;
    }
    proof {
        assert(v@.subrange(0, v@.len() as int) =~= v@);
    }
    let mut res = String::new();
    push_chars(&mut res, &v, 0, end);
    res
}

/// ASCII upper-casing of every character of `s` (`str::to_ascii_uppercase`).
pub fn uppercase(s: &str) -> (res: String)
    ensures
        res@ == ascii_upper_all(s@),
{
    let v = chars_of(s);
    let mut res = String::new();
    let mut i: usize = 0;
    while i < v.len()
        invariant
            i <= v@.len(),
            res@ =~= ascii_upper_all(v@.subrange(0, i as int)),
        decreases v@.len() - i,
    {
        let c = v[i];
        let u = if 'a' <= c && c <= 'z' {
            let code = (c as u32) - 32;
            char_from(code)
        } else {
            c
        };
        push_char(&mut res, u);
        i = i + 1;
        assert(ascii_upper_all(v@.subrange(0, i as int)) =~= ascii_upper_all(
            v@.subrange(0, i - 1),
        ).push(ascii_upper(v@[i - 1])));
    }
    assert(v@.subrange(0, v@.len() as int) =~= v@);
    res
}

/// The ASCII character with code `code`.
fn char_from(code: u32) -> (c: char)
    requires
        code < 128,
    ensures
        c == code as char,
{
    let b = code as u8;
    b as char
}

/// `n` copies of `c`.
pub fn repeat_char(c: char, n: usize) -> (res: String)
    ensures
        res@ == repeated(c, n as nat),
{
    let mut res = String::new();
    let mut i: usize = 0;
    while i < n
        invariant
            i <= n,
            res@ =~= repeated(c, i as nat),
        decreases n - i,
    {
        push_char(&mut res, c);
        i = i + 1;
    }
    res
}

/// Decimal digits of `n`.
fn u64_digits(n: u64) -> (res: Vec<char>)
    ensures
        res@ == nat_decimal(n as nat),
    decreases n,
{
    if n < 10 {
        let mut v: Vec<char> = Vec::new();
        v.push(digit(n));
        v
    } else {
        let mut v = u64_digits(n / 10);
        v.push(digit(n % 10));
        v
    }
}

/// The decimal digit character for `d`.
fn digit(d: u64) -> (c: char)
    requires
        d < 10,
    ensures
        c == digit_char(d as int),
{
    char_from(48 + d as u32)
}

/// Decimal rendering of `n` (what `Display` prints for an `i64`).
pub fn i64_decimal(n: i64) -> (res: String)
    ensures
        res@ == int_decimal(n as int),
{
    if n < 0 {
        let mag: u64 = if n == i64::MIN {
            9223372036854775808u64
        } else {
            (-n) as u64
        };
        let digits = u64_digits(mag);
        let mut res = String::new();
        push_char(&mut res, '-');
        push_chars(&mut res, &digits, 0, digits.len());
        assert(digits@.subrange(0, digits@.len() as int) =~= digits@);
        res
    } else {
        let digits = u64_digits(n as u64);
        string_of(&digits)
    }
}

/// Decimal rendering of `n` (what `Display` prints for a `u16`).
pub fn u16_decimal(n: u16) -> (res: String)
    ensures
        res@ == nat_decimal(n as nat),
{
    let digits = u64_digits(n as u64);
    string_of(&digits)
}

proof fn lemma_trim_start_shape(s: Seq<char>) -> (i: int)
    ensures
        0 <= i <= s.len(),
        trim_start_ws(s) == s.subrange(i, s.len() as int),
        forall|k: int| 0 <= k < i ==> is_white_space(#[trigger] s[k]),
        i < s.len() ==> !is_white_space(s[i]),
    decreases s.len(),
{
    if s.len() > 0 && is_white_space(s[0]) {
        let j = lemma_trim_start_shape(s.drop_first());
        assert(s.drop_first().subrange(j, s.drop_first().len() as int) =~= s.subrange(
            j + 1,
            s.len() as int,
        ));
        assert forall|k: int| 0 <= k < j + 1 implies is_white_space(#[trigger] s[k]) by {
            if k > 0 {
                assert(s[k] == s.drop_first()[k - 1]);
            }
        }
        j + 1
    } else {
        assert(s.subrange(0, s.len() as int) =~= s);
        0
    }
}

proof fn lemma_trim_end_shape(s: Seq<char>) -> (j: int)
    ensures
        0 <= j <= s.len(),
        trim_end_ws(s) == s.subrange(0, j),
        forall|k: int| j <= k < s.len() ==> is_white_space(#[trigger] s[k]),
        j > 0 ==> !is_white_space(s[j - 1]),
    decreases s.len(),
{
    if s.len() > 0 && is_white_space(s.last()) {
        let j = lemma_trim_end_shape(s.drop_last());
        assert(s.drop_last().subrange(0, j) =~= s.subrange(0, j));
        assert forall|k: int| j <= k < s.len() implies is_white_space(#[trigger] s[k]) by {
            if k < s.len() - 1 {
                assert(s[k] == s.drop_last()[k]);
            }
        }
        j
    } else {
        assert(s.subrange(0, s.len() as int) =~= s);
        s.len() as int
    }
}

/// Law: trimming removes whitespace at both ends and nothing else: the
/// result is a contiguous part of the input, everything cut off before and
/// after it is whitespace, and it neither starts nor ends with whitespace.
pub proof fn lemma_trim_cuts_only_outer_whitespace(s: Seq<char>)
    ensures
        exists|i: int, j: int|
            0 <= i <= j <= s.len() && trimmed(s) == #[trigger] s.subrange(i, j) && (forall|k: int|
                0 <= k < i ==> is_white_space(#[trigger] s[k])) && (forall|k: int|
                j <= k < s.len() ==> is_white_space(#[trigger] s[k])),
        trimmed(s).len() > 0 ==> !is_white_space(trimmed(s)[0]) && !is_white_space(
            trimmed(s).last(),
        ),
{
    let i = lemma_trim_start_shape(s);
    let t = trim_start_ws(s);
    let j = lemma_trim_end_shape(t);
    assert(trimmed(s) =~= s.subrange(i, i + j));
    assert forall|k: int| i + j <= k < s.len() implies is_white_space(#[trigger] s[k]) by {
        assert(s[k] == t[k - i]);
    }
    if trimmed(s).len() > 0 {
        assert(trimmed(s)[0] == t[0]);
        assert(trimmed(s).last() == t[j - 1]);
    }
    assert(trimmed(s) == s.subrange(i, i + j));
}

/// Law: upper-casing turns each ASCII lower-case letter into its capital
/// and keeps every other character, so the length never changes.
pub proof fn lemma_ascii_upper_all(s: Seq<char>)
    ensures
        ascii_upper_all(s).len() == s.len(),
        forall|k: int|
            0 <= k < s.len() && 'a' <= s[k] <= 'z' ==> 'A' <= #[trigger] ascii_upper_all(s)[k] <= 'Z'
                && ascii_upper_all(s)[k] as u32 + 32 == s[k] as u32,
        forall|k: int|
            0 <= k < s.len() && !('a' <= s[k] <= 'z') ==> #[trigger] ascii_upper_all(s)[k] == s[k],
{
}

/// The number a string of decimal digits stands for.
pub open spec fn decimal_value(s: Seq<char>) -> int
    decreases s.len(),
{
    if s.len() == 0 {
        0
    } else {
        decimal_value(s.drop_last()) * 10 + (s.last() as int - '0' as int)
    }
}

proof fn lemma_nat_decimal_digits(n: nat)
    ensures
        nat_decimal(n).len() > 0,
        forall|k: int| 0 <= k < nat_decimal(n).len() ==> '0' <= #[trigger] nat_decimal(n)[k] <= '9',
        decimal_value(nat_decimal(n)) == n,
        nat_decimal(n)[0] == '0' ==> n == 0,
    decreases n,
{
    let d = nat_decimal(n);
    assert('0' as int == 0x30);
    assert(decimal_value(d) == decimal_value(d.drop_last()) * 10 + (d.last() as int - '0' as int));
    if n < 10 {
        assert(d.drop_last() =~= Seq::<char>::empty());
        assert(d.last() as int == 0x30 + n);
    } else {
        let q = (n / 10) as nat;
        lemma_nat_decimal_digits(q);
        assert(d.drop_last() =~= nat_decimal(q));
        assert(d.last() as int == 0x30 + n % 10);
        assert(q * 10 + n % 10 == n);
        assert(d[0] == nat_decimal(q)[0]);
        assert forall|k: int| 0 <= k < d.len() implies '0' <= #[trigger] d[k] <= '9' by {
            if k < d.len() - 1 {
                assert(d[k] == nat_decimal(q)[k]);
            }
        }
    }
}

/// Law: the decimal rendering of an integer reads back as that integer: an
/// optional `-` (exactly for negative numbers), then digits without a
/// leading zero, whose value is the magnitude.
pub proof fn lemma_decimal_reads_back(n: int)
    ensures
        ({
            let d = int_decimal(n);
            let digits = if n < 0 { d.drop_first() } else { d };
            &&& (d.len() > 0 && d[0] == '-') <==> n < 0
            &&& digits.len() > 0
            &&& forall|k: int| 0 <= k < digits.len() ==> '0' <= #[trigger] digits[k] <= '9'
            &&& digits.len() > 1 ==> digits[0] != '0'
            &&& decimal_value(digits) == if n < 0 { -n } else { n }
        }),
{
    let m: nat = if n < 0 { (-n) as nat } else { n as nat };
    lemma_nat_decimal_digits(m);
    if n < 0 {
        assert(int_decimal(n).drop_first() =~= nat_decimal(m));
    }
    if nat_decimal(m).len() > 1 {
        assert(m >= 10);
    }
}

} // verus!
