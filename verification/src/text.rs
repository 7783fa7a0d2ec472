//! Small verified text helpers: decimal and hex rendering, string building and
//! comparison, and the whitespace rule of `str::trim`.
use vstd::prelude::*;
use vstd::string::*;
use vstd::utf8::*;

verus! {

broadcast use vstd::utf8::encode_utf8_decode_utf8, vstd::utf8::encode_utf8_valid_utf8;

/// The decimal character for a digit below ten.
pub open spec fn digit_char(d: nat) -> char
    recommends
        d < 10,
{
    if d == 0 {
        '0'
    } else if d == 1 {
        '1'
    } else if d == 2 {
        '2'
    } else if d == 3 {
        '3'
    } else if d == 4 {
        '4'
    } else if d == 5 {
        '5'
    } else if d == 6 {
        '6'
    } else if d == 7 {
        '7'
    } else if d == 8 {
        '8'
    } else {
        '9'
    }
}

/// Decimal rendering of `x`, as `format!("{x}")` prints it.
pub open spec fn decimal(x: nat) -> Seq<char>
    decreases x,
{
    if x < 10 {
        seq![digit_char(x)]
    } else {
        decimal(x / 10) + seq![digit_char(x % 10)]
    }
}

fn digit_string(d: u64) -> (r: String)
    requires
        d < 10,
    ensures
        r@ == seq![digit_char(d as nat)],
{
    if d == 0 {
        proof { reveal_strlit("0"); }
        String::from_str("0")
    } else if d == 1 {
        proof { reveal_strlit("1"); }
        String::from_str("1")
    } else if d == 2 {
        proof { reveal_strlit("2"); }
        String::from_str("2")
    } else if d == 3 {
        proof { reveal_strlit("3"); }
        String::from_str("3")
    } else if d == 4 {
        proof { reveal_strlit("4"); }
        String::from_str("4")
    } else if d == 5 {
        proof { reveal_strlit("5"); }
        String::from_str("5")
    } else if d == 6 {
        proof { reveal_strlit("6"); }
        String::from_str("6")
    } else if d == 7 {
        proof { reveal_strlit("7"); }
        String::from_str("7")
    } else if d == 8 {
        proof { reveal_strlit("8"); }
        String::from_str("8")
    } else {
        proof { reveal_strlit("9"); }
        String::from_str("9")
    }
}

/// Decimal rendering of an unsigned integer.
pub fn u64_to_decimal(x: u64) -> (r: String)
    ensures
        r@ == decimal(x as nat),
    decreases x,
{
    if x < 10 {
        digit_string(x)
    } else {
        let head = u64_to_decimal(x / 10);
        let last = digit_string(x % 10);
        head.concat(last.as_str())
    }
}

/// `a` followed by `b`.
pub fn join2(a: &str, b: &str) -> (r: String)
    ensures
        r@ == a@ + b@,
{
    String::from_str(a).concat(b)
}

/// `a`, `b` and `c` one after another.
pub fn join3(a: &str, b: &str, c: &str) -> (r: String)
    ensures
        r@ == a@ + b@ + c@,
{
    String::from_str(a).concat(b).concat(c)
}

/// `a`, `b`, `c` and `d` one after another.
pub fn join4(a: &str, b: &str, c: &str, d: &str) -> (r: String)
    ensures
        r@ == a@ + b@ + c@ + d@,
{
    String::from_str(a).concat(b).concat(c).concat(d)
}

/// Character-wise string equality, decided on the UTF-8 bytes.
pub fn str_eq(a: &str, b: &str) -> (r: bool)
    ensures
        r == (a@ == b@),
{
    let ab = a.as_bytes();
    let bb = b.as_bytes();
    let r = crate::bytes::bytes_eq(ab, bb);
    proof {
        if r {
            assert(decode_utf8(encode_utf8(a@)) == decode_utf8(encode_utf8(b@)));
        }
    }
    r
}

/// The Unicode `White_Space` characters, which `char::is_whitespace` and
/// `str::trim` recognise.
pub open spec fn is_unicode_whitespace(c: char) -> bool {
    ('\u{9}' <= c <= '\u{d}') || c == ' ' || c == '\u{85}' || c == '\u{a0}' || c == '\u{1680}' || (
    '\u{2000}' <= c <= '\u{200a}') || c == '\u{2028}' || c == '\u{2029}' || c == '\u{202f}'
        || c == '\u{205f}' || c == '\u{3000}'
}

/// Executable `char::is_whitespace`.
pub fn char_is_whitespace(c: char) -> (r: bool)
    ensures
        r == is_unicode_whitespace(c),
{
    ('\u{9}' <= c && c <= '\u{d}') || c == ' ' || c == '\u{85}' || c == '\u{a0}' || c
        == '\u{1680}' || ('\u{2000}' <= c && c <= '\u{200a}') || c == '\u{2028}' || c
        == '\u{2029}' || c == '\u{202f}' || c == '\u{205f}' || c == '\u{3000}'
}

/// Index of the first non-whitespace character (or the length).
pub open spec fn trim_start_index(s: Seq<char>, i: int) -> int
    decreases s.len() - i,
{
    if i >= s.len() || !is_unicode_whitespace(s[i]) {
        i
    } else {
        trim_start_index(s, i + 1)
    }
}

/// One past the last non-whitespace character at or after `lo` (or `lo`).
pub open spec fn trim_end_index(s: Seq<char>, lo: int, j: int) -> int
    decreases j - lo,
{
    if j <= lo || !is_unicode_whitespace(s[j - 1]) {
        j
    } else {
        trim_end_index(s, lo, j - 1)
    }
}

/// `str::trim`: the text without leading and trailing whitespace.
pub open spec fn trim(s: Seq<char>) -> Seq<char> {
    let lo = trim_start_index(s, 0);
    s.subrange(lo, trim_end_index(s, lo, s.len() as int))
}


/// `str::trim`: `s` without leading and trailing Unicode whitespace.
pub fn trim_str(s: &str) -> (r: &str)
    ensures
        r@ == trim(s@),
{
    let n = s.unicode_len();
    let mut lo: usize = 0;
    while lo < n && char_is_whitespace(s.get_char(lo))
        invariant
            lo <= n,
            n == s@.len(),
            trim_start_index(s@, 0) == trim_start_index(s@, lo as int),
        decreases n - lo,
    {
        lo = lo + 1;
    }
    let mut hi: usize = n;
    while hi > lo && char_is_whitespace(s.get_char(hi - 1))
        invariant
            lo <= hi <= n,
            n == s@.len(),
            lo == trim_start_index(s@, 0),
            trim_end_index(s@, lo as int, n as int) == trim_end_index(s@, lo as int, hi as int),
        decreases hi - lo,
    {
        hi = hi - 1;
    }
    s.substring_char(lo, hi)
}


/// Decimal rendering of a signed integer, with a leading `-` when negative.
pub open spec fn signed_decimal(x: int) -> Seq<char> {
    if x < 0 {
        seq!['-'] + decimal((-x) as nat)
    } else {
        decimal(x as nat)
    }
}

/// Decimal rendering of a signed integer.
pub fn i64_to_decimal(x: i64) -> (r: String)
    ensures
        r@ == signed_decimal(x as int),
{
    if x < 0 {
        let wide: i128 = x as i128;
        let magnitude: u64 = (0i128 - wide) as u64;
        let digits = u64_to_decimal(magnitude);
        proof {
            reveal_strlit("-");
        }
        String::from_str("-").concat(digits.as_str())
    } else {
        u64_to_decimal(x as u64)
    }
}


/// The pieces of `s` from position `i` on, the current piece having started
/// at `start`, as `str::split` on the character `sep` cuts them.
pub open spec fn split_acc(s: Seq<char>, sep: char, i: int, start: int) -> Seq<Seq<char>>
    decreases s.len() - i,
{
    if i >= s.len() {
        seq![s.subrange(start, s.len() as int)]
    } else if s[i] == sep {
        seq![s.subrange(start, i)] + split_acc(s, sep, i + 1, i + 1)
    } else {
        split_acc(s, sep, i + 1, start)
    }
}

/// `str::split(sep)`: the pieces between occurrences of `sep`, in order
/// (one more piece than there are separators).
pub open spec fn split_on(s: Seq<char>, sep: char) -> Seq<Seq<char>> {
    split_acc(s, sep, 0, 0)
}

/// Splits `s` on `sep`; the pieces borrow from `s`.
pub fn split_str<'a>(s: &'a str, sep: char) -> (r: Vec<&'a str>)
    ensures
        r@.map_values(|p: &str| p@) == split_on(s@, sep),
{
    let n = s.unicode_len();
    let mut out: Vec<&'a str> = Vec::new();
    let mut start: usize = 0;
    let mut i: usize = 0;
    while i < n
        invariant
            0 <= start <= i <= n,
            n == s@.len(),
            out@.map_values(|p: &str| p@) + split_acc(s@, sep, i as int, start as int) == split_on(s@, sep),
        decreases n - i,
    {
        if s.get_char(i) == sep {
            let piece = s.substring_char(start, i);
            let ghost before = out@;
            out.push(piece);
            proof {
                assert(out@.map_values(|p: &str| p@) =~= before.map_values(|p: &str| p@).push(piece@));
                assert(out@.map_values(|p: &str| p@) + split_acc(s@, sep, i + 1, i + 1) =~= before.map_values(
                    |p: &str| p@,
                ) + split_acc(s@, sep, i as int, start as int));
            }
            start = i + 1;
        }
        i = i + 1;
    }
    let last = s.substring_char(start, n);
    let ghost before = out@;
    out.push(last);
    proof {
        assert(out@.map_values(|p: &str| p@) =~= before.map_values(|p: &str| p@).push(last@));
        assert(out@.map_values(|p: &str| p@) =~= before.map_values(|p: &str| p@) + split_acc(
            s@,
            sep,
            n as int,
            start as int,
        ));
    }
    out
}

/// Splitting past a prefix: the pieces of `p + q` from inside `q` are those
/// of `q` alone.
proof fn lemma_split_shift(p: Seq<char>, q: Seq<char>, sep: char, i: int, start: int)
    requires
        0 <= start <= i <= q.len(),
    ensures
        split_acc(p + q, sep, p.len() + i, p.len() + start) == split_acc(q, sep, i, start),
    decreases q.len() - i,
{
    let s = p + q;
    if i < q.len() {
        assert(s[p.len() + i] == q[i]);
        lemma_split_shift(p, q, sep, i + 1, if q[i] == sep { i + 1 } else { start });
        if q[i] == sep {
            assert(s.subrange(p.len() + start, p.len() + i) =~= q.subrange(start, i));
        }
    } else {
        assert(s.subrange(p.len() + start, s.len() as int) =~= q.subrange(start, q.len() as int));
    }
}

/// A piece without the separator comes off the front whole.
pub proof fn lemma_split_head(x: Seq<char>, rest: Seq<char>, sep: char)
    requires
        !x.contains(sep),
    ensures
        split_on(x + seq![sep] + rest, sep) == seq![x] + split_on(rest, sep),
{
    let s = x + seq![sep] + rest;
    assert forall|i: int| 0 <= i <= x.len() implies split_acc(s, sep, i, 0) == seq![x] + split_on(rest, sep) by {
        lemma_split_head_from(x, rest, sep, i);
    }
}

proof fn lemma_split_head_from(x: Seq<char>, rest: Seq<char>, sep: char, i: int)
    requires
        !x.contains(sep),
        0 <= i <= x.len(),
    ensures
        split_acc(x + seq![sep] + rest, sep, i, 0) == seq![x] + split_on(rest, sep),
    decreases x.len() - i,
{
    let s = x + seq![sep] + rest;
    if i < x.len() {
        assert(s[i] == x[i]);
        assert(x[i] != sep) by {
            if x[i] == sep {
                assert(x.contains(sep));
            }
        }
        lemma_split_head_from(x, rest, sep, i + 1);
    } else {
        assert(s[i] == sep);
        assert(s.subrange(0, i) =~= x);
        let p = x + seq![sep];
        assert(s =~= p + rest);
        lemma_split_shift(p, rest, sep, 0, 0);
    }
}

/// A piece without the separator splits into itself.
pub proof fn lemma_split_whole(x: Seq<char>, sep: char)
    requires
        !x.contains(sep),
    ensures
        split_on(x, sep) == seq![x],
{
    assert forall|i: int| 0 <= i <= x.len() implies split_acc(x, sep, i, 0) == seq![x] by {
        lemma_split_whole_from(x, sep, i);
    }
}

proof fn lemma_split_whole_from(x: Seq<char>, sep: char, i: int)
    requires
        !x.contains(sep),
        0 <= i <= x.len(),
    ensures
        split_acc(x, sep, i, 0) == seq![x],
    decreases x.len() - i,
{
    if i < x.len() {
        assert(x[i] != sep) by {
            if x[i] == sep {
                assert(x.contains(sep));
            }
        }
        lemma_split_whole_from(x, sep, i + 1);
    } else {
        assert(x.subrange(0, x.len() as int) =~= x);
    }
}

/// Text that neither starts nor ends with whitespace trims to itself.
pub proof fn lemma_trim_clean(s: Seq<char>)
    requires
        s.len() > 0,
        !is_unicode_whitespace(s[0]),
        !is_unicode_whitespace(s[s.len() - 1]),
    ensures
        trim(s) == s,
{
    assert(trim_start_index(s, 0) == 0);
    assert(trim_end_index(s, 0, s.len() as int) == s.len());
    assert(s.subrange(0, s.len() as int) =~= s);
}


/// The lower-case hexadecimal character of a value below sixteen.
pub open spec fn hex_char(d: nat) -> char
    recommends
        d < 16,
{
    if d == 0 {
        '0'
    } else if d == 1 {
        '1'
    } else if d == 2 {
        '2'
    } else if d == 3 {
        '3'
    } else if d == 4 {
        '4'
    } else if d == 5 {
        '5'
    } else if d == 6 {
        '6'
    } else if d == 7 {
        '7'
    } else if d == 8 {
        '8'
    } else if d == 9 {
        '9'
    } else if d == 10 {
        'a'
    } else if d == 11 {
        'b'
    } else if d == 12 {
        'c'
    } else if d == 13 {
        'd'
    } else if d == 14 {
        'e'
    } else {
        'f'
    }
}

/// Lower-case hexadecimal of a byte string, two characters per byte.
pub open spec fn hex_text(b: Seq<u8>) -> Seq<char>
    decreases b.len(),
{
    if b.len() == 0 {
        Seq::empty()
    } else {
        hex_text(b.drop_last()) + seq![hex_char((b.last() / 16) as nat), hex_char((b.last() % 16) as nat)]
    }
}

fn hex_digit_string(d: u8) -> (r: String)
    requires
        d < 16,
    ensures
        r@ == seq![hex_char(d as nat)],
{
    if d == 0 {
        proof { reveal_strlit("0"); }
        String::from_str("0")
    } else if d == 1 {
        proof { reveal_strlit("1"); }
        String::from_str("1")
    } else if d == 2 {
        proof { reveal_strlit("2"); }
        String::from_str("2")
    } else if d == 3 {
        proof { reveal_strlit("3"); }
        String::from_str("3")
    } else if d == 4 {
        proof { reveal_strlit("4"); }
        String::from_str("4")
    } else if d == 5 {
        proof { reveal_strlit("5"); }
        String::from_str("5")
    } else if d == 6 {
        proof { reveal_strlit("6"); }
        String::from_str("6")
    } else if d == 7 {
        proof { reveal_strlit("7"); }
        String::from_str("7")
    } else if d == 8 {
        proof { reveal_strlit("8"); }
        String::from_str("8")
    } else if d == 9 {
        proof { reveal_strlit("9"); }
        String::from_str("9")
    } else if d == 10 {
        proof { reveal_strlit("a"); }
        String::from_str("a")
    } else if d == 11 {
        proof { reveal_strlit("b"); }
        String::from_str("b")
    } else if d == 12 {
        proof { reveal_strlit("c"); }
        String::from_str("c")
    } else if d == 13 {
        proof { reveal_strlit("d"); }
        String::from_str("d")
    } else if d == 14 {
        proof { reveal_strlit("e"); }
        String::from_str("e")
    } else {
        proof { reveal_strlit("f"); }
        String::from_str("f")
    }
}

/// Lower-case hexadecimal of `b`, two digits per byte.
pub fn hex(b: &[u8]) -> (r: String)
    ensures
        r@ == hex_text(b@),
{
    let mut out = String::new();
    let mut i: usize = 0;
    while i < b.len()
        invariant
            0 <= i <= b@.len(),
            out@ == hex_text(b@.subrange(0, i as int)),
        decreases b@.len() - i,
    {
        let hi = hex_digit_string(b[i] / 16);
        let lo = hex_digit_string(b[i] % 16);
        proof {
            assert(b@.subrange(0, i + 1).drop_last() =~= b@.subrange(0, i as int));
        }
        out = out.concat(hi.as_str()).concat(lo.as_str());
        proof {
            assert(out@ =~= hex_text(b@.subrange(0, i + 1)));
        }
        i = i + 1;
    }
    proof {
        assert(b@.subrange(0, b@.len() as int) =~= b@);
    }
    out
}


/// Every character of `s` is whitespace.
pub open spec fn all_whitespace(s: Seq<char>) -> bool {
    forall|i: int| 0 <= i < s.len() ==> is_unicode_whitespace(#[trigger] s[i])
}

proof fn lemma_trim_start_skips(s: Seq<char>, w: int, i: int)
    requires
        0 <= i <= w < s.len(),
        forall|j: int| 0 <= j < w ==> is_unicode_whitespace(#[trigger] s[j]),
        !is_unicode_whitespace(s[w]),
    ensures
        trim_start_index(s, i) == w,
    decreases w - i,
{
    if i < w {
        lemma_trim_start_skips(s, w, i + 1);
    }
}

proof fn lemma_trim_end_skips(s: Seq<char>, lo: int, e: int, j: int)
    requires
        lo < e <= j <= s.len(),
        forall|k: int| e <= k < s.len() ==> is_unicode_whitespace(#[trigger] s[k]),
        !is_unicode_whitespace(s[e - 1]),
    ensures
        trim_end_index(s, lo, j) == e,
    decreases j - lo,
{
    if j > e {
        assert(is_unicode_whitespace(s[j - 1]));
        lemma_trim_end_skips(s, lo, e, j - 1);
    }
}

/// Surrounding whitespace trims away from text that neither starts nor ends
/// with whitespace.
pub proof fn lemma_trim_padded(w1: Seq<char>, t: Seq<char>, w2: Seq<char>)
    requires
        t.len() > 0,
        !is_unicode_whitespace(t[0]),
        !is_unicode_whitespace(t[t.len() - 1]),
        all_whitespace(w1),
        all_whitespace(w2),
    ensures
        trim(w1 + t + w2) == t,
{
    let s = w1 + t + w2;
    let lo = w1.len() as int;
    let e = (w1.len() + t.len()) as int;
    assert(s[lo] == t[0]);
    assert(forall|j: int| 0 <= j < lo ==> s[j] == w1[j]);
    lemma_trim_start_skips(s, lo, 0);
    assert(s[e - 1] == t[t.len() - 1]);
    assert forall|k: int| e <= k < s.len() implies is_unicode_whitespace(#[trigger] s[k]) by {
        assert(s[k] == w2[k - e]);
    }
    lemma_trim_end_skips(s, lo, e, s.len() as int);
    assert(s.subrange(lo, e) =~= t);
}

/// The character views of a list of strings.
pub open spec fn string_views(v: Seq<String>) -> Seq<Seq<char>> {
    v.map_values(|s: String| s@)
}

} // verus!
