//! Verified text utilities: decimal rendering and parsing, hex encoding,
//! and substring search over character sequences.

use vstd::prelude::*;

verus! {

// ---------------------------------------------------------------------------
// Characters and digits
// ---------------------------------------------------------------------------

pub open spec fn spec_is_digit(c: char) -> bool {
    '0' <= c && c <= '9'
}

pub open spec fn spec_digit_val(c: char) -> int {
    c as int - '0' as int
}

pub open spec fn spec_digit_char(d: int) -> char {
    if d == 0 { '0' }
    else if d == 1 { '1' }
    else if d == 2 { '2' }
    else if d == 3 { '3' }
    else if d == 4 { '4' }
    else if d == 5 { '5' }
    else if d == 6 { '6' }
    else if d == 7 { '7' }
    else if d == 8 { '8' }
    else { '9' }
}

/// The decimal digit characters are exactly the values `spec_digit_char`
/// assigns, and the assignment is invertible.
pub proof fn lemma_digit_char_val(d: int)
    requires
        0 <= d < 10,
    ensures
        spec_is_digit(spec_digit_char(d)),
        spec_digit_val(spec_digit_char(d)) == d,
{
}

pub fn digit_char(d: u64) -> (c: char)
    requires
        d < 10,
    ensures
        c == spec_digit_char(d as int),
{
    if d == 0 { '0' }
    else if d == 1 { '1' }
    else if d == 2 { '2' }
    else if d == 3 { '3' }
    else if d == 4 { '4' }
    else if d == 5 { '5' }
    else if d == 6 { '6' }
    else if d == 7 { '7' }
    else if d == 8 { '8' }
    else { '9' }
}

/// Relies on `String::push` from std: appends the given character to the
/// end of the string.
#[verifier::external_body]
pub fn push_char(s: &mut String, c: char)
    ensures
        final(s)@ == old(s)@.push(c),
{
    s.push(c);
}

// ---------------------------------------------------------------------------
// Decimal rendering
// ---------------------------------------------------------------------------

/// The canonical decimal digit string of a non-negative integer.
pub open spec fn spec_u64_chars(n: int) -> Seq<char>
    decreases n,
{
    if n < 10 {
        seq![spec_digit_char(n)]
    } else {
        spec_u64_chars(n / 10).push(spec_digit_char(n % 10))
    }
}

/// The canonical decimal rendering of a signed integer: a `-` sign for
/// negative values, then the digit string of the magnitude.
pub open spec fn spec_i64_chars(n: int) -> Seq<char> {
    if n < 0 {
        seq!['-'] + spec_u64_chars(-n)
    } else {
        spec_u64_chars(n)
    }
}

pub fn u64_to_string(n: u64) -> (r: String)
    ensures
        r@ == spec_u64_chars(n as int),
    decreases n,
{
    if n < 10 {
        let mut s = String::new();
        push_char(&mut s, digit_char(n));
        proof {
            assert(s@ =~= seq![spec_digit_char(n as int)]);
        }
        s
    } else {
        let mut s = u64_to_string(n / 10);
        push_char(&mut s, digit_char(n % 10));
        s
    }
}

pub fn i64_to_string(n: i64) -> (r: String)
    ensures
        r@ == spec_i64_chars(n as int),
{
    if n >= 0 {
        u64_to_string(n as u64)
    } else {
        let wide: i128 = n as i128;
        let mag: u64 = (-wide) as u64;
        let digits = u64_to_string(mag);
        let mut s = String::from_str("-");
        s.append(digits.as_str());
        proof {
            reveal_strlit("-");
            assert(s@ =~= seq!['-'] + spec_u64_chars(-(n as int)));
        }
        s
    }
}

// ---------------------------------------------------------------------------
// Decimal parsing
// ---------------------------------------------------------------------------

pub open spec fn spec_all_digits(s: Seq<char>) -> bool {
    forall|i: int| 0 <= i < s.len() ==> spec_is_digit(#[trigger] s[i])
}

/// The integer value of a digit string, most significant digit first.
pub open spec fn spec_dec_val(s: Seq<char>) -> int
    decreases s.len(),
{
    if s.len() == 0 {
        0
    } else {
        spec_dec_val(s.drop_last()) * 10 + spec_digit_val(s.last())
    }
}

/// What `str::parse::<u64>` accepts: an optional `+` sign, then one or
/// more decimal digits whose value fits in a `u64`.
pub open spec fn spec_parse_u64(s: Seq<char>) -> Option<u64> {
    let body = if s.len() > 0 && s[0] == '+' { s.subrange(1, s.len() as int) } else { s };
    if body.len() > 0 && spec_all_digits(body) && spec_dec_val(body) <= u64::MAX {
        Some(spec_dec_val(body) as u64)
    } else {
        None
    }
}

/// What `str::parse::<i64>` accepts: an optional `+` or `-` sign, then one
/// or more decimal digits whose signed value fits in an `i64`.
pub open spec fn spec_parse_i64(s: Seq<char>) -> Option<i64> {
    if s.len() > 0 && s[0] == '-' {
        let body = s.subrange(1, s.len() as int);
        if body.len() > 0 && spec_all_digits(body) && -spec_dec_val(body) >= i64::MIN {
            Some((-spec_dec_val(body)) as i64)
        } else {
            None
        }
    } else {
        let body = if s.len() > 0 && s[0] == '+' { s.subrange(1, s.len() as int) } else { s };
        if body.len() > 0 && spec_all_digits(body) && spec_dec_val(body) <= i64::MAX {
            Some(spec_dec_val(body) as i64)
        } else {
            None
        }
    }
}

pub proof fn lemma_dec_val_nonneg(s: Seq<char>)
    requires
        spec_all_digits(s),
    ensures
        spec_dec_val(s) >= 0,
    decreases s.len(),
{
    if s.len() > 0 {
        assert(spec_all_digits(s.drop_last())) by {
            assert(forall|i: int| 0 <= i < s.len() - 1 ==> s.drop_last()[i] == #[trigger] s[i]);
        }
        lemma_dec_val_nonneg(s.drop_last());
    }
}

/// A digit string's value only grows as digits are appended: the value of
/// the prefix of length `j` is at most the value of the whole string.
pub proof fn lemma_dec_val_prefix_le(s: Seq<char>, j: int)
    requires
        spec_all_digits(s),
        0 <= j <= s.len(),
    ensures
        spec_dec_val(s.subrange(0, j)) <= spec_dec_val(s),
    decreases s.len() - j,
{
    if j == s.len() {
        assert(s.subrange(0, j) =~= s);
    } else {
        let p = s.subrange(0, j);
        let q = s.subrange(0, j + 1);
        assert(q.drop_last() =~= p);
        assert(q.last() == s[j]);
        assert(spec_all_digits(p)) by {
            assert(forall|i: int| 0 <= i < j ==> p[i] == #[trigger] s[i]);
        }
        lemma_dec_val_nonneg(p);
        assert(spec_dec_val(q) == spec_dec_val(p) * 10 + spec_digit_val(s[j]));
        assert(spec_dec_val(p) * 10 >= spec_dec_val(p)) by (nonlinear_arith)
            requires spec_dec_val(p) >= 0;
        lemma_dec_val_prefix_le(s, j + 1);
    }
}

/// Parses the digit body `s@.subrange(start, s@.len())` as a `u64`,
/// reporting `None` on an empty body, a non-digit, or overflow.
fn parse_digits_u64(s: &str, start: usize, n: usize) -> (r: Option<u64>)
    requires
        start <= n,
        n == s@.len(),
    ensures
        ({
            let body = s@.subrange(start as int, n as int);
            match r {
                Some(v) => body.len() > 0 && spec_all_digits(body) && spec_dec_val(body) == v,
                None => body.len() == 0 || !spec_all_digits(body) || spec_dec_val(body) > u64::MAX,
            }
        }),
{
    let ghost body = s@.subrange(start as int, n as int);
    if start == n {
        return None;
    }
    let mut acc: u64 = 0;
    let mut i: usize = start;
    while i < n
        invariant
            start <= i <= n,
            n == s@.len(),
            body == s@.subrange(start as int, n as int),
            spec_all_digits(s@.subrange(start as int, i as int)),
            acc == spec_dec_val(s@.subrange(start as int, i as int)),
        decreases n - i,
    {
        let c = s.get_char(i);
        if !('0' <= c && c <= '9') {
            proof {
                assert(body[i - start] == c);
                assert(!spec_all_digits(body));
            }
            return None;
        }
        let d: u64 = (c as u32 as u64) - ('0' as u32 as u64);
        proof {
            assert(d == spec_digit_val(c));
        }
        if acc > (u64::MAX - d) / 10 {
            proof {
                let p = s@.subrange(start as int, i as int + 1);
                assert(p.drop_last() =~= s@.subrange(start as int, i as int));
                assert(p.last() == c);
                assert(spec_all_digits(p)) by {
                    assert(forall|k: int| 0 <= k < p.len() - 1 ==>
                        p[k] == #[trigger] s@.subrange(start as int, i as int)[k]);
                }
                assert(spec_dec_val(p) == acc * 10 + d);
                assert(acc * 10 + d > u64::MAX) by (nonlinear_arith)
                    requires acc > (u64::MAX - d) / 10, 0 <= d < 10, acc <= u64::MAX;
                assert(spec_all_digits(body) ==> spec_dec_val(body) > u64::MAX) by {
                    if spec_all_digits(body) {
                        assert(p =~= body.subrange(0, i - start + 1));
                        lemma_dec_val_prefix_le(body, i - start + 1);
                    }
                }
            }
            return None;
        }
        proof {
            let p = s@.subrange(start as int, i as int + 1);
            assert(p.drop_last() =~= s@.subrange(start as int, i as int));
            assert(p.last() == c);
            assert(spec_all_digits(p)) by {
                assert(forall|k: int| 0 <= k < p.len() - 1 ==>
                    p[k] == #[trigger] s@.subrange(start as int, i as int)[k]);
            }
            assert(acc * 10 + d <= u64::MAX) by (nonlinear_arith)
                requires acc <= (u64::MAX - d) / 10, 0 <= d < 10;
        }
        acc = acc * 10 + d;
        i = i + 1;
    }
    proof {
        assert(s@.subrange(start as int, i as int) =~= body);
    }
    Some(acc)
}

/// Parses a `u64` exactly as `str::parse::<u64>` does: an optional `+`
/// sign followed by one or more decimal digits, rejecting overflow.
pub fn parse_u64(s: &str) -> (r: Option<u64>)
    ensures
        r == spec_parse_u64(s@),
{
    let n = s.unicode_len();
    let start: usize = if n > 0 && s.get_char(0) == '+' { 1 } else { 0 };
    let r = parse_digits_u64(s, start, n);
    proof {
        if start == 0 {
            assert(s@.subrange(0, n as int) =~= s@);
        }
        lemma_dec_val_nonneg_or(s@.subrange(start as int, n as int));
    }
    r
}

/// Helper: the value of a digit body is non-negative whenever all its
/// characters are digits (vacuously restated for use at call sites).
proof fn lemma_dec_val_nonneg_or(s: Seq<char>)
    ensures
        spec_all_digits(s) ==> spec_dec_val(s) >= 0,
{
    if spec_all_digits(s) {
        lemma_dec_val_nonneg(s);
    }
}

/// Parses an `i64` exactly as `str::parse::<i64>` does: an optional `+`
/// or `-` sign followed by one or more decimal digits, rejecting overflow.
pub fn parse_i64(s: &str) -> (r: Option<i64>)
    ensures
        r == spec_parse_i64(s@),
{
    let n = s.unicode_len();
    if n > 0 && s.get_char(0) == '-' {
        let mag = parse_digits_u64(s, 1, n);
        proof {
            lemma_dec_val_nonneg_or(s@.subrange(1, n as int));
        }
        match mag {
            Some(v) => {
                if v <= 9223372036854775808u64 {
                    let r: i64 = if v == 9223372036854775808u64 {
                        i64::MIN
                    } else {
                        -(v as i64)
                    };
                    Some(r)
                } else {
                    None
                }
            }
            None => None,
        }
    } else {
        let start: usize = if n > 0 && s.get_char(0) == '+' { 1 } else { 0 };
        let body = parse_digits_u64(s, start, n);
        proof {
            if start == 0 {
                assert(s@.subrange(0, n as int) =~= s@);
            }
            lemma_dec_val_nonneg_or(s@.subrange(start as int, n as int));
        }
        match body {
            Some(v) => {
                if v <= i64::MAX as u64 {
                    Some(v as i64)
                } else {
                    None
                }
            }
            None => None,
        }
    }
}

// ---------------------------------------------------------------------------
// Round trip: rendering then parsing gives the value back
// ---------------------------------------------------------------------------

pub proof fn lemma_u64_chars_wf(n: int)
    requires
        0 <= n,
    ensures
        spec_u64_chars(n).len() >= 1,
        spec_all_digits(spec_u64_chars(n)),
        spec_dec_val(spec_u64_chars(n)) == n,
    decreases n,
{
    if n < 10 {
        let s = spec_u64_chars(n);
        assert(s == seq![spec_digit_char(n)]);
        lemma_digit_char_val(n);
        assert(s.len() == 1);
        assert(s.last() == spec_digit_char(n));
        assert(s.drop_last() =~= Seq::<char>::empty());
        assert(spec_dec_val(s.drop_last()) == 0);
        assert(spec_dec_val(s) == spec_digit_val(spec_digit_char(n)));
    } else {
        lemma_u64_chars_wf(n / 10);
        lemma_digit_char_val(n % 10);
        let p = spec_u64_chars(n / 10);
        let s = spec_u64_chars(n);
        assert(s == p.push(spec_digit_char(n % 10)));
        assert(s.drop_last() =~= p);
        assert(s.last() == spec_digit_char(n % 10));
        assert(spec_all_digits(s)) by {
            assert(forall|i: int| 0 <= i < s.len() - 1 ==> s[i] == #[trigger] p[i]);
        }
        assert(spec_dec_val(s) == (n / 10) * 10 + (n % 10));
        assert((n / 10) * 10 + (n % 10) == n) by (nonlinear_arith)
            requires n >= 0;
    }
}

/// Rendering an `i64` and parsing the text back returns the same value.
pub proof fn lemma_i64_round_trip(n: i64)
    ensures
        spec_parse_i64(spec_i64_chars(n as int)) == Some(n),
{
    if n >= 0 {
        lemma_u64_chars_wf(n as int);
        let s = spec_i64_chars(n as int);
        assert(s == spec_u64_chars(n as int));
        assert(spec_is_digit(s[0]));
        assert(s[0] != '-' && s[0] != '+');
        assert(spec_dec_val(s) <= i64::MAX);
    } else {
        let m = -(n as int);
        lemma_u64_chars_wf(m);
        let s = spec_i64_chars(n as int);
        assert(s == seq!['-'] + spec_u64_chars(m));
        assert(s[0] == '-');
        let body = s.subrange(1, s.len() as int);
        assert(body =~= spec_u64_chars(m));
        assert(-spec_dec_val(body) == n as int);
    }
}

// ---------------------------------------------------------------------------
// Hex encoding
// ---------------------------------------------------------------------------

pub open spec fn spec_hex_char(d: int) -> char {
    if d == 0 { '0' }
    else if d == 1 { '1' }
    else if d == 2 { '2' }
    else if d == 3 { '3' }
    else if d == 4 { '4' }
    else if d == 5 { '5' }
    else if d == 6 { '6' }
    else if d == 7 { '7' }
    else if d == 8 { '8' }
    else if d == 9 { '9' }
    else if d == 10 { 'a' }
    else if d == 11 { 'b' }
    else if d == 12 { 'c' }
    else if d == 13 { 'd' }
    else if d == 14 { 'e' }
    else { 'f' }
}

/// Lower-case hex rendering of a byte string, two characters per byte.
pub open spec fn spec_hex_lower(b: Seq<u8>) -> Seq<char>
    decreases b.len(),
{
    if b.len() == 0 {
        Seq::empty()
    } else {
        spec_hex_lower(b.drop_last())
            + seq![spec_hex_char(b.last() as int / 16), spec_hex_char(b.last() as int % 16)]
    }
}

pub proof fn lemma_hex_lower_len(b: Seq<u8>)
    ensures
        spec_hex_lower(b).len() == 2 * b.len(),
    decreases b.len(),
{
    if b.len() > 0 {
        lemma_hex_lower_len(b.drop_last());
    }
}

pub fn hex_char(d: u8) -> (c: char)
    requires
        d < 16,
    ensures
        c == spec_hex_char(d as int),
{
    if d == 0 { '0' }
    else if d == 1 { '1' }
    else if d == 2 { '2' }
    else if d == 3 { '3' }
    else if d == 4 { '4' }
    else if d == 5 { '5' }
    else if d == 6 { '6' }
    else if d == 7 { '7' }
    else if d == 8 { '8' }
    else if d == 9 { '9' }
    else if d == 10 { 'a' }
    else if d == 11 { 'b' }
    else if d == 12 { 'c' }
    else if d == 13 { 'd' }
    else if d == 14 { 'e' }
    else { 'f' }
}

pub fn to_hex_lower(b: &[u8]) -> (r: String)
    ensures
        r@ == spec_hex_lower(b@),
{
    let n = b.len();
    let mut s = String::new();
    let mut i: usize = 0;
    while i < n
        invariant
            i <= n,
            n == b@.len(),
            s@ == spec_hex_lower(b@.subrange(0, i as int)),
        decreases n - i,
    {
        let byte = b[i];
        let hi: u8 = byte / 16;
        let lo: u8 = byte % 16;
        push_char(&mut s, hex_char(hi));
        push_char(&mut s, hex_char(lo));
        proof {
            let p = b@.subrange(0, i as int + 1);
            assert(p.drop_last() =~= b@.subrange(0, i as int));
            assert(p.last() == byte);
            assert(s@ =~= spec_hex_lower(p));
        }
        i = i + 1;
    }
    proof {
        assert(b@.subrange(0, n as int) =~= b@);
    }
    s
}

// ---------------------------------------------------------------------------
// JSON string escaping
// ---------------------------------------------------------------------------

/// How a single character is written inside a JSON string literal: quote
/// and backslash get a backslash escape, control characters a `\u00XX`
/// escape, and every other character stands as itself.
pub open spec fn spec_json_escaped_char(c: char) -> Seq<char> {
    if c == '"' {
        seq!['\\', '"']
    } else if c == '\\' {
        seq!['\\', '\\']
    } else if (c as int) < 32 {
        seq!['\\', 'u', '0', '0', spec_hex_char((c as int) / 16), spec_hex_char((c as int) % 16)]
    } else {
        seq![c]
    }
}

/// The body of the JSON string literal that denotes `s`.
pub open spec fn spec_json_escaped(s: Seq<char>) -> Seq<char>
    decreases s.len(),
{
    if s.len() == 0 {
        Seq::empty()
    } else {
        spec_json_escaped(s.drop_last()) + spec_json_escaped_char(s.last())
    }
}

/// Appends the escaped body of `s` to `out`.
pub fn append_json_escaped(out: &mut String, s: &str)
    ensures
        final(out)@ == old(out)@ + spec_json_escaped(s@),
{
    let n = s.unicode_len();
    let mut i: usize = 0;
    while i < n
        invariant
            i <= n,
            n == s@.len(),
            out@ == old(out)@ + spec_json_escaped(s@.subrange(0, i as int)),
        decreases n - i,
    {
        let c = s.get_char(i);
        if c == '"' {
            push_char(out, '\\');
            push_char(out, '"');
        } else if c == '\\' {
            push_char(out, '\\');
            push_char(out, '\\');
        } else if (c as u32) < 32 {
            let code: u32 = c as u32;
            push_char(out, '\\');
            push_char(out, 'u');
            push_char(out, '0');
            push_char(out, '0');
            push_char(out, hex_char((code / 16) as u8));
            push_char(out, hex_char((code % 16) as u8));
        } else {
            push_char(out, c);
        }
        proof {
            let p = s@.subrange(0, i as int + 1);
            assert(p.drop_last() =~= s@.subrange(0, i as int));
            assert(p.last() == c);
            assert(out@ =~= old(out)@ + spec_json_escaped(p));
        }
        i = i + 1;
    }
    proof {
        assert(s@.subrange(0, n as int) =~= s@);
    }
}

// ---------------------------------------------------------------------------
// Substring search
// ---------------------------------------------------------------------------

/// `pat` occurs in `s` starting at position `i`.
pub open spec fn spec_match_at(s: Seq<char>, pat: Seq<char>, i: int) -> bool {
    0 <= i && i + pat.len() <= s.len() && s.subrange(i, i + pat.len() as int) == pat
}

pub open spec fn spec_contains_str(s: Seq<char>, pat: Seq<char>) -> bool {
    exists|i: int| spec_match_at(s, pat, i)
}

/// Compares `pat` against the characters of `s` starting at `i`.
pub fn match_at(s: &str, pat: &str, i: usize) -> (r: bool)
    requires
        i + pat@.len() <= s@.len(),
        s@.len() <= usize::MAX,
    ensures
        r == spec_match_at(s@, pat@, i as int),
{
    let m = pat.unicode_len();
    let mut j: usize = 0;
    while j < m
        invariant
            j <= m,
            m == pat@.len(),
            i + m <= s@.len() <= usize::MAX,
            forall|k: int| 0 <= k < j ==> s@[i + k] == #[trigger] pat@[k],
        decreases m - j,
    {
        if s.get_char(i + j) != pat.get_char(j) {
            proof {
                let sub = s@.subrange(i as int, i + m as int);
                assert(sub[j as int] == s@[i + j]);
                assert(sub != pat@);
            }
            return false;
        }
        j = j + 1;
    }
    proof {
        assert(s@.subrange(i as int, i + m as int) =~= pat@);
    }
    true
}

/// Whether `pat` occurs anywhere in `s`, as `str::contains` decides it.
pub fn str_contains(s: &str, pat: &str) -> (r: bool)
    ensures
        r == spec_contains_str(s@, pat@),
{
    let n = s.unicode_len();
    let m = pat.unicode_len();
    if m > n {
        proof {
            assert(forall|i: int| !spec_match_at(s@, pat@, i));
        }
        return false;
    }
    if m == 0 {
        proof {
            assert(s@.subrange(0, 0) =~= pat@);
            assert(spec_match_at(s@, pat@, 0));
        }
        return true;
    }
    let mut i: usize = 0;
    while i <= n - m
        invariant
            0 < m <= n,
            n == s@.len(),
            m == pat@.len(),
            i <= n - m + 1,
            forall|k: int| 0 <= k < i ==> !spec_match_at(s@, pat@, k),
        decreases n - m + 1 - i,
    {
        if match_at(s, pat, i) {
            return true;
        }
        i = i + 1;
    }
    proof {
        assert(forall|k: int| spec_match_at(s@, pat@, k) ==> 0 <= k <= n - m);
    }
    false
}

/// Whether two string slices hold the same characters.
pub fn str_eq(a: &str, b: &str) -> (r: bool)
    ensures
        r == (a@ == b@),
{
    let n = a.unicode_len();
    let m = b.unicode_len();
    if n != m {
        return false;
    }
    let r = match_at(a, b, 0);
    proof {
        assert(a@.subrange(0, m as int) =~= a@);
    }
    r
}

} // verus!
