use vstd::prelude::*;

use crate::cast::hex_digit;

verus! {

// ---------------------------------------------------------------------------
// Escaping of JSON string contents.
//
// The canonical form this library emits escapes exactly the quote, the
// backslash and the control characters, each as a `\u00XX` sequence; every
// other character stands for itself.
// ---------------------------------------------------------------------------

/// Characters that cannot stand raw inside a JSON string literal.
pub open spec fn needs_escape(c: char) -> bool {
    c == '"' || c == '\\' || (c as u32) < 32
}

/// The canonical rendering of one character inside a JSON string.
pub open spec fn escape_char(c: char) -> Seq<char> {
    if needs_escape(c) {
        seq![
            '\\',
            'u',
            '0',
            '0',
            hex_digit(((c as u32) / 16) as u8),
            hex_digit(((c as u32) % 16) as u8),
        ]
    } else {
        seq![c]
    }
}

/// The canonical rendering of a whole string body.
pub open spec fn escape_chars(s: Seq<char>) -> Seq<char>
    decreases s.len(),
{
    if s.len() == 0 {
        Seq::empty()
    } else {
        escape_char(s[0]) + escape_chars(s.drop_first())
    }
}

/// A quoted, escaped JSON string literal.
pub open spec fn json_string(s: Seq<char>) -> Seq<char> {
    seq!['"'] + escape_chars(s) + seq!['"']
}

proof fn lemma_escape_chars_push(s: Seq<char>, c: char)
    ensures
        escape_chars(s.push(c)) == escape_chars(s) + escape_char(c),
    decreases s.len(),
{
    let sp = s.push(c);
    if s.len() == 0 {
        assert(sp[0] == c);
        assert(sp.drop_first() =~= Seq::<char>::empty());
        assert(escape_chars(sp) == escape_char(c) + escape_chars(sp.drop_first()));
        assert(escape_chars(sp) =~= escape_chars(s) + escape_char(c));
    } else {
        assert(sp[0] == s[0]);
        assert(sp.drop_first() =~= s.drop_first().push(c));
        lemma_escape_chars_push(s.drop_first(), c);
        assert(escape_chars(sp) == escape_char(sp[0]) + escape_chars(sp.drop_first()));
        assert(escape_chars(sp) =~= escape_chars(s) + escape_char(c));
    }
}

// ---------------------------------------------------------------------------
// Decimal rendering of integers.
// ---------------------------------------------------------------------------

/// The decimal digits of a non-negative number, most significant first.
pub open spec fn dec_digits(n: int) -> Seq<char>
    recommends
        n >= 0,
    decreases n,
{
    if n < 10 {
        seq![hex_digit(if 0 <= n { (n % 10) as u8 } else { 0u8 })]
    } else {
        dec_digits(n / 10).push(hex_digit((n % 10) as u8))
    }
}

/// The decimal rendering of an integer, with a leading minus where needed.
pub open spec fn int_chars(v: int) -> Seq<char> {
    if v < 0 {
        seq!['-'] + dec_digits(-v)
    } else {
        dec_digits(v)
    }
}

// ---------------------------------------------------------------------------
// Parsing primitives. Each spec parser consumes a prefix of its input and
// hands back what it read together with the remaining suffix; `None` means
// the input does not start with anything acceptable. The exec scanners walk
// an index over a shared character vector and return exactly what the spec
// parsers say.
// ---------------------------------------------------------------------------

/// A decimal digit character.
pub open spec fn is_dec_digit(c: char) -> bool {
    '0' <= c && c <= '9'
}

/// The numeric value of a decimal digit character.
pub open spec fn digit_val(c: char) -> int {
    c as u32 - 48
}

/// The value of a hex digit character, or `None` for anything else.
pub open spec fn hex_val(c: char) -> Option<u8> {
    if '0' <= c && c <= '9' {
        Some(((c as u32) - 48) as u8)
    } else if 'a' <= c && c <= 'f' {
        Some(((c as u32) - 87) as u8)
    } else if 'A' <= c && c <= 'F' {
        Some(((c as u32) - 55) as u8)
    } else {
        None
    }
}

/// Matches an exact literal at the head of the input.
pub open spec fn parse_exact(s: Seq<char>, lit: Seq<char>) -> Option<Seq<char>> {
    if lit.len() <= s.len() && s.subrange(0, lit.len() as int) == lit {
        Some(s.skip(lit.len() as int))
    } else {
        None
    }
}

/// The character a two-hex-digit `\u00XX` escape denotes.
pub open spec fn escape_code_char(hi: u8, lo: u8) -> char {
    ((hi * 16 + lo) as u8) as char
}

/// Reads a JSON string body up to and over its closing quote.
///
/// Accepted escapes: `\u00XX`, and the one-character forms
/// `\" \\ \/ \b \f \n \r \t`. Anything else after a backslash is rejected.
pub open spec fn parse_string_body(s: Seq<char>) -> Option<(Seq<char>, Seq<char>)>
    decreases s.len(),
{
    if s.len() == 0 {
        None
    } else if s[0] == '"' {
        Some((Seq::empty(), s.drop_first()))
    } else if s[0] == '\\' {
        if s.len() >= 6 && s[1] == 'u' && s[2] == '0' && s[3] == '0' && hex_val(s[4]) is Some
            && hex_val(s[5]) is Some {
            match parse_string_body(s.skip(6)) {
                Some((c, r)) => Some(
                    (seq![escape_code_char(hex_val(s[4]).unwrap(), hex_val(s[5]).unwrap())] + c, r),
                ),
                None => None,
            }
        } else if s.len() >= 2 && single_escape(s[1]) is Some {
            match parse_string_body(s.skip(2)) {
                Some((c, r)) => Some((seq![single_escape(s[1]).unwrap()] + c, r)),
                None => None,
            }
        } else {
            None
        }
    } else {
        match parse_string_body(s.drop_first()) {
            Some((c, r)) => Some((seq![s[0]] + c, r)),
            None => None,
        }
    }
}

/// The character denoted by a one-character escape, if the escape exists.
pub open spec fn single_escape(e: char) -> Option<char> {
    if e == '"' {
        Some('"')
    } else if e == '\\' {
        Some('\\')
    } else if e == '/' {
        Some('/')
    } else if e == 'n' {
        Some('\n')
    } else if e == 'r' {
        Some('\r')
    } else if e == 't' {
        Some('\t')
    } else if e == 'b' {
        Some(8u8 as char)
    } else if e == 'f' {
        Some(12u8 as char)
    } else {
        None
    }
}

/// Reads a quoted JSON string literal.
pub open spec fn parse_json_string(s: Seq<char>) -> Option<(Seq<char>, Seq<char>)> {
    if s.len() > 0 && s[0] == '"' {
        parse_string_body(s.drop_first())
    } else {
        None
    }
}

/// The number of leading decimal digits.
pub open spec fn take_digits(s: Seq<char>) -> int
    decreases s.len(),
{
    if s.len() == 0 || !is_dec_digit(s[0]) {
        0
    } else {
        1 + take_digits(s.drop_first())
    }
}

/// The value of a sequence of decimal digits, most significant first.
pub open spec fn digits_value(d: Seq<char>) -> int
    decreases d.len(),
{
    if d.len() == 0 {
        0
    } else {
        digits_value(d.drop_last()) * 10 + digit_val(d.last())
    }
}

/// Reads a JSON integer: an optional minus, then at most nineteen digits,
/// with a value that fits a 64-bit signed integer.
pub open spec fn parse_int(s: Seq<char>) -> Option<(int, Seq<char>)> {
    let neg = s.len() > 0 && s[0] == '-';
    let t = if neg {
        s.drop_first()
    } else {
        s
    };
    let k = take_digits(t);
    if k == 0 || k > 19 {
        None
    } else {
        let m = digits_value(t.subrange(0, k));
        let v = if neg {
            -m
        } else {
            m
        };
        if v < -0x8000_0000_0000_0000 || 0x7fff_ffff_ffff_ffff < v {
            None
        } else {
            Some((v, t.skip(k)))
        }
    }
}

// ---------------------------------------------------------------------------
// Exec builders: append the canonical renderings to a character buffer.
// ---------------------------------------------------------------------------

/// Appends the characters of a literal.
pub fn push_lit(out: &mut Vec<char>, lit: &str)
    ensures
        final(out)@ == old(out)@ + lit@,
{
    let n = lit.unicode_len();
    let mut i: usize = 0;
    while i < n
        invariant
            n == lit@.len(),
            i <= n,
            out@ =~= old(out)@ + lit@.subrange(0, i as int),
        decreases n - i,
    {
        out.push(lit.get_char(i));
        i += 1;
        proof {
            assert(out@ =~= old(out)@ + lit@.subrange(0, i as int));
        }
    }
    proof {
        assert(out@ =~= old(out)@ + lit@);
    }
}

/// Appends the canonical escaping of a string body.
fn push_escaped(out: &mut Vec<char>, s: &str)
    ensures
        final(out)@ == old(out)@ + escape_chars(s@),
{
    let n = s.unicode_len();
    let mut i: usize = 0;
    proof {
        assert(s@.subrange(0, 0) =~= Seq::<char>::empty());
    }
    while i < n
        invariant
            n == s@.len(),
            i <= n,
            out@ =~= old(out)@ + escape_chars(s@.subrange(0, i as int)),
        decreases n - i,
    {
        let c = s.get_char(i);
        if c == '"' || c == '\\' || (c as u32) < 32 {
            let code = c as u32;
            out.push('\\');
            out.push('u');
            out.push('0');
            out.push('0');
            out.push(crate::cast::hex_digit_exec((code / 16) as u8));
            out.push(crate::cast::hex_digit_exec((code % 16) as u8));
        } else {
            out.push(c);
        }
        proof {
            lemma_escape_chars_push(s@.subrange(0, i as int), s@[i as int]);
            assert(s@.subrange(0, i + 1) =~= s@.subrange(0, i as int).push(s@[i as int]));
            assert(out@ =~= old(out)@ + escape_chars(s@.subrange(0, i + 1)));
        }
        i += 1;
    }
    proof {
        assert(s@.subrange(0, n as int) =~= s@);
    }
}

/// Appends a quoted, escaped JSON string literal.
pub fn push_json_string(out: &mut Vec<char>, s: &str)
    ensures
        final(out)@ == old(out)@ + json_string(s@),
{
    out.push('"');
    push_escaped(out, s);
    out.push('"');
    proof {
        assert(out@ =~= old(out)@ + json_string(s@));
    }
}

/// Appends the decimal digits of a non-negative 64-bit value.
fn push_u64_digits(out: &mut Vec<char>, m: u64)
    ensures
        final(out)@ == old(out)@ + dec_digits(m as int),
    decreases m,
{
    if m < 10 {
        out.push(crate::cast::hex_digit_exec(m as u8));
        proof {
            assert(out@ =~= old(out)@ + dec_digits(m as int));
        }
    } else {
        push_u64_digits(out, m / 10);
        out.push(crate::cast::hex_digit_exec((m % 10) as u8));
        proof {
            assert(out@ =~= old(out)@ + dec_digits(m as int));
        }
    }
}

/// Appends the decimal rendering of a signed 64-bit value.
pub fn push_i64(out: &mut Vec<char>, v: i64)
    ensures
        final(out)@ == old(out)@ + int_chars(v as int),
{
    if v < 0 {
        let m: u64 = if v == -0x8000_0000_0000_0000i64 {
            0x8000_0000_0000_0000u64
        } else {
            (-v) as u64
        };
        proof {
            assert(m as int == -(v as int));
        }
        out.push('-');
        push_u64_digits(out, m);
        proof {
            assert(out@ =~= old(out)@ + int_chars(v as int));
        }
    } else {
        push_u64_digits(out, v as u64);
    }
}

// ---------------------------------------------------------------------------
// Exec scanners: walk an index over a character vector and return exactly
// what the spec parsers say about the corresponding suffix.
// ---------------------------------------------------------------------------

/// The value of a hex digit character.
fn hex_val_exec(c: char) -> (r: Option<u8>)
    ensures
        r == hex_val(c),
        r matches Some(v) ==> v < 16,
{
    if '0' <= c && c <= '9' {
        Some((c as u32 - 48) as u8)
    } else if 'a' <= c && c <= 'f' {
        Some((c as u32 - 87) as u8)
    } else if 'A' <= c && c <= 'F' {
        Some((c as u32 - 55) as u8)
    } else {
        None
    }
}

/// The character a one-character escape denotes.
fn single_escape_exec(e: char) -> (r: Option<char>)
    ensures
        r == single_escape(e),
{
    if e == '"' {
        Some('"')
    } else if e == '\\' {
        Some('\\')
    } else if e == '/' {
        Some('/')
    } else if e == 'n' {
        Some('\n')
    } else if e == 'r' {
        Some('\r')
    } else if e == 't' {
        Some('\t')
    } else if e == 'b' {
        Some(8u8 as char)
    } else if e == 'f' {
        Some(12u8 as char)
    } else {
        None
    }
}

proof fn lemma_acc_step(a: Seq<char>, c: char, b: Seq<char>)
    ensures
        a + (seq![c] + b) == a.push(c) + b,
{
    assert(a + (seq![c] + b) =~= a.push(c) + b);
}

/// Matches a literal at `start`; on success the new index stands right
/// after it.
#[verifier::loop_isolation(false)]
pub fn scan_exact(s: &Vec<char>, start: usize, lit: &str) -> (r: Option<usize>)
    requires
        start <= s@.len(),
    ensures
        match r {
            Some(j) => {
                &&& start <= j <= s@.len()
                &&& j == start + lit@.len()
                &&& parse_exact(s@.skip(start as int), lit@) == Some(s@.skip(j as int))
            },
            None => parse_exact(s@.skip(start as int), lit@) is None,
        },
{
    let n = lit.unicode_len();
    if n > s.len() - start {
        return None;
    }
    let mut i: usize = 0;
    while i < n
        invariant
            n == lit@.len(),
            start + n <= s@.len(),
            i <= n,
            forall|k: int| 0 <= k < i ==> s@[start + k] == lit@[k],
        decreases n - i,
    {
        if s[start + i] != lit.get_char(i) {
            proof {
                let rem = s@.skip(start as int);
                assert(rem[i as int] == s@[start + i]);
                assert(rem.subrange(0, n as int) != lit@) by {
                    assert(rem.subrange(0, n as int)[i as int] != lit@[i as int]);
                }
            }
            return None;
        }
        i += 1;
    }
    proof {
        let rem = s@.skip(start as int);
        assert(rem.subrange(0, n as int) =~= lit@);
        assert(rem.skip(n as int) =~= s@.skip(start + n));
    }
    Some(start + n)
}

/// Reads a quoted JSON string starting at `start`; on success the new
/// index stands right after the closing quote.
#[verifier::loop_isolation(false)]
pub fn scan_json_string(s: &Vec<char>, start: usize) -> (r: Option<(Vec<char>, usize)>)
    requires
        start <= s@.len(),
    ensures
        match r {
            Some((content, j)) => {
                &&& start < j <= s@.len()
                &&& parse_json_string(s@.skip(start as int)) == Some((content@, s@.skip(j as int)))
            },
            None => parse_json_string(s@.skip(start as int)) is None,
        },
{
    if start >= s.len() || s[start] != '"' {
        return None;
    }
    proof {
        assert(s@.skip(start as int)[0] == s@[start as int]);
        assert(s@.skip(start as int).drop_first() =~= s@.skip(start + 1));
    }
    let mut content: Vec<char> = Vec::new();
    let mut i: usize = start + 1;
    while i < s.len()
        invariant
            start + 1 <= i <= s@.len(),
            parse_string_body(s@.skip(start + 1)) == (match parse_string_body(s@.skip(i as int)) {
                Some((c, r)) => Some::<(Seq<char>, Seq<char>)>((content@ + c, r)),
                None => None::<(Seq<char>, Seq<char>)>,
            }),
        decreases s@.len() - i,
    {
        let ghost rem = s@.skip(i as int);
        proof {
            assert(rem[0] == s@[i as int]);
        }
        let c = s[i];
        if c == '"' {
            proof {
                assert(rem.drop_first() =~= s@.skip(i + 1));
                assert(content@ + Seq::<char>::empty() =~= content@);
            }
            return Some((content, i + 1));
        } else if c == '\\' {
            if s.len() - i < 2 {
                proof {
                    assert(rem.len() < 6 && rem.len() < 2);
                }
                return None;
            }
            proof {
                assert(rem[1] == s@[i + 1]);
            }
            let e = s[i + 1];
            if e == 'u' {
                if s.len() - i >= 6 && s[i + 2] == '0' && s[i + 3] == '0' {
                    proof {
                        assert(rem[2] == s@[i + 2]);
                        assert(rem[3] == s@[i + 3]);
                        assert(rem[4] == s@[i + 4]);
                        assert(rem[5] == s@[i + 5]);
                    }
                    let h1 = hex_val_exec(s[i + 4]);
                    let h2 = hex_val_exec(s[i + 5]);
                    match (h1, h2) {
                        (Some(hi), Some(lo)) => {
                            let ch = (hi * 16 + lo) as char;
                            proof {
                                assert(rem.skip(6) =~= s@.skip(i + 6));
                                assert(escape_code_char(hi, lo) == ch);
                                if parse_string_body(s@.skip(i + 6)) is Some {
                                    let inner = parse_string_body(s@.skip(i + 6)).unwrap();
                                    lemma_acc_step(content@, ch, inner.0);
                                }
                            }
                            content.push(ch);
                            i += 6;
                        },
                        _ => {
                            return None;
                        },
                    }
                } else {
                    return None;
                }
            } else {
                match single_escape_exec(e) {
                    Some(ch) => {
                        proof {
                            assert(rem.skip(2) =~= s@.skip(i + 2));
                            if parse_string_body(s@.skip(i + 2)) is Some {
                                let inner = parse_string_body(s@.skip(i + 2)).unwrap();
                                lemma_acc_step(content@, ch, inner.0);
                            }
                        }
                        content.push(ch);
                        i += 2;
                    },
                    None => {
                        return None;
                    },
                }
            }
        } else {
            proof {
                assert(rem.drop_first() =~= s@.skip(i + 1));
                if parse_string_body(s@.skip(i + 1)) is Some {
                    let inner = parse_string_body(s@.skip(i + 1)).unwrap();
                    lemma_acc_step(content@, c, inner.0);
                }
            }
            content.push(c);
            i += 1;
        }
    }
    proof {
        assert(s@.skip(i as int).len() == 0);
    }
    None
}

/// Ten to the `n`.
pub open spec fn pow10(n: int) -> int
    decreases n,
{
    if n <= 0 {
        1
    } else {
        10 * pow10(n - 1)
    }
}

proof fn lemma_pow10_le(a: int, b: int)
    requires
        0 <= a <= b,
    ensures
        pow10(a) <= pow10(b),
    decreases b,
{
    if a < b {
        lemma_pow10_le(a, b - 1);
        assert(pow10(b - 1) >= 1) by {
            lemma_pow10_pos(b - 1);
        }
    }
}

proof fn lemma_pow10_pos(n: int)
    ensures
        pow10(n) >= 1,
    decreases n,
{
    if n > 0 {
        lemma_pow10_pos(n - 1);
    }
}

proof fn lemma_digits_value_bound(d: Seq<char>)
    requires
        forall|k: int| 0 <= k < d.len() ==> is_dec_digit(#[trigger] d[k]),
    ensures
        0 <= digits_value(d) < pow10(d.len() as int),
    decreases d.len(),
{
    if d.len() > 0 {
        lemma_digits_value_bound(d.drop_last());
        assert(digit_val(d.last()) <= 9);
    }
}

proof fn lemma_take_digits_bounds(s: Seq<char>)
    ensures
        0 <= take_digits(s) <= s.len(),
        forall|k: int| 0 <= k < take_digits(s) ==> is_dec_digit(#[trigger] s[k]),
        take_digits(s) < s.len() ==> !is_dec_digit(s[take_digits(s)]),
    decreases s.len(),
{
    if s.len() > 0 && is_dec_digit(s[0]) {
        lemma_take_digits_bounds(s.drop_first());
        let t = take_digits(s);
        assert(t == 1 + take_digits(s.drop_first()));
        assert forall|k: int| 0 <= k < t implies is_dec_digit(#[trigger] s[k]) by {
            if k > 0 {
                assert(s[k] == s.drop_first()[k - 1]);
            }
        }
        if t < s.len() {
            assert(s[t] == s.drop_first()[t - 1]);
        }
    }
}

proof fn lemma_take_digits_upto(s: Seq<char>, i: int, j: int)
    requires
        0 <= i <= j <= s.len(),
        forall|k: int| i <= k < j ==> is_dec_digit(#[trigger] s[k]),
        j == s.len() || !is_dec_digit(s[j]),
    ensures
        take_digits(s.skip(i)) == j - i,
    decreases j - i,
{
    if i == j {
        if j < s.len() {
            assert(s.skip(i)[0] == s[i]);
        }
    } else {
        assert(s.skip(i)[0] == s[i]);
        assert(s.skip(i).drop_first() =~= s.skip(i + 1));
        lemma_take_digits_upto(s, i + 1, j);
    }
}

/// Reads a JSON integer starting at `start`.
#[verifier::loop_isolation(false)]
pub fn scan_i64(s: &Vec<char>, start: usize) -> (r: Option<(i64, usize)>)
    requires
        start <= s@.len(),
    ensures
        match r {
            Some((v, j)) => {
                &&& start < j <= s@.len()
                &&& parse_int(s@.skip(start as int)) == Some((v as int, s@.skip(j as int)))
            },
            None => parse_int(s@.skip(start as int)) is None,
        },
{
    let neg = start < s.len() && s[start] == '-';
    let t_start = if neg {
        start + 1
    } else {
        start
    };
    let ghost t = s@.skip(t_start as int);
    proof {
        if start < s@.len() {
            assert(s@.skip(start as int)[0] == s@[start as int]);
        }
        if neg {
            assert(s@.skip(start as int).drop_first() =~= t);
        }
    }
    // count the digit run
    let mut j: usize = t_start;
    while j < s.len() && '0' <= s[j] && s[j] <= '9'
        invariant
            t_start <= j <= s@.len(),
            forall|k: int| t_start <= k < j ==> is_dec_digit(#[trigger] s@[k]),
        decreases s@.len() - j,
    {
        j += 1;
    }
    proof {
        lemma_take_digits_upto(s@, t_start as int, j as int);
        assert(take_digits(t) == j - t_start);
    }
    let k = j - t_start;
    if k == 0 || k > 19 {
        return None;
    }
    let ghost d = t.subrange(0, k as int);
    proof {
        assert(forall|q: int| 0 <= q < d.len() ==> is_dec_digit(#[trigger] d[q]));
        lemma_digits_value_bound(d);
    }
    // accumulate the value
    let mut m: u64 = 0;
    let mut p: usize = t_start;
    while p < j
        invariant
            t_start <= p <= j,
            m == digits_value(t.subrange(0, p - t_start)),
            0 <= m < pow10(p - t_start),
        decreases j - p,
    {
        let c = s[p];
        proof {
            assert(is_dec_digit(s@[p as int]));
            assert(t.subrange(0, p + 1 - t_start).drop_last() =~= t.subrange(0, p - t_start));
            assert(t.subrange(0, p + 1 - t_start).last() == s@[p as int]);
            lemma_pow10_le(p - t_start + 1, 19);
            assert(pow10(19) == 10_000_000_000_000_000_000) by {
                reveal_with_fuel(pow10, 20);
            }
        }
        let dv = (c as u32 - 48) as u64;
        m = m * 10 + dv;
        p += 1;
    }
    proof {
        assert(t.subrange(0, j - t_start) =~= d);
        assert(t.skip(k as int) =~= s@.skip(j as int));
    }
    if neg {
        if m > 0x8000_0000_0000_0000u64 {
            return None;
        }
        let v: i64 = if m == 0x8000_0000_0000_0000u64 {
            -0x8000_0000_0000_0000i64
        } else {
            -(m as i64)
        };
        Some((v, j))
    } else {
        if m > 0x7fff_ffff_ffff_ffffu64 {
            return None;
        }
        Some((m as i64, j))
    }
}

// ---------------------------------------------------------------------------
// Round-trip lemmas: parsing the canonical rendering restores the value.
// ---------------------------------------------------------------------------

pub proof fn lemma_parse_exact_prefix(lit: Seq<char>, rest: Seq<char>)
    ensures
        parse_exact(lit + rest, lit) == Some(rest),
{
    assert((lit + rest).subrange(0, lit.len() as int) =~= lit);
    assert((lit + rest).skip(lit.len() as int) =~= rest);
}

proof fn lemma_hex_digit_val(n: u8)
    requires
        n < 16,
    ensures
        hex_val(hex_digit(n)) == Some(n),
{
    assert(hex_digit(n) as u32 == if n < 10 {
        48 + n
    } else {
        87 + n
    });
}

proof fn lemma_parse_string_body_of_escaped(content: Seq<char>, rest: Seq<char>)
    ensures
        parse_string_body(escape_chars(content) + seq!['"'] + rest) == Some((content, rest)),
    decreases content.len(),
{
    let s = escape_chars(content) + seq!['"'] + rest;
    if content.len() == 0 {
        assert(s =~= seq!['"'] + rest);
        assert(s[0] == '"');
        assert(s.drop_first() =~= rest);
        assert(parse_string_body(s) == Some((Seq::<char>::empty(), rest)));
        assert(Seq::<char>::empty() =~= content);
    } else {
        let c = content[0];
        let cs = content.drop_first();
        let tail = escape_chars(cs) + seq!['"'] + rest;
        assert(escape_chars(content) == escape_char(c) + escape_chars(cs));
        lemma_parse_string_body_of_escaped(cs, rest);
        if needs_escape(c) {
            let code = c as u32;
            let hi = (code / 16) as u8;
            let lo = (code % 16) as u8;
            assert(s =~= seq!['\\', 'u', '0', '0', hex_digit(hi), hex_digit(lo)] + tail);
            assert(s.len() >= 6);
            assert(s[0] == '\\' && s[1] == 'u' && s[2] == '0' && s[3] == '0');
            lemma_hex_digit_val(hi);
            lemma_hex_digit_val(lo);
            assert(s[4] == hex_digit(hi) && s[5] == hex_digit(lo));
            assert(s.skip(6) =~= tail);
            assert(code < 256) by {
                if c == '"' {
                    assert(c as u32 == 34);
                } else if c == '\\' {
                    assert(c as u32 == 92);
                }
            }
            assert(escape_code_char(hi, lo) == c) by {
                assert(hi * 16 + lo == code);
                let c2 = escape_code_char(hi, lo);
                assert(c2 as u32 == code);
                vstd::utf8::char_u32_cast(c, code);
                vstd::utf8::char_u32_cast(c2, code);
            }
            assert(parse_string_body(s) == Some((seq![c] + cs, rest)));
            assert(seq![c] + cs =~= content);
        } else {
            assert(s =~= seq![c] + tail);
            assert(s[0] == c);
            assert(c != '"' && c != '\\');
            assert(s.drop_first() =~= tail);
            assert(parse_string_body(s) == Some((seq![c] + cs, rest)));
            assert(seq![c] + cs =~= content);
        }
    }
}

pub proof fn lemma_parse_json_string_of(content: Seq<char>, rest: Seq<char>)
    ensures
        parse_json_string(json_string(content) + rest) == Some((content, rest)),
{
    let s = json_string(content) + rest;
    assert(s[0] == '"');
    assert(s.drop_first() =~= escape_chars(content) + seq!['"'] + rest);
    lemma_parse_string_body_of_escaped(content, rest);
}

proof fn lemma_dec_digits_facts(n: int)
    requires
        n >= 0,
    ensures
        1 <= dec_digits(n).len(),
        forall|k: int| 0 <= k < dec_digits(n).len() ==> is_dec_digit(#[trigger] dec_digits(n)[k]),
        digits_value(dec_digits(n)) == n,
    decreases n,
{
    if n < 10 {
        let d = dec_digits(n);
        assert(d =~= seq![hex_digit((n % 10) as u8)]);
        assert(hex_digit((n % 10) as u8) as u32 == 48 + n);
        assert(is_dec_digit(d[0]));
        assert(d.drop_last() =~= Seq::<char>::empty());
        assert(digits_value(Seq::<char>::empty()) == 0);
        assert(digits_value(d) == digit_val(d.last()));
        assert(digit_val(d.last()) == n);
    } else {
        lemma_dec_digits_facts(n / 10);
        let d = dec_digits(n);
        let dd = dec_digits(n / 10);
        assert(d == dd.push(hex_digit((n % 10) as u8)));
        assert(hex_digit((n % 10) as u8) as u32 == 48 + (n % 10));
        assert(forall|k: int| 0 <= k < d.len() ==> is_dec_digit(#[trigger] d[k])) by {
            assert(forall|k: int| 0 <= k < dd.len() ==> d[k] == dd[k]);
        }
        assert(d.drop_last() =~= dd);
        assert(digits_value(d) == digits_value(dd) * 10 + digit_val(d.last()));
        assert(digit_val(d.last()) == n % 10);
        assert(digits_value(d) == (n / 10) * 10 + n % 10);
    }
}

proof fn lemma_dec_digits_len_le(n: int, k: int)
    requires
        0 <= n < pow10(k),
        1 <= k,
    ensures
        dec_digits(n).len() <= k,
    decreases n,
{
    if n >= 10 {
        assert(pow10(k) == 10 * pow10(k - 1));
        assert(n / 10 < pow10(k - 1)) by {
            if n / 10 >= pow10(k - 1) {
                assert(n >= (n / 10) * 10);
                assert((n / 10) * 10 >= pow10(k - 1) * 10) by (nonlinear_arith)
                    requires
                        n / 10 >= pow10(k - 1),
                ;
            }
        }
        assert(k - 1 >= 1) by {
            assert(n / 10 >= 1);
            if k - 1 == 0 {
                assert(pow10(k - 1) == 1);
            }
        }
        lemma_dec_digits_len_le(n / 10, k - 1);
    }
}

pub proof fn lemma_parse_int_of_chars(v: int, rest: Seq<char>)
    requires
        -0x8000_0000_0000_0000 <= v <= 0x7fff_ffff_ffff_ffff,
        rest.len() == 0 || !is_dec_digit(rest[0]),
    ensures
        parse_int(int_chars(v) + rest) == Some((v, rest)),
{
    assert(pow10(19) == 10_000_000_000_000_000_000) by {
        reveal_with_fuel(pow10, 20);
    }
    let mag = if v < 0 {
        -v
    } else {
        v
    };
    lemma_dec_digits_facts(mag);
    let d = dec_digits(mag);
    // the digit run is at most 19 long because the magnitude fits 64 bits
    lemma_dec_digits_len_le(mag, 19);
    if v >= 0 {
        let s = d + rest;
        assert(int_chars(v) + rest =~= s);
        assert(s[0] == d[0]);
        assert(is_dec_digit(s[0]));
        assert(s[0] != '-');
        lemma_take_digits_upto(s, 0, d.len() as int);
        assert(s.skip(0) =~= s);
        assert(take_digits(s) == d.len());
        assert(s.subrange(0, d.len() as int) =~= d);
        assert(s.skip(d.len() as int) =~= rest);
        assert(parse_int(s) == Some((v, rest)));
    } else {
        let s = seq!['-'] + d + rest;
        assert(int_chars(v) + rest =~= s);
        assert(s[0] == '-');
        assert(s.drop_first() =~= d + rest);
        let t = d + rest;
        assert(forall|k: int| 0 <= k < d.len() ==> t[k] == d[k]);
        lemma_take_digits_upto(t, 0, d.len() as int);
        assert(t.skip(0) =~= t);
        assert(take_digits(t) == d.len());
        assert(t.subrange(0, d.len() as int) =~= d);
        assert(t.skip(d.len() as int) =~= rest);
        assert(parse_int(s) == Some((v, rest)));
    }
}

} // verus!
