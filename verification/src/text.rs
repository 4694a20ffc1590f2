//! Character-level building blocks: JSON string escaping, decimal integer
//! text, and the spec-level scanners that the session codec's parser is
//! proved against.

use vstd::prelude::*;
use vstd::string::*;
use vstd::arithmetic::div_mod::lemma_fundamental_div_mod;

verus! {

// ---------------------------------------------------------------------------
// character classes
// ---------------------------------------------------------------------------

pub open spec fn is_digit(c: char) -> bool {
    48 <= c as nat <= 57
}

pub open spec fn digit_val(c: char) -> nat {
    (c as nat - 48) as nat
}

pub open spec fn digit_char(d: nat) -> char {
    ((d + 48) as char)
}

pub open spec fn is_hex(c: char) -> bool {
    is_digit(c) || (97 <= c as nat <= 102)
}

pub open spec fn hex_val(c: char) -> nat {
    if is_digit(c) {
        digit_val(c)
    } else {
        (c as nat - 87) as nat
    }
}

pub open spec fn hex_char(d: nat) -> char {
    if d < 10 {
        ((d + 48) as char)
    } else {
        ((d + 87) as char)
    }
}

fn is_digit_c(c: char) -> (r: bool)
    ensures
        r == is_digit(c),
{
    let b = c as u32;
    48 <= b && b <= 57
}

fn hex_c(d: u64) -> (r: char)
    requires
        d < 16,
    ensures
        r == hex_char(d as nat),
{
    if d < 10 {
        ((d as u8) + 48) as char
    } else {
        ((d as u8) + 87) as char
    }
}

// ---------------------------------------------------------------------------
// JSON string escaping
// ---------------------------------------------------------------------------

/// How one character appears inside a JSON string literal: quote and
/// backslash get a backslash escape, control characters a `\u00XX` escape,
/// everything else stands as itself.
pub open spec fn escape_char(c: char) -> Seq<char> {
    if c == '"' {
        seq!['\\', '"']
    } else if c == '\\' {
        seq!['\\', '\\']
    } else if (c as nat) < 32 {
        seq!['\\', 'u', '0', '0', hex_char((c as nat) / 16), hex_char((c as nat) % 16)]
    } else {
        seq![c]
    }
}

pub open spec fn escape_text(s: Seq<char>) -> Seq<char>
    decreases s.len(),
{
    if s.len() == 0 {
        Seq::empty()
    } else {
        escape_char(s[0]) + escape_text(s.skip(1))
    }
}

/// A JSON string literal: the escaped text between two quotes.
pub open spec fn json_quoted(s: Seq<char>) -> Seq<char> {
    seq!['"'] + escape_text(s) + seq!['"']
}

/// A character's code point determines the character.
pub proof fn lemma_char_code(c: char, d: char)
    ensures
        c as nat == d as nat ==> c == d,
{
    if c as nat == d as nat {
        assert(c == d) by {
            assert(((c as nat) as char) == c);
            assert(((d as nat) as char) == d);
        }
    }
}

/// A code point below the surrogate range casts to the character it names.
pub proof fn lemma_code_char(b: nat)
    requires
        b < 0xD800,
    ensures
        ((b as char) as nat) == b,
{
}

proof fn lemma_escape_text_push(s: Seq<char>, c: char)
    ensures
        escape_text(s.push(c)) == escape_text(s) + escape_char(c),
    decreases s.len(),
{
    if s.len() == 0 {
        assert(s.push(c)[0] == c);
        assert(s.push(c).skip(1) =~= Seq::<char>::empty());
        assert(escape_text(s.push(c)) == escape_char(c) + escape_text(s.push(c).skip(1)));
        assert(escape_text(s.push(c).skip(1)) == Seq::<char>::empty());
        assert(escape_char(c) + Seq::<char>::empty() =~= Seq::<char>::empty() + escape_char(c));
    } else {
        assert(s.push(c)[0] == s[0]);
        assert(s.push(c).skip(1) =~= s.skip(1).push(c));
        lemma_escape_text_push(s.skip(1), c);
        assert(escape_text(s.push(c)) == escape_char(s[0]) + (escape_text(s.skip(1))
            + escape_char(c)));
        assert(escape_text(s) == escape_char(s[0]) + escape_text(s.skip(1)));
        assert(escape_char(s[0]) + (escape_text(s.skip(1)) + escape_char(c)) =~= (escape_char(s[0])
            + escape_text(s.skip(1))) + escape_char(c));
    }
}

/// Appends the escaped form of `s` to `out`.
pub fn push_escaped(out: &mut Vec<char>, s: &str)
    ensures
        final(out)@ == old(out)@ + escape_text(s@),
{
    let n = s.unicode_len();
    let mut i: usize = 0;
    proof {
        assert(s@.subrange(0, 0) =~= Seq::<char>::empty());
        assert(out@ =~= old(out)@ + escape_text(s@.subrange(0, 0)));
    }
    while i < n
        invariant
            i <= n,
            n == s@.len(),
            out@ == old(out)@ + escape_text(s@.subrange(0, i as int)),
        decreases n - i,
    {
        let c = s.get_char(i);
        let b = c as u32;
        if c == '"' {
            out.push('\\');
            out.push('"');
        } else if c == '\\' {
            out.push('\\');
            out.push('\\');
        } else if b < 32 {
            out.push('\\');
            out.push('u');
            out.push('0');
            out.push('0');
            out.push(hex_c((b / 16) as u64));
            out.push(hex_c((b % 16) as u64));
        } else {
            out.push(c);
        }
        proof {
            lemma_escape_text_push(s@.subrange(0, i as int), c);
            assert(s@.subrange(0, i + 1) =~= s@.subrange(0, i as int).push(c));
            assert(out@ =~= old(out)@ + escape_text(s@.subrange(0, i + 1)));
        }
        i += 1;
    }
    proof {
        assert(s@.subrange(0, n as int) =~= s@);
    }
}

/// Appends `s` as a JSON string literal (quotes and escapes) to `out`.
pub fn push_quoted(out: &mut Vec<char>, s: &str)
    ensures
        final(out)@ == old(out)@ + json_quoted(s@),
{
    out.push('"');
    push_escaped(out, s);
    out.push('"');
    proof {
        assert(out@ =~= old(out)@ + json_quoted(s@));
    }
}

// ---------------------------------------------------------------------------
// decimal integer text
// ---------------------------------------------------------------------------

pub open spec fn digits_of(n: nat) -> Seq<char>
    decreases n,
{
    if n < 10 {
        seq![digit_char(n)]
    } else {
        digits_of(n / 10).push(digit_char(n % 10))
    }
}

/// The canonical decimal text of an integer: a minus sign for negative
/// values, no leading zeros.
pub open spec fn int_text(n: int) -> Seq<char> {
    if n < 0 {
        seq!['-'] + digits_of((-n) as nat)
    } else {
        digits_of(n as nat)
    }
}

pub open spec fn digits_val(ds: Seq<char>) -> nat
    decreases ds.len(),
{
    if ds.len() == 0 {
        0
    } else {
        digits_val(ds.drop_last()) * 10 + digit_val(ds.last())
    }
}

pub open spec fn all_digits(ds: Seq<char>) -> bool {
    forall|k: int| 0 <= k < ds.len() ==> is_digit(#[trigger] ds[k])
}

pub open spec fn pow10(k: nat) -> nat
    decreases k,
{
    if k == 0 {
        1
    } else {
        10 * pow10((k - 1) as nat)
    }
}

fn digit_c(d: u64) -> (r: char)
    requires
        d < 10,
    ensures
        r == digit_char(d as nat),
{
    ((d as u8) + 48) as char
}

/// Appends the decimal digits of `n` to `out`.
pub fn push_u64_digits(out: &mut Vec<char>, n: u64)
    ensures
        final(out)@ == old(out)@ + digits_of(n as nat),
    decreases n,
{
    if n < 10 {
        out.push(digit_c(n));
        proof {
            assert(out@ =~= old(out)@ + digits_of(n as nat));
        }
    } else {
        push_u64_digits(out, n / 10);
        out.push(digit_c(n % 10));
        proof {
            assert(out@ =~= old(out)@ + digits_of(n as nat));
        }
    }
}

/// Appends the decimal text of `n` (sign included) to `out`.
pub fn push_i64(out: &mut Vec<char>, n: i64)
    ensures
        final(out)@ == old(out)@ + int_text(n as int),
{
    if n >= 0 {
        push_u64_digits(out, n as u64);
    } else {
        out.push('-');
        let m: u64 = ((-(n + 1)) as u64) + 1;
        proof {
            assert(m as nat == (-(n as int)) as nat);
        }
        push_u64_digits(out, m);
        proof {
            assert(out@ =~= old(out)@ + int_text(n as int));
        }
    }
}

// ---------------------------------------------------------------------------
// spec-level scanners (each consumes a prefix and returns the remainder)
// ---------------------------------------------------------------------------

/// Succeeds when `lit` is a prefix of `v`, returning what follows it.
pub open spec fn take_lit(v: Seq<char>, lit: Seq<char>) -> Option<Seq<char>> {
    if lit.len() <= v.len() && v.subrange(0, lit.len() as int) == lit {
        Some(v.skip(lit.len() as int))
    } else {
        None
    }
}

/// Scans a JSON string body (the opening quote already consumed) up to the
/// closing quote, resolving escapes; yields the text and the remainder.
pub open spec fn scan_string(v: Seq<char>) -> Option<(Seq<char>, Seq<char>)>
    decreases v.len(),
{
    if v.len() == 0 {
        None
    } else if v[0] == '"' {
        Some((Seq::empty(), v.skip(1)))
    } else if v[0] == '\\' {
        if v.len() >= 2 && (v[1] == '"' || v[1] == '\\') {
            match scan_string(v.skip(2)) {
                Some(sr) => Some((seq![v[1]] + sr.0, sr.1)),
                None => None,
            }
        } else if v.len() >= 6 && v[1] == 'u' && v[2] == '0' && v[3] == '0' && is_hex(v[4])
            && is_hex(v[5]) && hex_val(v[4]) * 16 + hex_val(v[5]) < 32 {
            match scan_string(v.skip(6)) {
                Some(sr) => Some((seq![((hex_val(v[4]) * 16 + hex_val(v[5])) as char)] + sr.0, sr.1)),
                None => None,
            }
        } else {
            None
        }
    } else {
        match scan_string(v.skip(1)) {
            Some(sr) => Some((seq![v[0]] + sr.0, sr.1)),
            None => None,
        }
    }
}

/// The maximal run of decimal digits at the head of `v`, and the remainder.
pub open spec fn scan_digits(v: Seq<char>) -> (Seq<char>, Seq<char>)
    decreases v.len(),
{
    if v.len() > 0 && is_digit(v[0]) {
        let dr = scan_digits(v.skip(1));
        (seq![v[0]] + dr.0, dr.1)
    } else {
        (Seq::empty(), v)
    }
}

/// Parses a canonical decimal integer (optional minus sign, no leading
/// zeros, value within `i64`); yields the value and the remainder.
pub open spec fn parse_int(v: Seq<char>) -> Option<(int, Seq<char>)> {
    let neg = v.len() > 0 && v[0] == '-';
    let w = if neg {
        v.skip(1)
    } else {
        v
    };
    let dr = scan_digits(w);
    if dr.0.len() == 0 {
        None
    } else if dr.0.len() > 1 && dr.0[0] == '0' {
        None
    } else {
        let m = digits_val(dr.0) as int;
        let n = if neg {
            -m
        } else {
            m
        };
        if -9223372036854775808 <= n <= 9223372036854775807 {
            Some((n, dr.1))
        } else {
            None
        }
    }
}

// ---------------------------------------------------------------------------
// executable parsers, each proved against the spec scanner it mirrors
// ---------------------------------------------------------------------------

/// Collects the characters of `s` into a vector.
pub fn str_chars(s: &str) -> (r: Vec<char>)
    ensures
        r@ == s@,
{
    let n = s.unicode_len();
    let mut r: Vec<char> = Vec::new();
    let mut i: usize = 0;
    while i < n
        invariant
            i <= n,
            n == s@.len(),
            r@ == s@.subrange(0, i as int),
        decreases n - i,
    {
        r.push(s.get_char(i));
        proof {
            assert(r@ =~= s@.subrange(0, i + 1));
        }
        i += 1;
    }
    proof {
        assert(r@ =~= s@);
    }
    r
}

/// Appends the characters of `s` to `out`.
pub fn push_chars(out: &mut Vec<char>, s: &str)
    ensures
        final(out)@ == old(out)@ + s@,
{
    let n = s.unicode_len();
    let mut i: usize = 0;
    proof {
        assert(out@ =~= old(out)@ + s@.subrange(0, 0));
    }
    while i < n
        invariant
            i <= n,
            n == s@.len(),
            out@ == old(out)@ + s@.subrange(0, i as int),
        decreases n - i,
    {
        out.push(s.get_char(i));
        proof {
            assert(s@.subrange(0, i + 1) =~= s@.subrange(0, i as int).push(s@[i as int]));
            assert(out@ =~= old(out)@ + s@.subrange(0, i + 1));
        }
        i += 1;
    }
    proof {
        assert(s@.subrange(0, n as int) =~= s@);
    }
}

/// Whether `s` begins with `pre`.
pub open spec fn spec_starts_with(s: Seq<char>, pre: Seq<char>) -> bool {
    pre.len() <= s.len() && s.subrange(0, pre.len() as int) == pre
}

/// Whether `s` ends with `suf`.
pub open spec fn spec_ends_with(s: Seq<char>, suf: Seq<char>) -> bool {
    suf.len() <= s.len() && s.skip(s.len() - suf.len()) == suf
}

pub open spec fn has_char(s: Seq<char>, c: char) -> bool {
    exists|t: int| 0 <= t < s.len() && s[t] == c
}

/// Character-by-character string equality.
pub fn str_eq(a: &str, b: &str) -> (r: bool)
    ensures
        r == (a@ == b@),
{
    let n = a.unicode_len();
    let m = b.unicode_len();
    if n != m {
        return false;
    }
    let mut i: usize = 0;
    while i < n
        invariant
            i <= n,
            n == a@.len(),
            n == b@.len(),
            forall|t: int| 0 <= t < i ==> a@[t] == b@[t],
        decreases n - i,
    {
        if a.get_char(i) != b.get_char(i) {
            return false;
        }
        i += 1;
    }
    proof {
        assert(a@ =~= b@);
    }
    true
}

/// Whether `s` begins with `pre`, mirroring `spec_starts_with`.
pub fn str_starts_with(s: &str, pre: &str) -> (r: bool)
    ensures
        r == spec_starts_with(s@, pre@),
{
    let n = s.unicode_len();
    let m = pre.unicode_len();
    if m > n {
        return false;
    }
    let mut i: usize = 0;
    while i < m
        invariant
            i <= m,
            m <= n,
            n == s@.len(),
            m == pre@.len(),
            forall|t: int| 0 <= t < i ==> s@[t] == pre@[t],
        decreases m - i,
    {
        if s.get_char(i) != pre.get_char(i) {
            proof {
                assert(s@.subrange(0, m as int)[i as int] != pre@[i as int]);
            }
            return false;
        }
        i += 1;
    }
    proof {
        assert(s@.subrange(0, m as int) =~= pre@);
    }
    true
}

/// Whether `s` ends with `suf`, mirroring `spec_ends_with`.
pub fn str_ends_with(s: &str, suf: &str) -> (r: bool)
    ensures
        r == spec_ends_with(s@, suf@),
{
    let n = s.unicode_len();
    let m = suf.unicode_len();
    if m > n {
        return false;
    }
    let off = n - m;
    let mut i: usize = 0;
    while i < m
        invariant
            i <= m,
            m <= n,
            off == n - m,
            n == s@.len(),
            m == suf@.len(),
            forall|t: int| 0 <= t < i ==> s@[off + t] == suf@[t],
        decreases m - i,
    {
        if s.get_char(off + i) != suf.get_char(i) {
            proof {
                assert(s@.skip(off as int)[i as int] != suf@[i as int]);
            }
            return false;
        }
        i += 1;
    }
    proof {
        assert(s@.skip(off as int) =~= suf@);
    }
    true
}

/// Whether `s` contains the character `c`, mirroring `has_char`.
pub fn str_has_char(s: &str, c: char) -> (r: bool)
    ensures
        r == has_char(s@, c),
{
    let n = s.unicode_len();
    let mut i: usize = 0;
    while i < n
        invariant
            i <= n,
            n == s@.len(),
            forall|t: int| 0 <= t < i ==> s@[t] != c,
        decreases n - i,
    {
        if s.get_char(i) == c {
            return true;
        }
        i += 1;
    }
    false
}

/// Relies on `String`'s `FromIterator<char>`: collecting characters yields
/// the string with exactly those characters.
#[verifier::external_body]
pub(crate) fn chars_to_string(v: &Vec<char>) -> (r: String)
    ensures
        r@ == v@,
{
    v.iter().collect()
}

/// Matches the literal `lit` at position `i` of `v`; on success returns the
/// position just past it, mirroring `take_lit` on the suffix.
pub fn expect_lit(v: &Vec<char>, i: usize, lit: &str) -> (r: Option<usize>)
    requires
        i <= v@.len(),
    ensures
        match r {
            Some(j) => {
                &&& i <= j <= v@.len()
                &&& j == i + lit@.len()
                &&& take_lit(v@.skip(i as int), lit@) == Some(v@.skip(j as int))
            },
            None => take_lit(v@.skip(i as int), lit@) is None,
        },
{
    let n = lit.unicode_len();
    let vl = v.len();
    if vl - i < n {
        return None;
    }
    let mut k: usize = 0;
    while k < n
        invariant
            k <= n,
            n == lit@.len(),
            vl == v@.len(),
            i + n <= v@.len(),
            forall|t: int| 0 <= t < k ==> v@[i + t] == lit@[t],
        decreases n - k,
    {
        proof {
            assert(i + k < v@.len());
        }
        if v[i + k] != lit.get_char(k) {
            proof {
                let w = v@.skip(i as int);
                assert(w.subrange(0, n as int)[k as int] != lit@[k as int]);
            }
            return None;
        }
        k += 1;
    }
    proof {
        let w = v@.skip(i as int);
        assert(w.subrange(0, n as int) =~= lit@);
        assert(w.skip(n as int) =~= v@.skip(i + n));
    }
    Some(i + n)
}

fn digit_value_c(c: char) -> (r: u64)
    requires
        is_digit(c),
    ensures
        r == digit_val(c),
        r <= 9,
{
    let b = c as u32;
    (b - 48) as u64
}

fn hex_nibble(c: char) -> (r: Option<u64>)
    ensures
        match r {
            Some(d) => is_hex(c) && d == hex_val(c) && d < 16,
            None => !is_hex(c),
        },
{
    let b = c as u32;
    if 48 <= b && b <= 57 {
        Some((b - 48) as u64)
    } else if 97 <= b && b <= 102 {
        Some((b - 87) as u64)
    } else {
        None
    }
}

/// Scans a JSON string body at position `i` (the opening quote already
/// consumed), mirroring `scan_string` on the suffix.
pub fn parse_string_at(v: &Vec<char>, i: usize) -> (r: Option<(Vec<char>, usize)>)
    requires
        i <= v@.len(),
    ensures
        match r {
            Some(sj) => {
                &&& i < sj.1 <= v@.len()
                &&& scan_string(v@.skip(i as int)) == Some((sj.0@, v@.skip(sj.1 as int)))
            },
            None => scan_string(v@.skip(i as int)) is None,
        },
{
    let mut out: Vec<char> = Vec::new();
    let mut k: usize = i;
    loop
        invariant
            i <= k <= v@.len(),
            scan_string(v@.skip(i as int)) == (match scan_string(v@.skip(k as int)) {
                Some(sr) => Some(((out@ + sr.0), sr.1)),
                None => None::<(Seq<char>, Seq<char>)>,
            }),
        decreases v@.len() - k,
    {
        proof {
            if k < v@.len() {
                assert(v@.skip(k as int)[0] == v@[k as int]);
            }
        }
        if k == v.len() {
            return None;
        }
        let c = v[k];
        if c == '"' {
            proof {
                assert(v@.skip(k as int).skip(1) =~= v@.skip(k + 1));
                assert(out@ + Seq::<char>::empty() =~= out@);
            }
            return Some((out, k + 1));
        } else if c == '\\' {
            if v.len() - k < 2 {
                return None;
            }
            let e = v[k + 1];
            proof {
                assert(v@.skip(k as int)[1] == e);
            }
            if e == '"' || e == '\\' {
                proof {
                    assert(v@.skip(k as int).skip(2) =~= v@.skip(k + 2));
                    let w = v@.skip(k as int);
                    if scan_string(w.skip(2)) is Some {
                        let sr = scan_string(w.skip(2))->Some_0;
                        assert(out@.push(e) + sr.0 =~= out@ + (seq![e] + sr.0));
                    }
                }
                out.push(e);
                k = k + 2;
            } else if e == 'u' {
                if v.len() - k < 6 {
                    return None;
                }
                proof {
                    let w = v@.skip(k as int);
                    assert(w[2] == v@[k + 2] && w[3] == v@[k + 3] && w[4] == v@[k + 4] && w[5]
                        == v@[k + 5]);
                }
                if v[k + 2] != '0' || v[k + 3] != '0' {
                    return None;
                }
                let h1 = match hex_nibble(v[k + 4]) {
                    Some(d) => d,
                    None => {
                        return None;
                    },
                };
                let h2 = match hex_nibble(v[k + 5]) {
                    Some(d) => d,
                    None => {
                        return None;
                    },
                };
                let b = h1 * 16 + h2;
                if b >= 32 {
                    return None;
                }
                let dc = (b as u8) as char;
                proof {
                    lemma_code_char(b as nat);
                    assert(dc as nat == b as nat);
                    let w = v@.skip(k as int);
                    assert(dc == ((hex_val(w[4]) * 16 + hex_val(w[5])) as char)) by {
                        lemma_char_code(dc, ((hex_val(w[4]) * 16 + hex_val(w[5])) as char));
                        lemma_code_char((hex_val(w[4]) * 16 + hex_val(w[5])) as nat);
                    }
                    assert(w.skip(6) =~= v@.skip(k + 6));
                    if scan_string(w.skip(6)) is Some {
                        let sr = scan_string(w.skip(6))->Some_0;
                        assert(out@.push(dc) + sr.0 =~= out@ + (seq![dc] + sr.0));
                    }
                }
                out.push(dc);
                k = k + 6;
            } else {
                return None;
            }
        } else {
            proof {
                assert(v@.skip(k as int).skip(1) =~= v@.skip(k + 1));
                let w = v@.skip(k as int);
                if scan_string(w.skip(1)) is Some {
                    let sr = scan_string(w.skip(1))->Some_0;
                    assert(out@.push(c) + sr.0 =~= out@ + (seq![c] + sr.0));
                }
            }
            out.push(c);
            k = k + 1;
        }
    }
}

/// Parses a canonical decimal integer at position `i`, mirroring
/// `parse_int` on the suffix.
pub fn parse_i64_at(v: &Vec<char>, i: usize) -> (r: Option<(i64, usize)>)
    requires
        i <= v@.len(),
    ensures
        match r {
            Some(nj) => {
                &&& i < nj.1 <= v@.len()
                &&& parse_int(v@.skip(i as int)) == Some((nj.0 as int, v@.skip(nj.1 as int)))
            },
            None => parse_int(v@.skip(i as int)) is None,
        },
{
    proof {
        if i < v@.len() {
            assert(v@.skip(i as int)[0] == v@[i as int]);
        }
    }
    let neg = i < v.len() && v[i] == '-';
    let start = if neg {
        i + 1
    } else {
        i
    };
    let ghost w = if neg {
        v@.skip(i as int).skip(1)
    } else {
        v@.skip(i as int)
    };
    proof {
        assert(w =~= v@.skip(start as int));
    }
    let mut j = start;
    while j < v.len() && is_digit_c(v[j])
        invariant
            start <= j <= v@.len(),
            forall|t: int| start <= t < j ==> is_digit(#[trigger] v@[t]),
        decreases v@.len() - j,
    {
        j += 1;
    }
    proof {
        assert(forall|t: int| 0 <= t < j - start ==> is_digit(#[trigger] w[t]));
        assert(j == v@.len() || !is_digit(w[j - start]));
        lemma_scan_digits_run(w, j - start);
        assert(w.skip(j - start) =~= v@.skip(j as int));
    }
    let ghost ds = w.subrange(0, j - start);
    if j == start {
        return None;
    }
    proof {
        assert(ds[0] == v@[start as int]);
        assert(all_digits(ds));
        lemma_digits_val_bounds(ds);
    }
    if j - start > 1 && v[start] == '0' {
        return None;
    }
    if j - start > 19 {
        proof {
            assert(ds[0] != '0');
            assert(pow10(19) <= pow10((ds.len() - 1) as nat)) by {
                lemma_pow10_mono(19, (ds.len() - 1) as nat);
            }
            lemma_pow10_vals();
        }
        return None;
    }
    let mut acc: u64 = 0;
    let mut t = start;
    proof {
        assert(w.subrange(0, 0) =~= Seq::<char>::empty());
        assert(pow10(0) == 1);
    }
    while t < j
        invariant
            start <= t <= j <= v@.len(),
            j - start <= 19,
            w == v@.skip(start as int),
            start == i || start == i + 1,
            i <= start,
            forall|k: int| start <= k < j ==> is_digit(#[trigger] v@[k]),
            acc as nat == digits_val(w.subrange(0, t - start)),
            (acc as nat) < pow10((t - start) as nat),
        decreases j - t,
    {
        proof {
            assert(pow10((t - start) as nat) <= pow10(18)) by {
                lemma_pow10_mono((t - start) as nat, 18);
            }
            lemma_pow10_vals();
            assert(w[t - start] == v@[t as int]);
            assert(w.subrange(0, t - start + 1).drop_last() =~= w.subrange(0, t - start));
            assert(w.subrange(0, t - start + 1).last() == w[t - start]);
            assert(pow10((t - start + 1) as nat) == 10 * pow10((t - start) as nat));
        }
        proof {
            assert(is_digit(v@[t as int]));
            assert(digit_val(v@[t as int]) <= 9);
        }
        let d = digit_value_c(v[t]);
        proof {
            assert(d as nat == digit_val(w[t - start]));
            assert((acc as nat) * 10 + (d as nat) < pow10((t - start + 1) as nat));
        }
        acc = acc * 10 + d;
        t += 1;
    }
    proof {
        assert(w.subrange(0, j - start) == ds);
        assert(acc as nat == digits_val(ds));
    }
    if neg {
        if acc > 9223372036854775808 {
            return None;
        }
        let n: i64 = if acc == 9223372036854775808 {
            i64::MIN
        } else {
            -(acc as i64)
        };
        Some((n, j))
    } else {
        if acc > 9223372036854775807 {
            return None;
        }
        Some((acc as i64, j))
    }
}

proof fn lemma_pow10_vals()
    ensures
        pow10(18) == 1000000000000000000,
        pow10(19) == 10000000000000000000,
{
    reveal_with_fuel(pow10, 21);
}

proof fn lemma_pow10_mono(a: nat, b: nat)
    requires
        a <= b,
    ensures
        pow10(a) <= pow10(b),
    decreases b,
{
    if a < b {
        lemma_pow10_mono(a, (b - 1) as nat);
        assert(pow10(b) == 10 * pow10((b - 1) as nat));
    }
}

// ---------------------------------------------------------------------------
// round-trip lemmas
// ---------------------------------------------------------------------------

/// A literal followed by anything scans back to that remainder.
pub proof fn lemma_take_lit(lit: Seq<char>, rest: Seq<char>)
    ensures
        take_lit(lit + rest, lit) == Some(rest),
{
    assert((lit + rest).subrange(0, lit.len() as int) =~= lit);
    assert((lit + rest).skip(lit.len() as int) =~= rest);
}

/// Scanning the escaped form of `s`, its closing quote, and a remainder
/// recovers exactly `s` and that remainder.
pub proof fn lemma_scan_quoted(s: Seq<char>, rest: Seq<char>)
    ensures
        scan_string(escape_text(s) + seq!['"'] + rest) == Some((s, rest)),
    decreases s.len(),
{
    let v = escape_text(s) + seq!['"'] + rest;
    if s.len() == 0 {
        assert(v =~= seq!['"'] + rest);
        assert(v[0] == '"');
        assert(v.skip(1) =~= rest);
    } else {
        let c = s[0];
        let e = escape_char(c);
        let tail = escape_text(s.skip(1)) + seq!['"'] + rest;
        assert(v =~= e + tail);
        lemma_scan_quoted(s.skip(1), rest);
        if c == '"' || c == '\\' {
            assert(v[0] == '\\');
            assert(v[1] == c);
            assert(v.len() >= 2);
            assert(v.skip(2) =~= tail);
            assert(seq![c] + s.skip(1) =~= s);
        } else if (c as nat) < 32 {
            let b = c as nat;
            assert(v.len() >= 6);
            assert(v[0] == '\\');
            assert(v[1] == 'u');
            assert(v[2] == '0');
            assert(v[3] == '0');
            assert(v[4] == hex_char(b / 16));
            assert(v[5] == hex_char(b % 16));
            lemma_fundamental_div_mod(b as int, 16);
            assert(b / 16 < 16 && b % 16 < 16);
            assert(hex_val(hex_char(b / 16)) == b / 16);
            assert(hex_val(hex_char(b % 16)) == b % 16);
            assert(hex_val(v[4]) * 16 + hex_val(v[5]) == b);
            lemma_char_code((b as char), c);
            lemma_code_char(b);
            assert(((b as nat) as char) == c);
            assert(((hex_val(v[4]) * 16 + hex_val(v[5])) as char) == c);
            assert(v.skip(6) =~= tail);
            assert(seq![c] + s.skip(1) =~= s);
        } else {
            assert(v[0] == c);
            assert(v[0] != '"' && v[0] != '\\');
            assert(v.skip(1) =~= tail);
            assert(seq![c] + s.skip(1) =~= s);
        }
    }
}

/// Characterizes `scan_digits` by the length of the leading digit run.
pub proof fn lemma_scan_digits_run(w: Seq<char>, rl: int)
    requires
        0 <= rl <= w.len(),
        forall|k: int| 0 <= k < rl ==> is_digit(#[trigger] w[k]),
        rl == w.len() || !is_digit(w[rl]),
    ensures
        scan_digits(w) == (w.subrange(0, rl), w.skip(rl)),
    decreases rl,
{
    if rl == 0 {
        assert(w.subrange(0, 0) =~= Seq::<char>::empty());
        assert(w.skip(0) =~= w);
    } else {
        assert(is_digit(w[0]));
        lemma_scan_digits_run(w.skip(1), rl - 1);
        assert(seq![w[0]] + w.skip(1).subrange(0, rl - 1) =~= w.subrange(0, rl));
        assert(w.skip(1).skip(rl - 1) =~= w.skip(rl));
    }
}

pub proof fn lemma_digits_of_shape(n: nat)
    ensures
        digits_of(n).len() >= 1,
        all_digits(digits_of(n)),
        digits_of(n)[0] == '0' ==> n == 0,
        digits_val(digits_of(n)) == n,
    decreases n,
{
    if n < 10 {
        let ds = digits_of(n);
        assert(ds =~= seq![digit_char(n)]);
        assert(is_digit(digit_char(n)));
        assert(ds.drop_last().len() == 0);
        assert(digits_val(ds.drop_last()) == 0);
        assert(ds.last() == digit_char(n));
        assert(digit_val(digit_char(n)) == n);
    } else {
        lemma_digits_of_shape(n / 10);
        let pre = digits_of(n / 10);
        let ds = pre.push(digit_char(n % 10));
        assert(digits_of(n) == ds);
        assert(ds[0] == pre[0]);
        assert(n / 10 > 0);
        assert(forall|k: int| 0 <= k < ds.len() ==> is_digit(#[trigger] ds[k]));
        assert(ds.drop_last() =~= pre);
        assert(ds.last() == digit_char(n % 10));
        lemma_fundamental_div_mod(n as int, 10);
        assert(digits_val(ds) == (n / 10) * 10 + (n % 10));
    }
}

pub proof fn lemma_digits_val_bounds(ds: Seq<char>)
    requires
        ds.len() >= 1,
        all_digits(ds),
    ensures
        digits_val(ds) < pow10(ds.len()),
        ds[0] != '0' ==> digits_val(ds) >= pow10((ds.len() - 1) as nat),
    decreases ds.len(),
{
    if ds.len() == 1 {
        assert(ds.drop_last().len() == 0);
        assert(digits_val(ds.drop_last()) == 0);
        assert(ds.last() == ds[0]);
        assert(digits_val(ds) == digit_val(ds[0]));
        assert(is_digit(ds[0]));
        assert(digit_val(ds[0]) <= 9);
        assert(pow10(1) == 10);
        if ds[0] != '0' {
            lemma_char_code(ds[0], '0');
            assert(ds[0] as nat != 48);
            assert(digit_val(ds[0]) >= 1);
        }
    } else {
        let pre = ds.drop_last();
        assert(pre[0] == ds[0]);
        assert(all_digits(pre));
        lemma_digits_val_bounds(pre);
        assert(digit_val(ds.last()) <= 9);
        assert(pow10(ds.len() as nat) == 10 * pow10((ds.len() - 1) as nat));
        if ds[0] != '0' {
            assert(pow10((ds.len() - 1) as nat) == 10 * pow10((ds.len() - 2) as nat));
        }
    }
}

/// Parsing the canonical text of an in-range integer, followed by anything
/// that does not extend the digit run, recovers the integer.
pub proof fn lemma_parse_int_text(n: int, rest: Seq<char>)
    requires
        -9223372036854775808 <= n <= 9223372036854775807,
        rest.len() == 0 || !is_digit(rest[0]),
    ensures
        parse_int(int_text(n) + rest) == Some((n, rest)),
{
    if n >= 0 {
        let ds = digits_of(n as nat);
        let v = ds + rest;
        lemma_digits_of_shape(n as nat);
        assert(v[0] == ds[0]);
        assert(is_digit(v[0]));
        assert(!is_digit('-')) by {
            assert('-' as nat == 45);
        }
        assert(v[0] != '-');
        assert(forall|k: int| 0 <= k < ds.len() ==> is_digit(#[trigger] v[k]));
        assert(ds.len() == v.len() || !is_digit(v[ds.len() as int]));
        lemma_scan_digits_run(v, ds.len() as int);
        assert(v.subrange(0, ds.len() as int) =~= ds);
        assert(v.skip(ds.len() as int) =~= rest);
        if ds.len() > 1 {
            assert(ds[0] != '0');
        }
    } else {
        let m = (-n) as nat;
        let ds = digits_of(m);
        lemma_digits_of_shape(m);
        let v = seq!['-'] + ds + rest;
        assert(int_text(n) + rest =~= v);
        assert(v[0] == '-');
        let w = v.skip(1);
        assert(w =~= ds + rest);
        assert(forall|k: int| 0 <= k < ds.len() ==> is_digit(#[trigger] w[k]));
        assert(ds.len() == w.len() || !is_digit(w[ds.len() as int]));
        lemma_scan_digits_run(w, ds.len() as int);
        assert(w.subrange(0, ds.len() as int) =~= ds);
        assert(w.skip(ds.len() as int) =~= rest);
        if ds.len() > 1 {
            assert(ds[0] != '0');
        }
    }
}

} // verus!
