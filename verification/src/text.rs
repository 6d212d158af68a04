//! Verified text utilities: ASCII case mapping, substring search, and
//! decimal formatting, as the canonicalizer and the endpoint builders need
//! them.

use vstd::prelude::*;

verus! {

/// Lowercase one character, ASCII-only: `'A'..='Z'` map to `'a'..='z'`,
/// every other character is unchanged.
pub open spec fn lower_char(c: char) -> char {
    if 'A' <= c && c <= 'Z' {
        ((c as u32 + 0x20) as u8) as char
    } else {
        c
    }
}

/// Uppercase one character, ASCII-only.
pub open spec fn upper_char(c: char) -> char {
    if 'a' <= c && c <= 'z' {
        ((c as u32 - 0x20) as u8) as char
    } else {
        c
    }
}

pub open spec fn map_lower(s: Seq<char>) -> Seq<char> {
    s.map_values(|c: char| lower_char(c))
}

pub open spec fn map_upper(s: Seq<char>) -> Seq<char> {
    s.map_values(|c: char| upper_char(c))
}

/// `p` is a prefix of `s`.
pub open spec fn seq_has_prefix(s: Seq<char>, p: Seq<char>) -> bool {
    p.len() <= s.len() && s.subrange(0, p.len() as int) == p
}

/// `p` occurs contiguously somewhere in `s`.
pub open spec fn seq_has_sub(s: Seq<char>, p: Seq<char>) -> bool {
    exists|k: int|
        0 <= k <= s.len() - p.len() && #[trigger] s.subrange(k, k + p.len() as int) == p
}

/// Relies on `String::push`: appends the given character to the end of the
/// string.
#[verifier::external_body]
pub(crate) fn string_push(s: &mut String, c: char)
    ensures
        final(s)@ == old(s)@.push(c),
{
    s.push(c);
}

fn exec_lower_char(c: char) -> (r: char)
    ensures
        r == lower_char(c),
{
    if 'A' <= c && c <= 'Z' {
        ((c as u32 + 0x20) as u8) as char
    } else {
        c
    }
}

fn exec_upper_char(c: char) -> (r: char)
    ensures
        r == upper_char(c),
{
    if 'a' <= c && c <= 'z' {
        ((c as u32 - 0x20) as u8) as char
    } else {
        c
    }
}

/// ASCII-lowercase a whole string; characters outside `'A'..='Z'` are kept.
pub fn to_ascii_lower(s: &str) -> (r: String)
    ensures
        r@ == map_lower(s@),
{
    let n: usize = s.unicode_len();
    let mut r = String::new();
    for i in 0..n
        invariant
            n == s@.len(),
            r@ == map_lower(s@.subrange(0, i as int)),
    {
        let c = s.get_char(i);
        string_push(&mut r, exec_lower_char(c));
        proof {
            assert(s@.subrange(0, i + 1) =~= s@.subrange(0, i as int).push(s@[i as int]));
            assert(map_lower(s@.subrange(0, i + 1)) =~= map_lower(s@.subrange(0, i as int)).push(
                lower_char(s@[i as int]),
            ));
        }
    }
    proof {
        assert(s@.subrange(0, n as int) =~= s@);
    }
    r
}

/// ASCII-uppercase a whole string; characters outside `'a'..='z'` are kept.
pub fn to_ascii_upper(s: &str) -> (r: String)
    ensures
        r@ == map_upper(s@),
{
    let n: usize = s.unicode_len();
    let mut r = String::new();
    for i in 0..n
        invariant
            n == s@.len(),
            r@ == map_upper(s@.subrange(0, i as int)),
    {
        let c = s.get_char(i);
        string_push(&mut r, exec_upper_char(c));
        proof {
            assert(s@.subrange(0, i + 1) =~= s@.subrange(0, i as int).push(s@[i as int]));
            assert(map_upper(s@.subrange(0, i + 1)) =~= map_upper(s@.subrange(0, i as int)).push(
                upper_char(s@[i as int]),
            ));
        }
    }
    proof {
        assert(s@.subrange(0, n as int) =~= s@);
    }
    r
}

/// Whether `p` is a prefix of `s`.
pub fn str_has_prefix(s: &str, p: &str) -> (r: bool)
    ensures
        r == seq_has_prefix(s@, p@),
{
    let n: usize = s.unicode_len();
    let m: usize = p.unicode_len();
    if m > n {
        return false;
    }
    for j in 0..m
        invariant
            n == s@.len(),
            m == p@.len(),
            m <= n,
            s@.subrange(0, j as int) == p@.subrange(0, j as int),
    {
        if s.get_char(j) != p.get_char(j) {
            proof {
                assert(!seq_has_prefix(s@, p@)) by {
                    if s@.subrange(0, m as int) == p@ {
                        assert(s@.subrange(0, m as int)[j as int] == p@[j as int]);
                    }
                }
            }
            return false;
        }
        proof {
            assert(s@.subrange(0, j + 1) =~= s@.subrange(0, j as int).push(s@[j as int]));
            assert(p@.subrange(0, j + 1) =~= p@.subrange(0, j as int).push(p@[j as int]));
        }
    }
    proof {
        assert(p@.subrange(0, m as int) =~= p@);
    }
    true
}

/// Whether the characters of `s` starting at `k` are exactly `p`.
fn str_matches_at(s: &str, k: usize, p: &str) -> (r: bool)
    requires
        k + p@.len() <= s@.len(),
        s@.len() <= usize::MAX,
    ensures
        r == (s@.subrange(k as int, k + p@.len() as int) == p@),
{
    let m: usize = p.unicode_len();
    for j in 0..m
        invariant
            m == p@.len(),
            k + m <= s@.len(),
            s@.len() <= usize::MAX,
            s@.subrange(k as int, k + j) == p@.subrange(0, j as int),
    {
        if s.get_char(k + j) != p.get_char(j) {
            proof {
                if s@.subrange(k as int, k + m) == p@ {
                    assert(s@.subrange(k as int, k + m)[j as int] == p@[j as int]);
                }
            }
            return false;
        }
        proof {
            assert(s@.subrange(k as int, k + j + 1) =~= s@.subrange(k as int, k + j).push(
                s@[k + j],
            ));
            assert(p@.subrange(0, j + 1) =~= p@.subrange(0, j as int).push(p@[j as int]));
        }
    }
    proof {
        assert(p@.subrange(0, m as int) =~= p@);
        assert(s@.subrange(k as int, k + m) == p@.subrange(0, m as int) ==> s@.subrange(
            k as int,
            k + m,
        ) == p@);
    }
    true
}

/// Whether `p` occurs contiguously somewhere in `s`.
pub fn str_contains_sub(s: &str, p: &str) -> (r: bool)
    ensures
        r == seq_has_sub(s@, p@),
{
    let n: usize = s.unicode_len();
    let m: usize = p.unicode_len();
    if m > n {
        proof {
            assert(!seq_has_sub(s@, p@));
        }
        return false;
    }
    if m == 0 {
        proof {
            assert(s@.subrange(0, 0 + p@.len() as int) =~= p@);
            assert(seq_has_sub(s@, p@));
        }
        return true;
    }
    let last: usize = n - m;
    let mut k: usize = 0;
    while k <= last
        invariant
            n == s@.len(),
            m == p@.len(),
            1 <= m <= n,
            last == n - m,
            k <= last + 1,
            forall|k2: int|
                0 <= k2 < k ==> #[trigger] s@.subrange(k2, k2 + p@.len() as int) != p@,
        decreases last + 1 - k,
    {
        if str_matches_at(s, k, p) {
            proof {
                assert(seq_has_sub(s@, p@)) by {
                    assert(0 <= k as int <= s@.len() - p@.len() && s@.subrange(
                        k as int,
                        k as int + p@.len() as int,
                    ) == p@);
                }
            }
            return true;
        }
        k = k + 1;
    }
    proof {
        assert(!seq_has_sub(s@, p@)) by {
            if exists|k2: int|
                0 <= k2 <= s@.len() - p@.len() && #[trigger] s@.subrange(k2, k2 + p@.len() as int)
                    == p@ {
                let k2 = choose|k2: int|
                    0 <= k2 <= s@.len() - p@.len() && #[trigger] s@.subrange(
                        k2,
                        k2 + p@.len() as int,
                    ) == p@;
                assert(k2 < k);
            }
        }
    }
    false
}

/// The decimal digit character for `n`, which must be below ten.
pub open spec fn dec_digit(n: int) -> char
    recommends
        0 <= n < 10,
{
    ((n + 0x30) as u8) as char
}

/// The decimal representation of a nonnegative integer, most significant
/// digit first, with no leading zeros (a single `'0'` for zero).
pub open spec fn spec_u64_chars(n: int) -> Seq<char>
    recommends
        n >= 0,
    decreases n,
{
    if n < 10 {
        seq![dec_digit(n)]
    } else {
        spec_u64_chars(n / 10).push(dec_digit(n % 10))
    }
}

/// The decimal representation of a signed integer: a `'-'` sign for negative
/// values, then the digits of the magnitude.
pub open spec fn spec_i64_chars(n: int) -> Seq<char> {
    if n < 0 {
        seq!['-'] + spec_u64_chars(-n)
    } else {
        spec_u64_chars(n)
    }
}

fn exec_dec_digit(n: u64) -> (r: char)
    requires
        n < 10,
    ensures
        r == dec_digit(n as int),
{
    ((n + 0x30) as u8) as char
}

/// Format a `u64` in decimal.
pub fn u64_to_string(n: u64) -> (r: String)
    ensures
        r@ == spec_u64_chars(n as int),
{
    let mut digits: Vec<char> = Vec::new();
    let mut m: u64 = n;
    while m >= 10
        invariant
            spec_u64_chars(n as int) =~= spec_u64_chars(m as int) + digits@.reverse(),
        decreases m,
    {
        let d = exec_dec_digit(m % 10);
        digits.push(d);
        proof {
            assert(digits@.reverse() =~= seq![d] + digits@.drop_last().reverse());
            assert(spec_u64_chars(m as int) =~= spec_u64_chars(m as int / 10).push(
                dec_digit(m as int % 10),
            ));
            assert(spec_u64_chars(m as int / 10) + digits@.reverse() =~= spec_u64_chars(m as int)
                + digits@.drop_last().reverse());
        }
        m = m / 10;
    }
    let d = exec_dec_digit(m);
    digits.push(d);
    proof {
        assert(digits@.reverse() =~= seq![d] + digits@.drop_last().reverse());
        assert(spec_u64_chars(m as int) =~= seq![d]);
        assert(digits@.reverse() =~= spec_u64_chars(n as int));
    }
    let len: usize = digits.len();
    let mut r = String::new();
    for i in 0..len
        invariant
            len == digits@.len(),
            digits@.reverse() == spec_u64_chars(n as int),
            r@ == digits@.reverse().subrange(0, i as int),
    {
        string_push(&mut r, digits[len - 1 - i]);
        proof {
            assert(digits@.reverse()[i as int] == digits@[len - 1 - i]);
            assert(digits@.reverse().subrange(0, i + 1) =~= digits@.reverse().subrange(
                0,
                i as int,
            ).push(digits@.reverse()[i as int]));
        }
    }
    proof {
        assert(digits@.reverse().subrange(0, len as int) =~= digits@.reverse());
    }
    r
}

/// Format an `i64` in decimal.
pub fn i64_to_string(n: i64) -> (r: String)
    ensures
        r@ == spec_i64_chars(n as int),
{
    if n >= 0 {
        u64_to_string(n as u64)
    } else {
        let wide: i128 = n as i128;
        let mag: u64 = (-wide) as u64;
        let mut r = String::new();
        string_push(&mut r, '-');
        let tail = u64_to_string(mag);
        r.append(tail.as_str());
        proof {
            assert(r@ =~= seq!['-'] + spec_u64_chars(-(n as int)));
        }
        r
    }
}

/// Format a `bool` as `"true"` or `"false"`.
pub fn bool_to_string(b: bool) -> (r: String)
    ensures
        b ==> r@ == "true"@,
        !b ==> r@ == "false"@,
{
    if b {
        String::from_str("true")
    } else {
        String::from_str("false")
    }
}

} // verus!
