//! Percent-encoding in the signing scheme's profile, and lowercase hex.
//!
//! The profile keeps the RFC 3986 unreserved characters (letters, digits,
//! `'-'`, `'.'`, `'_'`, `'~'`) literal and turns every other byte of the
//! UTF-8 encoding into `%XX` with uppercase hex digits; a space therefore
//! becomes `%20`, never `+`.

use crate::text::string_push;
use vstd::prelude::*;
use vstd::string::StringSliceAdditionalSpecFns;

verus! {

/// A byte the encoding profile keeps literal.
pub open spec fn is_unreserved_byte(b: u8) -> bool {
    (0x41 <= b && b <= 0x5a)  // 'A'..'Z'
        || (0x61 <= b && b <= 0x7a)  // 'a'..'z'
        || (0x30 <= b && b <= 0x39)  // '0'..'9'
        || b == 0x2d  // '-'
        || b == 0x2e  // '.'
        || b == 0x5f  // '_'
        || b == 0x7e  // '~'

}

/// The uppercase hex digit for `n`, which must be below sixteen.
pub open spec fn hex_upper_digit(n: int) -> char
    recommends
        0 <= n < 16,
{
    if n < 10 {
        ((n + 0x30) as u8) as char
    } else {
        ((n + 0x37) as u8) as char
    }
}

/// The lowercase hex digit for `n`, which must be below sixteen.
pub open spec fn hex_lower_digit(n: int) -> char
    recommends
        0 <= n < 16,
{
    if n < 10 {
        ((n + 0x30) as u8) as char
    } else {
        ((n + 0x57) as u8) as char
    }
}

/// What one byte encodes to.
pub open spec fn enc_byte(b: u8) -> Seq<char> {
    if is_unreserved_byte(b) {
        seq![b as char]
    } else {
        seq!['%', hex_upper_digit(b as int / 16), hex_upper_digit(b as int % 16)]
    }
}

/// The percent-encoding of a byte sequence.
pub open spec fn spec_percent_encode(bs: Seq<u8>) -> Seq<char>
    decreases bs.len(),
{
    if bs.len() == 0 {
        Seq::empty()
    } else {
        enc_byte(bs[0]) + spec_percent_encode(bs.drop_first())
    }
}

/// The lowercase hex encoding of a byte sequence: two digits per byte.
pub open spec fn spec_hex_lower(bs: Seq<u8>) -> Seq<char>
    decreases bs.len(),
{
    if bs.len() == 0 {
        Seq::empty()
    } else {
        seq![hex_lower_digit(bs[0] as int / 16), hex_lower_digit(bs[0] as int % 16)]
            + spec_hex_lower(bs.drop_first())
    }
}

pub proof fn lemma_percent_encode_push(bs: Seq<u8>, b: u8)
    ensures
        spec_percent_encode(bs.push(b)) =~= spec_percent_encode(bs) + enc_byte(b),
    decreases bs.len(),
{
    if bs.len() == 0 {
        assert(bs.push(b).drop_first() =~= Seq::<u8>::empty());
        assert(bs.push(b)[0] == b);
        assert(spec_percent_encode(bs.push(b)) == enc_byte(b) + spec_percent_encode(
            bs.push(b).drop_first(),
        ));
        assert(spec_percent_encode(bs.push(b).drop_first()) == Seq::<char>::empty());
        assert(spec_percent_encode(bs) == Seq::<char>::empty());
        assert(enc_byte(b) + Seq::<char>::empty() =~= Seq::<char>::empty() + enc_byte(b));
    } else {
        assert(bs.push(b).drop_first() =~= bs.drop_first().push(b));
        lemma_percent_encode_push(bs.drop_first(), b);
        assert(bs.push(b)[0] == bs[0]);
        assert(spec_percent_encode(bs.push(b)) == enc_byte(bs[0]) + spec_percent_encode(
            bs.drop_first().push(b),
        ));
        assert(enc_byte(bs[0]) + (spec_percent_encode(bs.drop_first()) + enc_byte(b)) =~= (enc_byte(
            bs[0],
        ) + spec_percent_encode(bs.drop_first())) + enc_byte(b));
    }
}

fn exec_hex_upper_digit(n: u8) -> (c: char)
    requires
        n < 16,
    ensures
        c == hex_upper_digit(n as int),
{
    if n < 10 {
        (n + 0x30) as char
    } else {
        (n + 0x37) as char
    }
}

/// Percent-encode the UTF-8 bytes of a string under the scheme's profile.
pub fn percent_encode(s: &str) -> (r: String)
    ensures
        r@ == spec_percent_encode(s.spec_bytes()),
{
    let bytes: &[u8] = s.as_bytes();
    let n: usize = bytes.len();
    let mut r = String::new();
    for i in 0..n
        invariant
            n == bytes@.len(),
            bytes@ == s.spec_bytes(),
            r@ == spec_percent_encode(bytes@.subrange(0, i as int)),
    {
        let b = bytes[i];
        let ghost prefix = bytes@.subrange(0, i as int);
        let ghost before = r@;
        if (0x41 <= b && b <= 0x5a) || (0x61 <= b && b <= 0x7a) || (0x30 <= b && b <= 0x39) || b
            == 0x2d || b == 0x2e || b == 0x5f || b == 0x7e {
            string_push(&mut r, b as char);
            proof {
                assert(r@ =~= before + enc_byte(b));
            }
        } else {
            string_push(&mut r, '%');
            string_push(&mut r, exec_hex_upper_digit(b / 16));
            string_push(&mut r, exec_hex_upper_digit(b % 16));
            proof {
                assert(r@ =~= before + enc_byte(b));
            }
        }
        proof {
            assert(bytes@.subrange(0, i + 1) =~= prefix.push(bytes@[i as int]));
            lemma_percent_encode_push(prefix, bytes@[i as int]);
        }
    }
    proof {
        assert(bytes@.subrange(0, n as int) =~= bytes@);
    }
    r
}

/// Relies on `data_encoding::HEXLOWER.encode`: two lowercase hex digits per
/// input byte, in input order.
#[verifier::external_body]
pub(crate) fn hex_lower(data: &[u8]) -> (r: String)
    ensures
        r@ == spec_hex_lower(data@),
{
    data_encoding::HEXLOWER.encode(data)
}

} // verus!
