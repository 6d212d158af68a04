//! A verified JSON writer for flat objects of string values, as the
//! log-query endpoint's request body needs: `{"key":"value",...}` with the
//! standard JSON string escapes (`\"`, `\\`, `\b`, `\t`, `\n`, `\f`, `\r`,
//! and `\u00XX` for the remaining control characters), members in the
//! container's ascending key order, and no added whitespace.

use crate::encode::hex_lower_digit;
use crate::params::{entries_of, params_entries};
use crate::sign::{lemma_join_push, spec_join};
use crate::text::string_push;
use ordermap::OrderMap;
use vstd::prelude::*;

verus! {

/// What one character of a JSON string becomes in its encoded form.
pub open spec fn spec_json_escape_char(c: char) -> Seq<char> {
    if c == '"' {
        seq!['\\', '"']
    } else if c == '\\' {
        seq!['\\', '\\']
    } else if c as u32 == 0x08 {
        seq!['\\', 'b']
    } else if c == '\t' {
        seq!['\\', 't']
    } else if c == '\n' {
        seq!['\\', 'n']
    } else if c as u32 == 0x0c {
        seq!['\\', 'f']
    } else if c == '\r' {
        seq!['\\', 'r']
    } else if (c as u32) < 0x20 {
        seq!['\\', 'u', '0', '0', hex_lower_digit(c as u32 as int / 16), hex_lower_digit(
            c as u32 as int % 16,
        )]
    } else {
        seq![c]
    }
}

/// The escaped body of a JSON string.
pub open spec fn spec_json_escape(s: Seq<char>) -> Seq<char>
    decreases s.len(),
{
    if s.len() == 0 {
        Seq::empty()
    } else {
        spec_json_escape_char(s[0]) + spec_json_escape(s.drop_first())
    }
}

/// A JSON string literal.
pub open spec fn spec_json_string(s: Seq<char>) -> Seq<char> {
    "\""@ + spec_json_escape(s) + "\""@
}

/// One object member.
pub open spec fn spec_json_member(p: (Seq<char>, Seq<char>)) -> Seq<char> {
    spec_json_string(p.0) + ":"@ + spec_json_string(p.1)
}

/// A flat JSON object of string values, members in entry order.
pub open spec fn spec_json_object(es: Seq<(Seq<char>, Seq<char>)>) -> Seq<char> {
    "{"@ + spec_join(es.map_values(|p: (Seq<char>, Seq<char>)| spec_json_member(p)), ","@) + "}"@
}

pub proof fn lemma_json_escape_push(s: Seq<char>, c: char)
    ensures
        spec_json_escape(s.push(c)) =~= spec_json_escape(s) + spec_json_escape_char(c),
    decreases s.len(),
{
    if s.len() == 0 {
        assert(s.push(c).drop_first() =~= Seq::<char>::empty());
        assert(s.push(c)[0] == c);
        assert(spec_json_escape(s.push(c)) == spec_json_escape_char(c) + spec_json_escape(
            s.push(c).drop_first(),
        ));
        assert(spec_json_escape(s.push(c).drop_first()) == Seq::<char>::empty());
        assert(spec_json_escape(s) == Seq::<char>::empty());
    } else {
        assert(s.push(c).drop_first() =~= s.drop_first().push(c));
        lemma_json_escape_push(s.drop_first(), c);
        assert(s.push(c)[0] == s[0]);
        assert(spec_json_escape(s.push(c)) == spec_json_escape_char(s[0]) + spec_json_escape(
            s.drop_first().push(c),
        ));
        assert(spec_json_escape_char(s[0]) + (spec_json_escape(s.drop_first())
            + spec_json_escape_char(c)) =~= (spec_json_escape_char(s[0]) + spec_json_escape(
            s.drop_first(),
        )) + spec_json_escape_char(c));
    }
}

fn exec_hex_lower_digit(n: u32) -> (c: char)
    requires
        n < 16,
    ensures
        c == hex_lower_digit(n as int),
{
    if n < 10 {
        ((n + 0x30) as u8) as char
    } else {
        ((n + 0x57) as u8) as char
    }
}

/// Append the JSON-escaped form of `s` to `out`.
fn push_json_escaped(out: &mut String, s: &str)
    ensures
        final(out)@ == old(out)@ + spec_json_escape(s@),
{
    let n: usize = s.unicode_len();
    let ghost base = out@;
    for i in 0..n
        invariant
            n == s@.len(),
            out@ == base + spec_json_escape(s@.subrange(0, i as int)),
    {
        let c = s.get_char(i);
        let ghost before = out@;
        if c == '"' {
            string_push(out, '\\');
            string_push(out, '"');
        } else if c == '\\' {
            string_push(out, '\\');
            string_push(out, '\\');
        } else if (c as u32) == 0x08 {
            string_push(out, '\\');
            string_push(out, 'b');
        } else if c == '\t' {
            string_push(out, '\\');
            string_push(out, 't');
        } else if c == '\n' {
            string_push(out, '\\');
            string_push(out, 'n');
        } else if (c as u32) == 0x0c {
            string_push(out, '\\');
            string_push(out, 'f');
        } else if c == '\r' {
            string_push(out, '\\');
            string_push(out, 'r');
        } else if (c as u32) < 0x20 {
            string_push(out, '\\');
            string_push(out, 'u');
            string_push(out, '0');
            string_push(out, '0');
            string_push(out, exec_hex_lower_digit((c as u32) / 16));
            string_push(out, exec_hex_lower_digit((c as u32) % 16));
        } else {
            string_push(out, c);
        }
        proof {
            assert(out@ =~= before + spec_json_escape_char(c));
            assert(s@.subrange(0, i + 1) =~= s@.subrange(0, i as int).push(s@[i as int]));
            lemma_json_escape_push(s@.subrange(0, i as int), s@[i as int]);
        }
    }
    proof {
        assert(s@.subrange(0, n as int) =~= s@);
    }
}

/// The JSON object text for a parameter container's entries.
pub fn json_object_of(m: &OrderMap<String, String>) -> (r: String)
    ensures
        r@ == spec_json_object(entries_of(*m)),
{
    let ghost es = entries_of(*m);
    let items = params_entries(m);
    let n: usize = items.len();
    let mut r = String::from_str("{");
    for i in 0..n
        invariant
            n == items@.len(),
            items@.len() == es.len(),
            es == entries_of(*m),
            forall|t: int|
                0 <= t < items@.len() ==> (#[trigger] items@[t]).0@ == es[t].0 && items@[t].1@
                    == es[t].1,
            r@ == "{"@ + spec_join(
                es.subrange(0, i as int).map_values(
                    |p: (Seq<char>, Seq<char>)| spec_json_member(p),
                ),
                ","@,
            ),
    {
        let ghost prefix = es.subrange(0, i as int);
        let ghost parts = prefix.map_values(|p: (Seq<char>, Seq<char>)| spec_json_member(p));
        if i > 0 {
            r.append(",");
        }
        r.append("\"");
        push_json_escaped(&mut r, items[i].0.as_str());
        r.append("\"");
        r.append(":");
        r.append("\"");
        push_json_escaped(&mut r, items[i].1.as_str());
        r.append("\"");
        proof {
            assert(es.subrange(0, i + 1) =~= prefix.push(es[i as int]));
            assert(es.subrange(0, i + 1).map_values(
                |p: (Seq<char>, Seq<char>)| spec_json_member(p),
            ) =~= parts.push(spec_json_member(es[i as int])));
            lemma_join_push(parts, ","@, spec_json_member(es[i as int]));
            assert(parts.len() == i as int);
            assert(r@ =~= "{"@ + spec_join(
                es.subrange(0, i + 1).map_values(|p: (Seq<char>, Seq<char>)| spec_json_member(p)),
                ","@,
            ));
        }
    }
    r.append("}");
    proof {
        assert(es.subrange(0, n as int) =~= es);
        assert(r@ =~= spec_json_object(es));
    }
    r
}

} // verus!
