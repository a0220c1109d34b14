//! Building compact JSON text as UTF-8 bytes.
//!
//! Outgoing messages carry their header and content as compact JSON objects.
//! The functions here emit those objects byte by byte, so the exact byte
//! sequence placed on the wire is pinned by the specifications below.

use vstd::prelude::*;
use vstd::string::StringSliceAdditionalSpecFns;
use vstd::utf8::encode_utf8;

verus! {

/// The byte of a lowercase hexadecimal digit for a nibble value.
pub open spec fn hex_digit_lower(n: u8) -> u8
    recommends
        n < 16,
{
    if n < 10 {
        (48 + n) as u8
    } else {
        (87 + n) as u8
    }
}

/// How a single byte stands inside a JSON string literal: quotes and
/// backslashes are escaped, control bytes use the `\u00XX` form, and every
/// other byte (including UTF-8 continuation bytes) stands as itself.
pub open spec fn json_escaped_byte(b: u8) -> Seq<u8> {
    if b == 34 {
        seq![92u8, 34u8]
    } else if b == 92 {
        seq![92u8, 92u8]
    } else if b < 32 {
        seq![92u8, 117u8, 48u8, 48u8, hex_digit_lower((b / 16) as u8), hex_digit_lower((b % 16) as u8)]
    } else {
        seq![b]
    }
}

/// A byte sequence escaped for use inside a JSON string literal.
pub open spec fn json_escaped(s: Seq<u8>) -> Seq<u8>
    decreases s.len(),
{
    if s.len() == 0 {
        Seq::empty()
    } else {
        json_escaped_byte(s.first()) + json_escaped(s.drop_first())
    }
}

/// A JSON string literal holding the given (UTF-8) bytes.
pub open spec fn json_string_of(s: Seq<u8>) -> Seq<u8> {
    seq![34u8] + json_escaped(s) + seq![34u8]
}

/// A JSON string literal holding the UTF-8 encoding of the given characters.
pub open spec fn json_string_of_chars(s: Seq<char>) -> Seq<u8> {
    json_string_of(encode_utf8(s))
}

/// A JSON boolean literal.
pub open spec fn json_bool_of(b: bool) -> Seq<u8> {
    if b {
        seq![116u8, 114u8, 117u8, 101u8]
    } else {
        seq![102u8, 97u8, 108u8, 115u8, 101u8]
    }
}

/// One `"key":value` member of a JSON object.
pub open spec fn json_member(key: Seq<char>, value: Seq<u8>) -> Seq<u8> {
    json_string_of_chars(key) + seq![58u8] + value
}

/// The two bytes of the canonical empty JSON object.
pub open spec fn empty_object_bytes() -> Seq<u8> {
    seq![123u8, 125u8]
}

proof fn lemma_json_escaped_push(s: Seq<u8>, b: u8)
    ensures
        json_escaped(s.push(b)) == json_escaped(s) + json_escaped_byte(b),
    decreases s.len(),
{
    if s.len() == 0 {
        assert(s.push(b).first() == b);
        assert(s.push(b).drop_first() =~= Seq::empty());
        assert(json_escaped(s.push(b)) == json_escaped_byte(b) + json_escaped(Seq::empty()));
        assert(json_escaped(s.push(b)) =~= json_escaped(s) + json_escaped_byte(b));
    } else {
        assert(s.push(b).drop_first() =~= s.drop_first().push(b));
        lemma_json_escaped_push(s.drop_first(), b);
        assert(json_escaped(s.push(b)) =~= json_escaped(s) + json_escaped_byte(b));
    }
}

/// Append the escaped form of `s` to `out`.
fn push_escaped(out: &mut Vec<u8>, s: &[u8])
    ensures
        final(out)@ == old(out)@ + json_escaped(s@),
{
    let ghost orig = out@;
    let n = s.len();
    for i in 0..n
        invariant
            n == s@.len(),
            out@ == orig + json_escaped(s@.take(i as int)),
    {
        let b = s[i];
        if b == 34 {
            out.push(92);
            out.push(34);
        } else if b == 92 {
            out.push(92);
            out.push(92);
        } else if b < 32 {
            out.push(92);
            out.push(117);
            out.push(48);
            out.push(48);
            let hi = b / 16;
            let lo = b % 16;
            out.push(if hi < 10 { 48 + hi } else { 87 + hi });
            out.push(if lo < 10 { 48 + lo } else { 87 + lo });
        } else {
            out.push(b);
        }
        proof {
            lemma_json_escaped_push(s@.take(i as int), s@[i as int]);
            assert(s@.take(i as int).push(s@[i as int]) =~= s@.take(i + 1));
            assert(out@ =~= orig + json_escaped(s@.take(i + 1)));
        }
    }
    proof {
        assert(s@.take(n as int) =~= s@);
    }
}

/// Append a JSON string literal holding the bytes of `s` to `out`.
pub fn push_json_string_bytes(out: &mut Vec<u8>, s: &[u8])
    ensures
        final(out)@ == old(out)@ + json_string_of(s@),
{
    out.push(34);
    push_escaped(out, s);
    out.push(34);
    proof {
        assert(out@ =~= old(out)@ + json_string_of(s@));
    }
}

/// Append a JSON string literal holding the UTF-8 encoding of `s` to `out`.
pub fn push_json_string(out: &mut Vec<u8>, s: &str)
    ensures
        final(out)@ == old(out)@ + json_string_of_chars(s@),
{
    push_json_string_bytes(out, s.as_bytes());
}

/// Append a JSON boolean literal to `out`.
pub fn push_json_bool(out: &mut Vec<u8>, b: bool)
    ensures
        final(out)@ == old(out)@ + json_bool_of(b),
{
    if b {
        out.push(116);
        out.push(114);
        out.push(117);
        out.push(101);
    } else {
        out.push(102);
        out.push(97);
        out.push(108);
        out.push(115);
        out.push(101);
    }
    proof {
        assert(out@ =~= old(out)@ + json_bool_of(b));
    }
}

/// Append `"key":` followed by a JSON string holding `value` to `out`.
pub fn push_member_str(out: &mut Vec<u8>, key: &str, value: &str)
    ensures
        final(out)@ == old(out)@ + json_member(key@, json_string_of_chars(value@)),
{
    push_json_string(out, key);
    out.push(58);
    push_json_string(out, value);
    proof {
        assert(out@ =~= old(out)@ + json_member(key@, json_string_of_chars(value@)));
    }
}

/// Append `"key":` followed by a JSON boolean to `out`.
pub fn push_member_bool(out: &mut Vec<u8>, key: &str, value: bool)
    ensures
        final(out)@ == old(out)@ + json_member(key@, json_bool_of(value)),
{
    push_json_string(out, key);
    out.push(58);
    push_json_bool(out, value);
    proof {
        assert(out@ =~= old(out)@ + json_member(key@, json_bool_of(value)));
    }
}

/// Whether a frame holds exactly the canonical empty JSON object.
pub fn is_empty_object(b: &[u8]) -> (r: bool)
    ensures
        r == (b@ == empty_object_bytes()),
{
    if b.len() != 2 {
        proof {
            assert(b@ != empty_object_bytes());
        }
        return false;
    }
    let r = b[0] == 123 && b[1] == 125;
    proof {
        if r {
            assert(b@ =~= empty_object_bytes());
        } else {
            assert(b@ != empty_object_bytes());
        }
    }
    r
}

/// The canonical empty JSON object, `{}`, as bytes.
pub fn empty_dict_as_bytes() -> (r: Vec<u8>)
    ensures
        r@ == empty_object_bytes(),
{
    let mut out: Vec<u8> = Vec::new();
    out.push(123);
    out.push(125);
    proof {
        assert(out@ =~= empty_object_bytes());
    }
    out
}

} // verus!
