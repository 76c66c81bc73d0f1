//! The JSON values that travel inside protocol frames.
//!
//! Outgoing messages are rendered by a verified serializer whose exact
//! output is given by [`json_ser`].  Incoming frames are parsed by
//! serde_json behind a trusted boundary and handed to the rest of the
//! library as [`JsonData`], so everything that inspects a response is
//! ordinary verified code.

use vstd::prelude::*;
use vstd::utf8::*;
use serde_json::Value;

verus! {

/// A JSON document.  Numbers that fit a machine integer are kept as
/// one; any other numeric literal is kept as its text.
#[derive(Debug, PartialEq)]
pub enum JsonData {
    Null,
    Bool(bool),
    UInt(u64),
    Int(i64),
    /// A numeric literal that fits neither `u64` nor `i64`, as written.
    Num(String),
    Str(String),
    Arr(Vec<JsonData>),
    Obj(Vec<(String, JsonData)>),
}

/// Lower-case hexadecimal digit for `v < 16`.
pub open spec fn hex_digit(v: u8) -> u8 {
    if v < 10 {
        (48 + v) as u8
    } else {
        (87 + v) as u8
    }
}

/// How one byte of a string is written inside a JSON string literal:
/// quote and backslash get a backslash escape, the five named control
/// characters their short forms, other control bytes a `\u00..` escape,
/// and everything else stands for itself.
pub open spec fn esc_byte(b: u8) -> Seq<u8> {
    if b == 34 {
        seq![92u8, 34u8]
    } else if b == 92 {
        seq![92u8, 92u8]
    } else if b == 8 {
        seq![92u8, 98u8]
    } else if b == 9 {
        seq![92u8, 116u8]
    } else if b == 10 {
        seq![92u8, 110u8]
    } else if b == 12 {
        seq![92u8, 102u8]
    } else if b == 13 {
        seq![92u8, 114u8]
    } else if b < 32 {
        seq![92u8, 117u8, 48u8, 48u8, hex_digit(b / 16), hex_digit(b % 16)]
    } else {
        seq![b]
    }
}

pub open spec fn esc_bytes(s: Seq<u8>) -> Seq<u8>
    decreases s.len(),
{
    if s.len() == 0 {
        Seq::empty()
    } else {
        esc_byte(s[0]) + esc_bytes(s.drop_first())
    }
}

/// A JSON string literal: quotes around the escaped UTF-8 bytes.
pub open spec fn json_str_bytes(s: Seq<char>) -> Seq<u8> {
    seq![34u8] + esc_bytes(encode_utf8(s)) + seq![34u8]
}

/// The exact bytes this library writes for a JSON value.
pub open spec fn json_ser(d: JsonData) -> Seq<u8>
    decreases d,
{
    match d {
        JsonData::Null => seq![110u8, 117u8, 108u8, 108u8],
        JsonData::Bool(b) => if b {
            seq![116u8, 114u8, 117u8, 101u8]
        } else {
            seq![102u8, 97u8, 108u8, 115u8, 101u8]
        },
        JsonData::UInt(n) => crate::digits::dec_digits(n as nat),
        JsonData::Int(i) => if i >= 0 {
            crate::digits::dec_digits(i as nat)
        } else {
            seq![45u8] + crate::digits::dec_digits((-(i as int)) as nat)
        },
        JsonData::Num(s) => encode_utf8(s@),
        JsonData::Str(s) => json_str_bytes(s@),
        JsonData::Arr(v) => seq![91u8] + json_ser_items(v@) + seq![93u8],
        JsonData::Obj(v) => seq![123u8] + json_ser_entries(v@) + seq![125u8],
    }
}

/// Array elements, comma separated.
pub open spec fn json_ser_items(items: Seq<JsonData>) -> Seq<u8>
    decreases items,
{
    if items.len() == 0 {
        Seq::empty()
    } else if items.len() == 1 {
        json_ser(items[0])
    } else {
        json_ser(items[0]) + seq![44u8] + json_ser_items(items.drop_first())
    }
}

/// One object member: quoted key, colon, value.
pub open spec fn json_entry(e: (String, JsonData)) -> Seq<u8>
    decreases e,
{
    json_str_bytes(e.0@) + seq![58u8] + json_ser(e.1)
}

/// Object members, comma separated.
pub open spec fn json_ser_entries(entries: Seq<(String, JsonData)>) -> Seq<u8>
    decreases entries,
{
    if entries.len() == 0 {
        Seq::empty()
    } else if entries.len() == 1 {
        json_entry(entries[0])
    } else {
        json_entry(entries[0]) + seq![44u8] + json_ser_entries(entries.drop_first())
    }
}

/// First entry with the given key, if any.
pub open spec fn obj_lookup(entries: Seq<(String, JsonData)>, key: Seq<char>) -> Option<JsonData>
    decreases entries.len(),
{
    if entries.len() == 0 {
        None
    } else if entries[0].0@ == key {
        Some(entries[0].1)
    } else {
        obj_lookup(entries.drop_first(), key)
    }
}

pub proof fn lemma_esc_bytes_concat(a: Seq<u8>, b: Seq<u8>)
    ensures
        esc_bytes(a + b) == esc_bytes(a) + esc_bytes(b),
    decreases a.len(),
{
    if a.len() == 0 {
        assert(a + b =~= b);
        assert(esc_bytes(a) + esc_bytes(b) =~= esc_bytes(b));
    } else {
        lemma_esc_bytes_concat(a.drop_first(), b);
        assert((a + b).drop_first() =~= a.drop_first() + b);
        assert(esc_bytes(a + b) =~= esc_byte(a[0]) + (esc_bytes(a.drop_first()) + esc_bytes(b)));
        assert(esc_byte(a[0]) + (esc_bytes(a.drop_first()) + esc_bytes(b)) =~= (esc_byte(a[0])
            + esc_bytes(a.drop_first())) + esc_bytes(b));
    }
}

pub proof fn lemma_ser_items_push(s: Seq<JsonData>, x: JsonData)
    ensures
        json_ser_items(s.push(x)) == if s.len() == 0 {
            json_ser(x)
        } else {
            json_ser_items(s) + seq![44u8] + json_ser(x)
        },
    decreases s.len(),
{
    let p = s.push(x);
    if s.len() == 0 {
        assert(p[0] == x);
    } else {
        lemma_ser_items_push(s.drop_first(), x);
        assert(p.drop_first() =~= s.drop_first().push(x));
        assert(p[0] == s[0]);
        if s.len() == 1 {
            assert(s.drop_first().len() == 0);
            assert(json_ser_items(p) == json_ser(s[0]) + seq![44u8] + json_ser(x));
            assert(json_ser_items(s) == json_ser(s[0]));
        } else {
            assert(json_ser_items(p) == json_ser(s[0]) + seq![44u8] + (json_ser_items(
                s.drop_first(),
            ) + seq![44u8] + json_ser(x)));
            assert(json_ser(s[0]) + seq![44u8] + (json_ser_items(s.drop_first()) + seq![44u8]
                + json_ser(x)) =~= (json_ser(s[0]) + seq![44u8] + json_ser_items(s.drop_first()))
                + seq![44u8] + json_ser(x));
        }
    }
}

pub proof fn lemma_ser_entries_push(s: Seq<(String, JsonData)>, x: (String, JsonData))
    ensures
        json_ser_entries(s.push(x)) == if s.len() == 0 {
            json_entry(x)
        } else {
            json_ser_entries(s) + seq![44u8] + json_entry(x)
        },
    decreases s.len(),
{
    let p = s.push(x);
    if s.len() == 0 {
        assert(p[0] == x);
    } else {
        lemma_ser_entries_push(s.drop_first(), x);
        assert(p.drop_first() =~= s.drop_first().push(x));
        assert(p[0] == s[0]);
        if s.len() == 1 {
            assert(s.drop_first().len() == 0);
        } else {
            assert(json_entry(s[0]) + seq![44u8] + (json_ser_entries(s.drop_first()) + seq![44u8]
                + json_entry(x)) =~= (json_entry(s[0]) + seq![44u8] + json_ser_entries(
                s.drop_first(),
            )) + seq![44u8] + json_entry(x));
        }
    }
}

/// Append a byte slice.
#[verifier::loop_isolation(false)]
pub fn push_bytes(out: &mut Vec<u8>, src: &[u8])
    ensures
        final(out)@ == old(out)@ + src@,
{
    let mut i: usize = 0;
    while i < src.len()
        invariant
            i <= src.len(),
            out@ == old(out)@ + src@.subrange(0, i as int),
        decreases src.len() - i,
    {
        out.push(src[i]);
        proof {
            assert(out@ =~= old(out)@ + src@.subrange(0, i + 1));
        }
        i = i + 1;
    }
    proof {
        assert(src@.subrange(0, src@.len() as int) =~= src@);
    }
}

/// Append the UTF-8 bytes of a string, unescaped.
pub fn push_str_bytes(out: &mut Vec<u8>, s: &str)
    ensures
        final(out)@ == old(out)@ + encode_utf8(s@),
{
    push_bytes(out, s.as_bytes());
}

fn hex_u8(v: u8) -> (r: u8)
    requires
        v < 16,
    ensures
        r == hex_digit(v),
{
    if v < 10 {
        48 + v
    } else {
        87 + v
    }
}

/// Append a JSON string literal holding `s`.
#[verifier::loop_isolation(false)]
pub fn push_json_str(out: &mut Vec<u8>, s: &str)
    ensures
        final(out)@ == old(out)@ + json_str_bytes(s@),
{
    out.push(34);
    let bytes = s.as_bytes();
    let mut i: usize = 0;
    while i < bytes.len()
        invariant
            i <= bytes.len(),
            bytes@ == encode_utf8(s@),
            out@ == old(out)@ + seq![34u8] + esc_bytes(bytes@.subrange(0, i as int)),
        decreases bytes.len() - i,
    {
        let b = bytes[i];
        let ghost pre = bytes@.subrange(0, i as int);
        proof {
            assert(bytes@.subrange(0, i + 1) =~= pre + seq![b]);
            lemma_esc_bytes_concat(pre, seq![b]);
            assert(seq![b].drop_first() =~= Seq::<u8>::empty());
            assert(seq![b][0] == b);
            assert(esc_bytes(Seq::<u8>::empty()) =~= Seq::<u8>::empty());
            assert(esc_bytes(seq![b]) =~= esc_byte(b));
        }
        if b == 34 {
            out.push(92);
            out.push(34);
        } else if b == 92 {
            out.push(92);
            out.push(92);
        } else if b == 8 {
            out.push(92);
            out.push(98);
        } else if b == 9 {
            out.push(92);
            out.push(116);
        } else if b == 10 {
            out.push(92);
            out.push(110);
        } else if b == 12 {
            out.push(92);
            out.push(102);
        } else if b == 13 {
            out.push(92);
            out.push(114);
        } else if b < 32 {
            out.push(92);
            out.push(117);
            out.push(48);
            out.push(48);
            out.push(hex_u8(b / 16));
            out.push(hex_u8(b % 16));
        } else {
            out.push(b);
        }
        proof {
            assert(out@ =~= old(out)@ + seq![34u8] + esc_bytes(bytes@.subrange(0, i + 1)));
        }
        i = i + 1;
    }
    out.push(34);
    proof {
        assert(bytes@.subrange(0, bytes@.len() as int) =~= bytes@);
        assert(out@ =~= old(out)@ + json_str_bytes(s@));
    }
}

/// Append the serialized form of `d`.
#[verifier::loop_isolation(false)]
#[verifier::rlimit(100)]
pub fn json_write(d: &JsonData, out: &mut Vec<u8>)
    ensures
        final(out)@ == old(out)@ + json_ser(*d),
    decreases *d,
{
    match d {
        JsonData::Null => {
            out.push(110);
            out.push(117);
            out.push(108);
            out.push(108);
            proof {
                assert(out@ =~= old(out)@ + json_ser(*d));
            }
        },
        JsonData::Bool(b) => {
            if *b {
                out.push(116);
                out.push(114);
                out.push(117);
                out.push(101);
            } else {
                out.push(102);
                out.push(97);
                out.push(108);
                out.push(115);
                out.push(101);
            }
            proof {
                assert(out@ =~= old(out)@ + json_ser(*d));
            }
        },
        JsonData::UInt(n) => {
            crate::digits::push_dec(out, *n);
        },
        JsonData::Int(i) => {
            if *i >= 0 {
                crate::digits::push_dec(out, *i as u64);
                proof {
                    assert(out@ =~= old(out)@ + json_ser(*d));
                }
            } else {
                out.push(45);
                let m: u64 = ((-(*i + 1)) as u64) + 1;
                proof {
                    assert(m as nat == (-(*i as int)) as nat);
                }
                crate::digits::push_dec(out, m);
                proof {
                    assert(out@ =~= old(out)@ + json_ser(*d));
                }
            }
        },
        JsonData::Num(s) => {
            push_str_bytes(out, s.as_str());
        },
        JsonData::Str(s) => {
            push_json_str(out, s.as_str());
        },
        JsonData::Arr(v) => {
            out.push(91);
            let mut i: usize = 0;
            while i < v.len()
                invariant
                    i <= v.len(),
                    out@ == old(out)@ + seq![91u8] + json_ser_items(v@.subrange(0, i as int)),
                decreases v.len() - i,
            {
                if i > 0 {
                    out.push(44);
                }
                proof {
                    assert(decreases_to!(*d => v@[i as int]));
                    assert(v@.subrange(0, i + 1) =~= v@.subrange(0, i as int).push(v@[i as int]));
                    lemma_ser_items_push(v@.subrange(0, i as int), v@[i as int]);
                }
                json_write(&v[i], out);
                proof {
                    assert(out@ =~= old(out)@ + seq![91u8] + json_ser_items(
                        v@.subrange(0, i + 1),
                    ));
                }
                i = i + 1;
            }
            out.push(93);
            proof {
                assert(v@.subrange(0, v@.len() as int) =~= v@);
                assert(out@ =~= old(out)@ + json_ser(*d));
            }
        },
        JsonData::Obj(v) => {
            out.push(123);
            let mut i: usize = 0;
            while i < v.len()
                invariant
                    i <= v.len(),
                    out@ == old(out)@ + seq![123u8] + json_ser_entries(v@.subrange(0, i as int)),
                decreases v.len() - i,
            {
                if i > 0 {
                    out.push(44);
                }
                proof {
                    assert(decreases_to!(*d => v@[i as int].1));
                    assert(v@.subrange(0, i + 1) =~= v@.subrange(0, i as int).push(v@[i as int]));
                    lemma_ser_entries_push(v@.subrange(0, i as int), v@[i as int]);
                }
                let pair = &v[i];
                push_json_str(out, pair.0.as_str());
                out.push(58);
                json_write(&pair.1, out);
                proof {
                    assert(out@ =~= old(out)@ + seq![123u8] + json_ser_entries(
                        v@.subrange(0, i + 1),
                    ));
                }
                i = i + 1;
            }
            out.push(125);
            proof {
                assert(v@.subrange(0, v@.len() as int) =~= v@);
                assert(out@ =~= old(out)@ + json_ser(*d));
            }
        },
    }
}

/// Serialize `d` to its exact byte form.
pub fn json_to_bytes(d: &JsonData) -> (r: Vec<u8>)
    ensures
        r@ == json_ser(*d),
{
    let mut out: Vec<u8> = Vec::new();
    json_write(d, &mut out);
    proof {
        assert(out@ =~= json_ser(*d));
    }
    out
}

/// The bytes of the JSON literal `null`.
pub open spec fn null_bytes() -> Seq<u8> {
    seq![110u8, 117u8, 108u8, 108u8]
}

/// The bytes of a JSON boolean.
pub open spec fn bool_bytes(b: bool) -> Seq<u8> {
    if b {
        seq![116u8, 114u8, 117u8, 101u8]
    } else {
        seq![102u8, 97u8, 108u8, 115u8, 101u8]
    }
}

/// An object key with its colon.
pub open spec fn json_key(k: Seq<char>) -> Seq<u8> {
    json_str_bytes(k) + seq![58u8]
}

/// A string literal or `null`.
pub open spec fn json_opt_str(v: Option<Seq<char>>) -> Seq<u8> {
    match v {
        Some(s) => json_str_bytes(s),
        None => null_bytes(),
    }
}

pub fn push_null(out: &mut Vec<u8>)
    ensures
        final(out)@ == old(out)@ + null_bytes(),
{
    out.push(110);
    out.push(117);
    out.push(108);
    out.push(108);
    proof {
        assert(out@ =~= old(out)@ + null_bytes());
    }
}

pub fn push_bool(out: &mut Vec<u8>, b: bool)
    ensures
        final(out)@ == old(out)@ + bool_bytes(b),
{
    if b {
        out.push(116);
        out.push(114);
        out.push(117);
        out.push(101);
    } else {
        out.push(102);
        out.push(97);
        out.push(108);
        out.push(115);
        out.push(101);
    }
    proof {
        assert(out@ =~= old(out)@ + bool_bytes(b));
    }
}

/// Append `"key":`.
pub fn push_key(out: &mut Vec<u8>, key: &str)
    ensures
        final(out)@ == old(out)@ + json_key(key@),
{
    push_json_str(out, key);
    out.push(58);
    proof {
        assert(out@ =~= old(out)@ + json_key(key@));
    }
}

/// Append a string literal, or `null` when there is no string.
pub fn push_opt_json_str(out: &mut Vec<u8>, v: &Option<String>)
    ensures
        final(out)@ == old(out)@ + json_opt_str(
            match v {
                Some(s) => Some(s@),
                None => None,
            },
        ),
{
    match v {
        Some(s) => push_json_str(out, s.as_str()),
        None => push_null(out),
    }
}

/// Append a JSON array of the given values.
#[verifier::loop_isolation(false)]
pub fn push_items(out: &mut Vec<u8>, v: &Vec<JsonData>)
    ensures
        final(out)@ == old(out)@ + seq![91u8] + json_ser_items(v@) + seq![93u8],
{
    out.push(91);
    let mut i: usize = 0;
    while i < v.len()
        invariant
            i <= v.len(),
            out@ == old(out)@ + seq![91u8] + json_ser_items(v@.subrange(0, i as int)),
        decreases v.len() - i,
    {
        if i > 0 {
            out.push(44);
        }
        proof {
            assert(v@.subrange(0, i + 1) =~= v@.subrange(0, i as int).push(v@[i as int]));
            lemma_ser_items_push(v@.subrange(0, i as int), v@[i as int]);
        }
        json_write(&v[i], out);
        proof {
            assert(out@ =~= old(out)@ + seq![91u8] + json_ser_items(v@.subrange(0, i + 1)));
        }
        i = i + 1;
    }
    out.push(93);
    proof {
        assert(v@.subrange(0, v@.len() as int) =~= v@);
        assert(out@ =~= old(out)@ + seq![91u8] + json_ser_items(v@) + seq![93u8]);
    }
}

/// Byte-for-byte equality of two slices.
#[verifier::loop_isolation(false)]
pub fn bytes_eq(a: &[u8], b: &[u8]) -> (r: bool)
    ensures
        r == (a@ == b@),
{
    if a.len() != b.len() {
        return false;
    }
    let mut i: usize = 0;
    while i < a.len()
        invariant
            i <= a.len(),
            a@.len() == b@.len(),
            forall|k: int| 0 <= k < i ==> a@[k] == b@[k],
        decreases a.len() - i,
    {
        if a[i] != b[i] {
            return false;
        }
        i = i + 1;
    }
    proof {
        assert(a@ =~= b@);
    }
    true
}

/// Equality of two strings, decided on their UTF-8 bytes.
pub fn str_eq(a: &str, b: &str) -> (r: bool)
    ensures
        r == (a@ == b@),
{
    let r = bytes_eq(a.as_bytes(), b.as_bytes());
    proof {
        if r {
            encode_utf8_decode_utf8(a@);
            encode_utf8_decode_utf8(b@);
        }
    }
    r
}

/// First value under `key` in an object's entry list.
#[verifier::loop_isolation(false)]
pub fn obj_get<'a>(entries: &'a Vec<(String, JsonData)>, key: &str) -> (r: Option<&'a JsonData>)
    ensures
        match r {
            Some(v) => obj_lookup(entries@, key@) == Some(*v),
            None => obj_lookup(entries@, key@) is None,
        },
{
    let mut i: usize = 0;
    proof {
        assert(entries@.skip(0) =~= entries@);
    }
    while i < entries.len()
        invariant
            i <= entries.len(),
            obj_lookup(entries@, key@) == obj_lookup(entries@.skip(i as int), key@),
        decreases entries.len() - i,
    {
        proof {
            assert(entries@.skip(i as int)[0] == entries@[i as int]);
            assert(entries@.skip(i as int).drop_first() =~= entries@.skip(i + 1));
        }
        if str_eq(entries[i].0.as_str(), key) {
            return Some(&entries[i].1);
        }
        i = i + 1;
    }
    proof {
        assert(entries@.skip(entries@.len() as int).len() == 0);
    }
    None
}

/// Take the first value under `key` out of an object's entry list.
#[verifier::loop_isolation(false)]
pub fn obj_take(entries: Vec<(String, JsonData)>, key: &str) -> (r: Option<JsonData>)
    ensures
        r == obj_lookup(entries@, key@),
{
    let ghost orig = entries@;
    let mut entries = entries;
    let mut i: usize = 0;
    proof {
        assert(orig.skip(0) =~= orig);
    }
    while i < entries.len()
        invariant
            i <= entries.len(),
            entries@ == orig,
            obj_lookup(orig, key@) == obj_lookup(orig.skip(i as int), key@),
        decreases entries.len() - i,
    {
        proof {
            assert(orig.skip(i as int)[0] == orig[i as int]);
            assert(orig.skip(i as int).drop_first() =~= orig.skip(i + 1));
        }
        if str_eq(entries[i].0.as_str(), key) {
            let pair = entries.remove(i);
            return Some(pair.1);
        }
        i = i + 1;
    }
    proof {
        assert(orig.skip(orig.len() as int).len() == 0);
    }
    None
}

/// `serde_json`'s parsed value, opaque to the library: it only carries
/// the parser's result into `lower_value`.
#[verifier::external_type_specification]
#[verifier::external_body]
pub struct ExValue(Value);

/// Relies on the variant accessors of `serde_json::Value` to convert a
/// parsed tree, variant by variant, into the library's own [`JsonData`].
/// Nothing is assumed about the result: every caller handles any tree.
#[verifier::external_body]
fn lower_value(v: &Value) -> JsonData {
    match v {
        Value::Null => JsonData::Null,
        Value::Bool(b) => JsonData::Bool(*b),
        Value::Number(n) => match (n.as_u64(), n.as_i64()) {
            (Some(u), _) => JsonData::UInt(u),
            (None, Some(i)) => JsonData::Int(i),
            (None, None) => JsonData::Num(n.to_string()),
        },
        Value::String(s) => JsonData::Str(s.clone()),
        Value::Array(a) => JsonData::Arr(a.iter().map(lower_value).collect()),
        Value::Object(m) => JsonData::Obj(m.iter().map(|(k, x)| (k.clone(), lower_value(x))).collect()),
    }
}

/// The tree a text parses to, `None` when the text is not JSON.  It
/// names what `parse_json` returns: the parse depends on the text
/// alone, so equal texts parse to equal trees; nothing further is
/// assumed about which texts parse or to what.
pub uninterp spec fn spec_parse_json(s: Seq<char>) -> Option<JsonData>;

/// Relies on `serde_json::from_str` to parse JSON text; the tree comes
/// back through `lower_value`.  `None` when the text is not JSON.  The
/// result is a function of the text alone, named [`spec_parse_json`].
#[verifier::external_body]
pub(crate) fn parse_json(s: &str) -> (r: Option<JsonData>)
    ensures
        r == spec_parse_json(s@),
{
    match serde_json::from_str::<Value>(s) {
        Ok(v) => Some(lower_value(&v)),
        Err(_) => None,
    }
}

} // verus!
