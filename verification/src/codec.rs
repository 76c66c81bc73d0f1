//! The `length:payload` framing used on the wire: an ASCII decimal
//! byte count, one colon, then exactly that many bytes of UTF-8 text.

use vstd::prelude::*;
use vstd::utf8::*;
use vstd::slice::*;
use crate::digits::{dec_digits, dec_string_val, is_dec_digit, is_dec_string, lemma_dec_digits, lemma_dec_digits_roundtrip, parse_u64_dec, u64_to_dec};
use crate::error::MarionetteError;

verus! {

/// The bytes of one frame around a payload.
pub open spec fn frame_bytes(payload: Seq<u8>) -> Seq<u8> {
    dec_digits(payload.len()) + seq![58u8] + payload
}

/// Index of the first occurrence of `x`, or `-1`.
pub open spec fn find_byte(b: Seq<u8>, x: u8) -> int
    decreases b.len(),
{
    if b.len() == 0 {
        -1
    } else if b[0] == x {
        0
    } else {
        let r = find_byte(b.drop_first(), x);
        if r < 0 {
            -1
        } else {
            r + 1
        }
    }
}

/// `find_byte` returns the first occurrence and nothing earlier.
pub proof fn lemma_find_byte(b: Seq<u8>, x: u8)
    ensures
        find_byte(b, x) >= 0 ==> {
            &&& find_byte(b, x) < b.len()
            &&& b[find_byte(b, x)] == x
            &&& forall|k: int| 0 <= k < find_byte(b, x) ==> b[k] != x
        },
        find_byte(b, x) < 0 ==> forall|k: int| 0 <= k < b.len() ==> b[k] != x,
    decreases b.len(),
{
    if b.len() == 0 {
    } else if b[0] == x {
    } else {
        lemma_find_byte(b.drop_first(), x);
        assert(forall|k: int| 1 <= k < b.len() ==> b[k] == b.drop_first()[k - 1]);
    }
}

/// The position where `x` first occurs pins `find_byte` down.
pub proof fn lemma_find_byte_at(b: Seq<u8>, x: u8, c: int)
    requires
        0 <= c < b.len(),
        b[c] == x,
        forall|k: int| 0 <= k < c ==> b[k] != x,
    ensures
        find_byte(b, x) == c,
{
    lemma_find_byte(b, x);
    let r = find_byte(b, x);
    if r < 0 {
    } else if r < c {
    } else if r > c {
    }
}

/// What a read buffer holds: not yet a whole frame, a malformed frame,
/// or one complete frame and how many bytes of the buffer it took.
pub enum FrameScanSpec {
    Incomplete,
    Invalid,
    Complete(Seq<char>, int),
}

/// The frame at the front of `b`, if any: digits up to the first colon
/// give the payload's byte count, and the payload must be UTF-8.
pub open spec fn scan_frame_spec(b: Seq<u8>) -> FrameScanSpec {
    let c = find_byte(b, 58);
    if c < 0 {
        FrameScanSpec::Incomplete
    } else {
        let prefix = b.subrange(0, c);
        if !is_dec_string(prefix) || dec_string_val(prefix) > usize::MAX {
            FrameScanSpec::Invalid
        } else {
            let len = dec_string_val(prefix) as int;
            if b.len() < c + 1 + len {
                FrameScanSpec::Incomplete
            } else {
                let payload = b.subrange(c + 1, c + 1 + len);
                if valid_utf8(payload) {
                    FrameScanSpec::Complete(decode_utf8(payload), c + 1 + len)
                } else {
                    FrameScanSpec::Invalid
                }
            }
        }
    }
}

/// Exec-side outcome of scanning a buffer for one frame.
#[derive(Debug, PartialEq)]
pub enum FrameScan {
    /// More bytes must arrive before the frame can be judged.
    Incomplete,
    /// The buffer can never start a well-formed frame.
    Invalid,
    /// One whole frame: its text, and the bytes it occupied.
    Complete(String, usize),
}

/// Frame a payload: its byte count in decimal, a colon, the bytes.
pub fn write_frame(text: &str) -> (r: Vec<u8>)
    ensures
        r@ == frame_bytes(encode_utf8(text@)),
{
    let bytes = text.as_bytes();
    let mut out = u64_to_dec(bytes.len() as u64);
    out.push(58);
    crate::json::push_bytes(&mut out, bytes);
    proof {
        assert(out@ =~= frame_bytes(encode_utf8(text@)));
    }
    out
}

/// Frame raw payload bytes: their count in decimal, a colon, the bytes.
pub fn write_frame_bytes(payload: &[u8]) -> (r: Vec<u8>)
    ensures
        r@ == frame_bytes(payload@),
{
    let mut out = u64_to_dec(payload.len() as u64);
    out.push(58);
    crate::json::push_bytes(&mut out, payload);
    proof {
        assert(out@ =~= frame_bytes(payload@));
    }
    out
}

/// Position of the first `x` in `buf`, as [`find_byte`] gives it.
#[verifier::loop_isolation(false)]
pub fn find_byte_exec(buf: &[u8], x: u8) -> (r: Option<usize>)
    ensures
        match r {
            Some(i) => find_byte(buf@, x) == i && i < buf@.len() && buf@[i as int] == x,
            None => find_byte(buf@, x) < 0,
        },
{
    let mut c: usize = 0;
    while c < buf.len() && buf[c] != x
        invariant
            c <= buf.len(),
            forall|k: int| 0 <= k < c ==> buf@[k] != x,
        decreases buf.len() - c,
    {
        c = c + 1;
    }
    if c == buf.len() {
        proof {
            lemma_find_byte(buf@, x);
            if find_byte(buf@, x) >= 0 {
                assert(buf@[find_byte(buf@, x)] == x);
            }
        }
        None
    } else {
        proof {
            lemma_find_byte_at(buf@, x, c as int);
        }
        Some(c)
    }
}

/// Scan the front of `buf` for one frame.
#[verifier::loop_isolation(false)]
pub fn scan_frame(buf: &[u8]) -> (r: FrameScan)
    ensures
        match r {
            FrameScan::Incomplete => scan_frame_spec(buf@) is Incomplete,
            FrameScan::Invalid => scan_frame_spec(buf@) is Invalid,
            FrameScan::Complete(s, used) => scan_frame_spec(buf@) == FrameScanSpec::Complete(
                s@,
                used as int,
            ),
        },
{
    let mut c: usize = 0;
    while c < buf.len() && buf[c] != 58
        invariant
            c <= buf.len(),
            forall|k: int| 0 <= k < c ==> buf@[k] != 58,
        decreases buf.len() - c,
    {
        c = c + 1;
    }
    if c == buf.len() {
        proof {
            lemma_find_byte(buf@, 58);
            if find_byte(buf@, 58) >= 0 {
                assert(buf@[find_byte(buf@, 58)] == 58);
            }
        }
        return FrameScan::Incomplete;
    }
    proof {
        lemma_find_byte_at(buf@, 58, c as int);
    }
    let prefix = slice_subrange(buf, 0, c);
    let parsed = parse_u64_dec(prefix);
    let len_u64 = match parsed {
        Some(v) => v,
        None => {
            return FrameScan::Invalid;
        },
    };
    if len_u64 > usize::MAX as u64 {
        return FrameScan::Invalid;
    }
    let len = len_u64 as usize;
    if buf.len() - c - 1 < len {
        return FrameScan::Incomplete;
    }
    let payload = slice_subrange(buf, c + 1, c + 1 + len);
    let payload_vec = slice_to_vec(payload);
    match bytes_to_string(payload_vec) {
        Some(s) => FrameScan::Complete(s, c + 1 + len),
        None => FrameScan::Invalid,
    }
}

/// Read one complete frame from a buffer that should hold one.
/// A truncated or malformed buffer is a framing error.
pub fn read_frame(buf: &[u8]) -> (r: Result<(String, usize), MarionetteError>)
    ensures
        match r {
            Ok((s, used)) => scan_frame_spec(buf@) == FrameScanSpec::Complete(s@, used as int),
            Err(e) => e == MarionetteError::Frame && !(scan_frame_spec(buf@) is Complete),
        },
{
    match scan_frame(buf) {
        FrameScan::Complete(s, used) => Ok((s, used)),
        FrameScan::Incomplete => Err(MarionetteError::Frame),
        FrameScan::Invalid => Err(MarionetteError::Frame),
    }
}

/// Framing round trip: a written frame scans back to exactly the text
/// it was written from, whatever bytes follow it in the buffer.
pub proof fn lemma_frame_roundtrip(s: Seq<char>, rest: Seq<u8>)
    requires
        encode_utf8(s).len() <= usize::MAX,
    ensures
        scan_frame_spec(frame_bytes(encode_utf8(s)) + rest) == FrameScanSpec::Complete(
            s,
            frame_bytes(encode_utf8(s)).len() as int,
        ),
{
    let payload = encode_utf8(s);
    let digits = dec_digits(payload.len());
    let b = frame_bytes(payload) + rest;
    lemma_dec_digits(payload.len());
    lemma_dec_digits_roundtrip(payload.len());
    let c = digits.len() as int;
    assert(b[c] == 58);
    assert(forall|k: int| 0 <= k < c ==> b[k] == digits[k] && is_dec_digit(digits[k]));
    lemma_find_byte_at(b, 58, c);
    assert(b.subrange(0, c) =~= digits);
    assert(b.len() >= c + 1 + payload.len());
    assert(b.subrange(c + 1, c + 1 + payload.len() as int) =~= payload);
    encode_utf8_valid_utf8(s);
    encode_utf8_decode_utf8(s);
}

/// Relies on `String::from_utf8`: it succeeds exactly on valid UTF-8
/// and returns the decoded characters.
#[verifier::external_body]
pub(crate) fn bytes_to_string(v: Vec<u8>) -> (r: Option<String>)
    ensures
        match r {
            Some(s) => valid_utf8(v@) && s@ == decode_utf8(v@),
            None => !valid_utf8(v@),
        },
{
    String::from_utf8(v).ok()
}

} // verus!
