//! Decimal notation for the length prefixes and message ids that the
//! protocol writes in ASCII.

use vstd::prelude::*;

verus! {

/// `b'0'` to `b'9'`.
pub open spec fn is_dec_digit(b: u8) -> bool {
    48 <= b <= 57
}

/// Decimal digits of `n`, most significant first, no leading zeros.
pub open spec fn dec_digits(n: nat) -> Seq<u8>
    decreases n,
{
    if n < 10 {
        seq![(48 + n) as u8]
    } else {
        dec_digits(n / 10).push((48 + n % 10) as u8)
    }
}

/// Numeric value of a digit string, most significant digit first.
pub open spec fn digits_val(s: Seq<u8>) -> nat
    decreases s.len(),
{
    if s.len() == 0 {
        0
    } else {
        digits_val(s.drop_last()) * 10 + (s.last() - 48) as nat
    }
}

/// The part of a decimal string after an optional leading `+`.
pub open spec fn dec_body(s: Seq<u8>) -> Seq<u8> {
    if s.len() > 0 && s[0] == 43 {
        s.skip(1)
    } else {
        s
    }
}

/// Shape accepted when parsing: an optional `+`, then one or more digits.
pub open spec fn is_dec_string(s: Seq<u8>) -> bool {
    &&& dec_body(s).len() > 0
    &&& forall|i: int| 0 <= i < dec_body(s).len() ==> is_dec_digit(#[trigger] dec_body(s)[i])
}

/// Value denoted by a decimal string.
pub open spec fn dec_string_val(s: Seq<u8>) -> nat {
    digits_val(dec_body(s))
}

/// The digits of `n` are digits, start with no `+`, and evaluate back to `n`.
pub proof fn lemma_dec_digits(n: nat)
    ensures
        dec_digits(n).len() >= 1,
        forall|i: int| 0 <= i < dec_digits(n).len() ==> is_dec_digit(#[trigger] dec_digits(n)[i]),
        digits_val(dec_digits(n)) == n,
    decreases n,
{
    if n < 10 {
        assert(dec_digits(n) =~= seq![(48 + n) as u8]);
        assert(dec_digits(n).drop_last() =~= Seq::<u8>::empty());
        assert((48 + n) as u8 == 48 + n);
        assert(digits_val(Seq::<u8>::empty()) == 0);
        assert(digits_val(dec_digits(n)) == n);
    } else {
        lemma_dec_digits(n / 10);
        let s = dec_digits(n / 10);
        let d = (48 + n % 10) as u8;
        assert(d == 48 + n % 10);
        assert(s.push(d).drop_last() =~= s);
        assert(s.push(d).last() == d);
        assert(digits_val(s.push(d)) == (n / 10) * 10 + n % 10);
        assert(n == (n / 10) * 10 + n % 10);
        assert(forall|i: int|
            0 <= i < s.push(d).len() ==> is_dec_digit(#[trigger] s.push(d)[i]));
    }
}

/// A rendered decimal number parses back to itself.
pub proof fn lemma_dec_digits_roundtrip(n: nat)
    ensures
        is_dec_string(dec_digits(n)),
        dec_string_val(dec_digits(n)) == n,
{
    lemma_dec_digits(n);
    assert(dec_body(dec_digits(n)) =~= dec_digits(n));
}

/// Longer digit strings denote no smaller values: the value of a prefix
/// bounds the value of the whole string from below.
pub proof fn lemma_digits_val_prefix_le(s: Seq<u8>, i: int, j: int)
    requires
        0 <= i <= j <= s.len(),
    ensures
        digits_val(s.subrange(0, i)) <= digits_val(s.subrange(0, j)),
    decreases j - i,
{
    if i < j {
        lemma_digits_val_prefix_le(s, i, j - 1);
        let p = s.subrange(0, j);
        assert(p.drop_last() =~= s.subrange(0, j - 1));
        assert(digits_val(s.subrange(0, j - 1)) <= digits_val(p));
    } else {
        assert(s.subrange(0, i) =~= s.subrange(0, j));
    }
}

/// Append the decimal digits of `n` to `out`.
pub fn push_dec(out: &mut Vec<u8>, n: u64)
    ensures
        final(out)@ == old(out)@ + dec_digits(n as nat),
    decreases n,
{
    if n < 10 {
        out.push((48 + n) as u8);
        assert(out@ =~= old(out)@ + dec_digits(n as nat));
    } else {
        push_dec(out, n / 10);
        out.push((48 + (n % 10)) as u8);
        assert(out@ =~= old(out)@ + dec_digits(n as nat));
    }
}

/// Render `n` in decimal.
pub fn u64_to_dec(n: u64) -> (r: Vec<u8>)
    ensures
        r@ == dec_digits(n as nat),
{
    let mut out: Vec<u8> = Vec::new();
    push_dec(&mut out, n);
    assert(out@ =~= dec_digits(n as nat));
    out
}

/// Parse an ASCII decimal number, as the protocol's length prefixes use
/// it: an optional leading `+`, then digits.  `None` when the shape is
/// wrong or the value does not fit in a `u64`.
#[verifier::loop_isolation(false)]
pub fn parse_u64_dec(s: &[u8]) -> (r: Option<u64>)
    ensures
        match r {
            Some(v) => is_dec_string(s@) && v as nat == dec_string_val(s@),
            None => !is_dec_string(s@) || dec_string_val(s@) > u64::MAX,
        },
{
    let ghost body = dec_body(s@);
    let start: usize = if s.len() > 0 && s[0] == 43 {
        1
    } else {
        0
    };
    proof {
        assert(body =~= s@.subrange(start as int, s@.len() as int));
    }
    if s.len() == start {
        return None;
    }
    let mut acc: u64 = 0;
    let mut i: usize = start;
    while i < s.len()
        invariant
            start <= i <= s.len(),
            s.len() > start,
            body == s@.subrange(start as int, s@.len() as int),
            forall|k: int| 0 <= k < i - start ==> is_dec_digit(#[trigger] body[k]),
            acc as nat == digits_val(body.subrange(0, i - start)),
        decreases s.len() - i,
    {
        let b = s[i];
        if b < 48 || b > 57 {
            proof {
                assert(dec_body(s@)[i - start] == b);
                assert(!is_dec_digit(dec_body(s@)[i - start]));
                assert(!is_dec_string(s@));
            }
            return None;
        }
        let d = (b - 48) as u64;
        if acc > (u64::MAX - d) / 10 {
            proof {
                let ghost pre = body.subrange(0, i - start);
                let ghost ext = body.subrange(0, i + 1 - start);
                assert(ext.drop_last() =~= pre);
                assert(ext.last() == b);
                assert(digits_val(ext) == acc * 10 + d);
                assert(acc * 10 + d > u64::MAX) by (nonlinear_arith)
                    requires
                        acc > (u64::MAX - d) / 10,
                        d <= 9,
                ;
                lemma_digits_val_prefix_le(body, i + 1 - start, body.len() as int);
                assert(body.subrange(0, body.len() as int) =~= body);
                assert(dec_string_val(s@) > u64::MAX);
            }
            return None;
        }
        proof {
            let ghost pre = body.subrange(0, i - start);
            let ghost ext = body.subrange(0, i + 1 - start);
            assert(ext.drop_last() =~= pre);
            assert(ext.last() == b);
        }
        acc = acc * 10 + d;
        i = i + 1;
    }
    proof {
        assert(body.subrange(0, body.len() as int) =~= body);
    }
    Some(acc)
}

} // verus!
