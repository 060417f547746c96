//! Rendering of JSON fragments: decimal numbers and escaped strings.
//!
//! Every descriptor, manifest and index the library emits is assembled from
//! these pieces, so their exact byte output is specified here once.

use vstd::prelude::*;
use vstd::string::StringSliceAdditionalSpecFns;

use crate::hex::hex_digit;
use crate::hex::push_all;

verus! {

/// The decimal digits of `n`, most significant first, no leading zeros
/// (a single `0` for zero).
pub open spec fn dec_bytes(n: nat) -> Seq<u8>
    decreases n,
{
    if n < 10 {
        seq![(0x30 + n) as u8]
    } else {
        dec_bytes(n / 10) + seq![(0x30 + n % 10) as u8]
    }
}

/// Appends the decimal rendering of `n` to `out`.
pub fn push_dec(out: &mut Vec<u8>, n: u64)
    ensures
        final(out)@ == old(out)@ + dec_bytes(n as nat),
    decreases n,
{
    if n < 10 {
        out.push(0x30 + n as u8);
    } else {
        push_dec(out, n / 10);
        out.push(0x30 + (n % 10) as u8);
        proof {
            assert(old(out)@ + dec_bytes((n / 10) as nat) + seq![(0x30 + n % 10) as u8] =~= old(
                out,
            )@ + dec_bytes(n as nat));
        }
    }
}

/// How a single byte appears inside a JSON string: quotes and backslashes
/// are escaped, control bytes become `\u00XX`, everything else (including
/// multi-byte UTF-8) passes through unchanged.
pub open spec fn escape_byte(b: u8) -> Seq<u8> {
    if b == 0x22 {
        seq![0x5c, 0x22]
    } else if b == 0x5c {
        seq![0x5c, 0x5c]
    } else if b < 0x20 {
        seq![0x5c, 0x75, 0x30, 0x30, hex_digit(b / 16), hex_digit(b % 16)]
    } else {
        seq![b]
    }
}

/// The body of a JSON string holding `s`: each byte escaped as needed.
pub open spec fn escape_bytes(s: Seq<u8>) -> Seq<u8>
    decreases s.len(),
{
    if s.len() == 0 {
        Seq::empty()
    } else {
        escape_bytes(s.drop_last()) + escape_byte(s.last())
    }
}

/// A complete JSON string literal holding `s`: quoted and escaped.
pub open spec fn json_string(s: Seq<u8>) -> Seq<u8> {
    seq![0x22u8] + escape_bytes(s) + seq![0x22u8]
}

/// Appends `escape_byte(b)` to `out`.
fn push_escaped_byte(out: &mut Vec<u8>, b: u8)
    ensures
        final(out)@ == old(out)@ + escape_byte(b),
{
    if b == 0x22 {
        out.push(0x5c);
        out.push(0x22);
        proof {
            assert(out@ =~= old(out)@ + escape_byte(b));
        }
    } else if b == 0x5c {
        out.push(0x5c);
        out.push(0x5c);
        proof {
            assert(out@ =~= old(out)@ + escape_byte(b));
        }
    } else if b < 0x20 {
        out.push(0x5c);
        out.push(0x75);
        out.push(0x30);
        out.push(0x30);
        if b / 16 < 10 {
            out.push(0x30 + b / 16);
        } else {
            out.push(0x57 + b / 16);
        }
        if b % 16 < 10 {
            out.push(0x30 + b % 16);
        } else {
            out.push(0x57 + b % 16);
        }
        proof {
            assert(out@ =~= old(out)@ + escape_byte(b));
        }
    } else {
        out.push(b);
        proof {
            assert(out@ =~= old(out)@ + escape_byte(b));
        }
    }
}

/// Appends a complete JSON string literal holding `s` to `out`.
pub fn push_json_string(out: &mut Vec<u8>, s: &Vec<u8>)
    ensures
        final(out)@ == old(out)@ + json_string(s@),
{
    let ghost orig = out@;
    out.push(0x22);
    proof {
        assert(out@ =~= orig + seq![0x22u8] + escape_bytes(s@.take(0)));
    }
    let mut i: usize = 0;
    while i < s.len()
        invariant
            i <= s.len(),
            out@ == orig + seq![0x22u8] + escape_bytes(s@.take(i as int)),
        decreases s.len() - i,
    {
        push_escaped_byte(out, s[i]);
        proof {
            let cur = s@.take(i + 1 as int);
            assert(cur.drop_last() =~= s@.take(i as int));
            assert(cur.last() == s@[i as int]);
            assert(out@ =~= orig + seq![0x22u8] + escape_bytes(cur));
        }
        i = i + 1;
    }
    out.push(0x22);
    proof {
        assert(s@.take(s@.len() as int) =~= s@);
        assert(out@ =~= orig + json_string(s@));
    }
}

/// Appends the bytes of the string literal `s` to `out` unchanged; used for
/// the fixed punctuation and field names of the JSON documents.
pub fn push_lit(out: &mut Vec<u8>, s: &str)
    ensures
        final(out)@ == old(out)@ + s.spec_bytes(),
{
    push_all(out, s.as_bytes());
}

} // verus!
