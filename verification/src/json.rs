//! Byte-level building blocks for the canonical self-describing encoding.
//!
//! The encoding is UTF-8 text in JSON shape. It is produced byte by byte so
//! that every emitted sequence is pinned exactly by the specification
//! functions below. String data goes through [`json_escaped`]: the quote,
//! the backslash and the control bytes are escaped as JSON demands, and
//! every other byte — in particular every byte of a multi-byte UTF-8
//! character, which is never below 0x80 — passes through unchanged.

use vstd::prelude::*;

verus! {

/// Decimal digit bytes of `n`, most significant digit first.
pub open spec fn dec_digits(n: nat) -> Seq<u8>
    decreases n,
{
    if n < 10 {
        seq![(0x30 + n) as u8]
    } else {
        dec_digits(n / 10) + seq![(0x30 + n % 10) as u8]
    }
}

/// The lowercase hexadecimal digit byte for `n`.
pub open spec fn hex_digit(n: u8) -> u8
    recommends
        n < 16,
{
    if n < 10 {
        (0x30 + n) as u8
    } else {
        (0x61 + (n - 10)) as u8
    }
}

/// How one byte of string content appears inside a JSON string literal:
/// the quote and the backslash get a backslash escape, the control bytes
/// get their short escapes or `\u00XX`, and every other byte stands for
/// itself.
pub open spec fn escape_byte(b: u8) -> Seq<u8> {
    if b == 0x22 {  // " -> \"
        seq![0x5cu8, 0x22u8]
    } else if b == 0x5c {  // \ -> \\
        seq![0x5cu8, 0x5cu8]
    } else if b == 0x08 {  // backspace -> \b
        seq![0x5cu8, 0x62u8]
    } else if b == 0x09 {  // tab -> \t
        seq![0x5cu8, 0x74u8]
    } else if b == 0x0a {  // line feed -> \n
        seq![0x5cu8, 0x6eu8]
    } else if b == 0x0c {  // form feed -> \f
        seq![0x5cu8, 0x66u8]
    } else if b == 0x0d {  // carriage return -> \r
        seq![0x5cu8, 0x72u8]
    } else if b < 0x20 {  // other control bytes -> \u00XX
        seq![0x5cu8, 0x75u8, 0x30u8, 0x30u8, hex_digit(b / 16), hex_digit(b % 16)]
    } else {
        seq![b]
    }
}

/// The first `n` bytes of `s`, escaped for a JSON string literal.
pub open spec fn json_escaped_prefix(s: Seq<u8>, n: int) -> Seq<u8>
    decreases n,
{
    if n <= 0 {
        Seq::<u8>::empty()
    } else {
        json_escaped_prefix(s, n - 1) + escape_byte(s[n - 1])
    }
}

/// String content escaped for a JSON string literal, byte by byte.
pub open spec fn json_escaped(s: Seq<u8>) -> Seq<u8> {
    json_escaped_prefix(s, s.len() as int)
}

/// Appends the UTF-8 bytes of `s` to `out`, escaped for a JSON string
/// literal.
pub fn push_json_escaped(out: &mut Vec<u8>, s: &str)
    ensures
        final(out)@ == old(out)@ + json_escaped(vstd::utf8::encode_utf8(s@)),
{
    let bytes = s.as_bytes();
    let n = bytes.len();
    let mut i: usize = 0;
    while i < n
        invariant
            i <= n,
            n == bytes@.len(),
            out@ == old(out)@ + json_escaped_prefix(bytes@, i as int),
        decreases n - i,
    {
        let b = bytes[i];
        if b == 0x22 {
            out.push(0x5c);
            out.push(0x22);
        } else if b == 0x5c {
            out.push(0x5c);
            out.push(0x5c);
        } else if b == 0x08 {
            out.push(0x5c);
            out.push(0x62);
        } else if b == 0x09 {
            out.push(0x5c);
            out.push(0x74);
        } else if b == 0x0a {
            out.push(0x5c);
            out.push(0x6e);
        } else if b == 0x0c {
            out.push(0x5c);
            out.push(0x66);
        } else if b == 0x0d {
            out.push(0x5c);
            out.push(0x72);
        } else if b < 0x20 {
            out.push(0x5c);
            out.push(0x75);
            out.push(0x30);
            out.push(0x30);
            out.push(0x30 + b / 16);
            let lo = b % 16;
            if lo < 10 {
                out.push(0x30 + lo);
            } else {
                out.push(0x61 + (lo - 10));
            }
        } else {
            out.push(b);
        }
        proof {
            assert(out@ =~= old(out)@ + json_escaped_prefix(bytes@, i + 1));
        }
        i = i + 1;
    }
    proof {
        assert(json_escaped_prefix(bytes@, n as int) == json_escaped(bytes@));
    }
}

/// Appends every byte of `s` to `out`.
pub fn push_bytes(out: &mut Vec<u8>, s: &[u8])
    ensures
        final(out)@ == old(out)@ + s@,
{
    let n = s.len();
    let mut i: usize = 0;
    while i < n
        invariant
            i <= n,
            n == s@.len(),
            out@ == old(out)@ + s@.take(i as int),
        decreases n - i,
    {
        out.push(s[i]);
        proof {
            assert(old(out)@ + s@.take(i + 1) =~= (old(out)@ + s@.take(i as int)).push(
                s@[i as int],
            ));
        }
        i = i + 1;
    }
    proof {
        assert(s@.take(n as int) =~= s@);
    }
}

/// Appends the UTF-8 bytes of `s` to `out`.
pub fn push_str_bytes(out: &mut Vec<u8>, s: &str)
    ensures
        final(out)@ == old(out)@ + vstd::utf8::encode_utf8(s@),
{
    push_bytes(out, s.as_bytes());
}

/// Appends the decimal digits of `n` to `out`.
pub fn push_dec_u64(out: &mut Vec<u8>, n: u64)
    ensures
        final(out)@ == old(out)@ + dec_digits(n as nat),
    decreases n,
{
    if n < 10 {
        out.push(0x30 + (n as u8));
    } else {
        assert(n / 10 < n) by (nonlinear_arith)
            requires
                n >= 10,
        ;
        push_dec_u64(out, n / 10);
        out.push(0x30 + ((n % 10) as u8));
        proof {
            assert(old(out)@ + dec_digits(n as nat) =~= (old(out)@ + dec_digits(
                (n / 10) as nat,
            )).push((0x30 + (n as nat) % 10) as u8));
        }
    }
}

} // verus!
