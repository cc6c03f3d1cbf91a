//! Byte-level text building blocks: appending literals and slices, and
//! rendering integers in decimal and hexadecimal.
use vstd::prelude::*;
use vstd::string::StringSliceAdditionalSpecFns;

verus! {

/// The bytes of a string literal.
pub open spec fn lit(s: &str) -> Seq<u8> {
    s.spec_bytes()
}

/// The ASCII digit for a value below sixteen.
pub open spec fn hex_digit(d: nat, upper: bool) -> u8 {
    if d < 10 {
        (48 + d) as u8
    } else if upper {
        (55 + d) as u8
    } else {
        (87 + d) as u8
    }
}

/// Hexadecimal rendering without leading zeros ("0" for zero).
pub open spec fn hex_digits(n: nat, upper: bool) -> Seq<u8>
    decreases n,
{
    if n < 16 {
        seq![hex_digit(n, upper)]
    } else {
        hex_digits(n / 16, upper).push(hex_digit(n % 16, upper))
    }
}

/// Decimal rendering without leading zeros ("0" for zero).
pub open spec fn dec_digits(n: nat) -> Seq<u8>
    decreases n,
{
    if n < 10 {
        seq![(48 + n) as u8]
    } else {
        dec_digits(n / 10).push((48 + n % 10) as u8)
    }
}

/// Appends the bytes of `s` to `dst`.
pub fn append_str(dst: &mut Vec<u8>, s: &str)
    ensures
        final(dst)@ == old(dst)@ + lit(s),
{
    append_bytes(dst, s.as_bytes());
}

/// Appends `src` to `dst`.
pub fn append_bytes(dst: &mut Vec<u8>, src: &[u8])
    ensures
        final(dst)@ == old(dst)@ + src@,
{
    append_prefix(dst, src, src.len());
    assert(src@.subrange(0, src@.len() as int) == src@);
}

/// A copy of `src`.
pub fn copy_bytes(src: &[u8]) -> (r: Vec<u8>)
    ensures
        r@ == src@,
{
    let mut out: Vec<u8> = Vec::new();
    append_bytes(&mut out, src);
    out
}

/// Appends the first `n` bytes of `src` to `dst`.
pub fn append_prefix(dst: &mut Vec<u8>, src: &[u8], n: usize)
    requires
        n <= src@.len(),
    ensures
        final(dst)@ == old(dst)@ + src@.subrange(0, n as int),
{
    let mut i: usize = 0;
    while i < n
        invariant
            0 <= i <= n <= src@.len(),
            dst@ == old(dst)@ + src@.subrange(0, i as int),
        decreases n - i,
    {
        dst.push(src[i]);
        i = i + 1;
        assert(src@.subrange(0, i as int) == src@.subrange(0, i - 1).push(src@[i - 1]));
    }
}

/// Appends `n` in hexadecimal, upper or lower case.
pub fn append_hex(dst: &mut Vec<u8>, n: u64, upper: bool)
    ensures
        final(dst)@ == old(dst)@ + hex_digits(n as nat, upper),
    decreases n,
{
    if n >= 16 {
        append_hex(dst, n / 16, upper);
    }
    let d: u8 = (n % 16) as u8;
    let c: u8 = if d < 10 {
        48 + d
    } else if upper {
        55 + d
    } else {
        87 + d
    };
    dst.push(c);
    proof {
        if n >= 16 {
            assert(hex_digits(n as nat, upper) == hex_digits((n / 16) as nat, upper).push(
                hex_digit((n % 16) as nat, upper),
            ));
        } else {
            assert(hex_digits(n as nat, upper) == seq![hex_digit(n as nat, upper)]);
        }
    }
}

/// Appends `n` in decimal.
pub fn append_dec(dst: &mut Vec<u8>, n: u64)
    ensures
        final(dst)@ == old(dst)@ + dec_digits(n as nat),
    decreases n,
{
    if n >= 10 {
        append_dec(dst, n / 10);
    }
    dst.push(48 + (n % 10) as u8);
}

} // verus!
