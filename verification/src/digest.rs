//! Canonical byte encoding of the values that go into a fingerprint.
//!
//! Integers are little-endian of their width (signed ones in two's
//! complement), a flag is one byte, a text is its UTF-8 bytes followed
//! by `0xff`, and an optional value is a `0`/`1` tag byte followed by
//! the value when present.
use crate::auth::{hex_chars, hex_fmt, is_lower_hex, lemma_hex_digits, sha256_digest, sha256_of};
use vstd::prelude::*;

verus! {

/// The `k` low-order bytes of `x`, least significant first.
pub open spec fn le_bytes(x: nat, k: nat) -> Seq<u8>
    decreases k,
{
    if k == 0 {
        Seq::empty()
    } else {
        seq![(x % 256) as u8] + le_bytes(x / 256, (k - 1) as nat)
    }
}

pub open spec fn u32_bytes(x: u32) -> Seq<u8> {
    le_bytes(x as nat, 4)
}

pub open spec fn u64_bytes(x: u64) -> Seq<u8> {
    le_bytes(x as nat, 8)
}

pub open spec fn u128_bytes(x: u128) -> Seq<u8> {
    le_bytes(x as nat, 16)
}

/// Two's complement of `x` as an unsigned 64-bit number.
pub open spec fn twos64(x: i64) -> nat {
    if x >= 0 {
        x as nat
    } else {
        (x + 0x1_0000_0000_0000_0000int) as nat
    }
}

pub open spec fn i64_bytes(x: i64) -> Seq<u8> {
    le_bytes(twos64(x), 8)
}

pub open spec fn bool_bytes(b: bool) -> Seq<u8> {
    seq![if b { 1u8 } else { 0u8 }]
}

/// A text: its UTF-8 bytes and a `0xff` terminator.
pub open spec fn text_bytes(s: Seq<char>) -> Seq<u8> {
    vstd::utf8::encode_utf8(s).push(0xffu8)
}

pub open spec fn opt_i64_bytes(x: Option<i64>) -> Seq<u8> {
    match x {
        None => seq![0u8],
        Some(v) => seq![1u8] + i64_bytes(v),
    }
}

/// Hex SHA-256 of an encoding.
pub open spec fn fingerprint_of(bytes: Seq<u8>) -> Seq<char> {
    hex_chars(sha256_of(bytes))
}

/// Appends the `k` low-order bytes of `x`, least significant first.
fn put_le(out: &mut Vec<u8>, x: u128, k: usize)
    requires
        k <= 16,
    ensures
        final(out)@ == old(out)@ + le_bytes(x as nat, k as nat),
{
    let ghost start = out@;
    let mut v: u128 = x;
    let mut i: usize = 0;
    while i < k
        invariant
            i <= k,
            start + le_bytes(x as nat, k as nat) == out@ + le_bytes(v as nat, (k - i) as nat),
        decreases k - i,
    {
        let b: u8 = (v % 256) as u8;
        let ghost before = out@;
        out.push(b);
        proof {
            let rest = le_bytes((v / 256) as nat, (k - i - 1) as nat);
            assert(le_bytes(v as nat, (k - i) as nat) == seq![b] + rest);
            assert(before + (seq![b] + rest) =~= before.push(b) + rest);
        }
        v = v / 256;
        i = i + 1;
    }
    assert(le_bytes(v as nat, 0) =~= Seq::<u8>::empty());
    assert(out@ + Seq::<u8>::empty() =~= out@);
}

pub(crate) fn put_u32(out: &mut Vec<u8>, x: u32)
    ensures
        final(out)@ == old(out)@ + u32_bytes(x),
{
    put_le(out, x as u128, 4);
}

pub(crate) fn put_u64(out: &mut Vec<u8>, x: u64)
    ensures
        final(out)@ == old(out)@ + u64_bytes(x),
{
    put_le(out, x as u128, 8);
}

pub(crate) fn put_u128(out: &mut Vec<u8>, x: u128)
    ensures
        final(out)@ == old(out)@ + u128_bytes(x),
{
    put_le(out, x, 16);
}

pub(crate) fn put_i64(out: &mut Vec<u8>, x: i64)
    ensures
        final(out)@ == old(out)@ + i64_bytes(x),
{
    let u: u128 = if x >= 0 {
        x as u128
    } else {
        let shifted: i128 = x as i128 + 0x1_0000_0000_0000_0000i128;
        shifted as u128
    };
    put_le(out, u, 8);
}

pub(crate) fn put_bool(out: &mut Vec<u8>, b: bool)
    ensures
        final(out)@ == old(out)@ + bool_bytes(b),
{
    let ghost start = out@;
    out.push(if b { 1u8 } else { 0u8 });
    assert(out@ =~= start + bool_bytes(b));
}

/// Appends one tag byte.
pub(crate) fn put_tag(out: &mut Vec<u8>, t: u8)
    ensures
        final(out)@ == old(out)@ + seq![t],
{
    let ghost start = out@;
    out.push(t);
    assert(out@ =~= start + seq![t]);
}

pub(crate) fn put_opt_i64(out: &mut Vec<u8>, x: Option<i64>)
    ensures
        final(out)@ == old(out)@ + opt_i64_bytes(x),
{
    let ghost start = out@;
    match x {
        None => {
            put_tag(out, 0);
        },
        Some(v) => {
            put_tag(out, 1);
            put_i64(out, v);
            assert(out@ =~= start + opt_i64_bytes(x));
        },
    }
}

/// Appends a text's UTF-8 bytes and the `0xff` terminator.
pub(crate) fn put_text(out: &mut Vec<u8>, s: &str)
    ensures
        final(out)@ == old(out)@ + text_bytes(s@),
{
    let ghost start = out@;
    let bytes = s.as_bytes();
    let mut i: usize = 0;
    while i < bytes.len()
        invariant
            i <= bytes@.len(),
            out@ == start + bytes@.take(i as int),
        decreases bytes@.len() - i,
    {
        out.push(bytes[i]);
        assert(bytes@.take(i + 1) == bytes@.take(i as int).push(bytes@[i as int]));
        i = i + 1;
    }
    assert(bytes@.take(bytes@.len() as int) == bytes@);
    out.push(0xffu8);
    assert(out@ =~= start + text_bytes(s@));
}

/// Appends raw bytes as they are.
pub(crate) fn put_raw(out: &mut Vec<u8>, data: &[u8])
    ensures
        final(out)@ == old(out)@ + data@,
{
    let ghost start = out@;
    let mut i: usize = 0;
    while i < data.len()
        invariant
            i <= data@.len(),
            out@ == start + data@.take(i as int),
        decreases data@.len() - i,
    {
        out.push(data[i]);
        assert(data@.take(i + 1) == data@.take(i as int).push(data@[i as int]));
        i = i + 1;
    }
    assert(data@.take(data@.len() as int) == data@);
}

/// `256^k`.
pub open spec fn byte_pow(k: nat) -> nat
    decreases k,
{
    if k == 0 {
        1
    } else {
        256 * byte_pow((k - 1) as nat)
    }
}

/// Little-endian encodings of numbers below `256^k` are distinct for
/// distinct numbers.
pub proof fn lemma_le_bytes_injective(x: nat, y: nat, k: nat)
    requires
        x < byte_pow(k),
        y < byte_pow(k),
        le_bytes(x, k) == le_bytes(y, k),
    ensures
        x == y,
    decreases k,
{
    if k == 0 {
    } else {
        let a = le_bytes(x, k);
        let b = le_bytes(y, k);
        assert(a[0] == b[0]);
        assert(a[0] == (x % 256) as u8);
        assert(b[0] == (y % 256) as u8);
        assert(a.skip(1) =~= le_bytes(x / 256, (k - 1) as nat));
        assert(b.skip(1) =~= le_bytes(y / 256, (k - 1) as nat));
        assert(x / 256 < byte_pow((k - 1) as nat));
        assert(y / 256 < byte_pow((k - 1) as nat));
        lemma_le_bytes_injective(x / 256, y / 256, (k - 1) as nat);
    }
}

/// Distinct 64-bit signed numbers have distinct encodings.
pub proof fn lemma_i64_bytes_injective(x: i64, y: i64)
    requires
        i64_bytes(x) == i64_bytes(y),
    ensures
        x == y,
{
    reveal_with_fuel(byte_pow, 9);
    assert(byte_pow(8) == 0x1_0000_0000_0000_0000);
    lemma_le_bytes_injective(twos64(x), twos64(y), 8);
}

/// The hex SHA-256 fingerprint of an encoding.
pub fn fingerprint(bytes: &[u8]) -> (r: String)
    ensures
        r@ == fingerprint_of(bytes@),
        r@.len() == 64,
        forall|i: int| 0 <= i < r@.len() ==> is_lower_hex(#[trigger] r@[i]),
{
    let d = sha256_digest(bytes);
    proof {
        lemma_hex_digits(d@);
    }
    hex_fmt(d.as_slice())
}

} // verus!
