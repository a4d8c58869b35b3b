//! Little-endian encoding of unsigned numbers in byte sequences.

use vstd::prelude::*;

verus! {

/// 256 to the power `n`: the number of values that `n` bytes can hold.
pub open spec fn pow256(n: nat) -> nat
    decreases n,
{
    if n == 0 {
        1
    } else {
        256 * pow256((n - 1) as nat)
    }
}

/// The number that `bytes` encodes, least significant byte first.
pub open spec fn le_value(bytes: Seq<u8>) -> nat
    decreases bytes.len(),
{
    if bytes.len() == 0 {
        0
    } else {
        bytes[0] as nat + 256 * le_value(bytes.drop_first())
    }
}

/// The `width` low bytes of `value`, least significant byte first.
pub open spec fn le_bytes(value: nat, width: nat) -> Seq<u8>
    decreases width,
{
    if width == 0 {
        Seq::empty()
    } else {
        seq![(value % 256) as u8] + le_bytes(value / 256, (width - 1) as nat)
    }
}

/// The number that the `width` bytes of `bytes` from offset `at` encode.
pub open spec fn le_load(bytes: Seq<u8>, at: nat, width: nat) -> nat
    recommends
        at + width <= bytes.len(),
{
    le_value(bytes.subrange(at as int, (at + width) as int))
}

/// `bytes` with the `width` bytes from offset `at` replaced by the encoding
/// of `value`, reduced to that width.
pub open spec fn le_store(bytes: Seq<u8>, at: nat, width: nat, value: nat) -> Seq<u8>
    recommends
        at + width <= bytes.len(),
{
    bytes.take(at as int) + le_bytes(value, width) + bytes.skip((at + width) as int)
}

/// The powers of 256 for the widths that fit in a 64-bit word.
pub proof fn lemma_pow256_values()
    ensures
        pow256(0) == 1,
        pow256(1) == 0x100,
        pow256(2) == 0x1_0000,
        pow256(3) == 0x100_0000,
        pow256(4) == 0x1_0000_0000,
        pow256(5) == 0x100_0000_0000,
        pow256(6) == 0x1_0000_0000_0000,
        pow256(7) == 0x100_0000_0000_0000,
        pow256(8) == 0x1_0000_0000_0000_0000,
{
    reveal_with_fuel(pow256, 9);
}

/// Every power of 256 is positive.
pub proof fn lemma_pow256_positive(n: nat)
    ensures
        pow256(n) > 0,
    decreases n,
{
    if n > 0 {
        lemma_pow256_positive((n - 1) as nat);
    }
}

/// The powers of 256 grow with the exponent.
pub proof fn lemma_pow256_monotonic(a: nat, b: nat)
    requires
        a <= b,
    ensures
        pow256(a) <= pow256(b),
    decreases b,
{
    if a < b {
        lemma_pow256_monotonic(a, (b - 1) as nat);
    }
}

/// `le_bytes` yields exactly `width` bytes.
pub proof fn lemma_le_bytes_len(value: nat, width: nat)
    ensures
        le_bytes(value, width).len() == width,
    decreases width,
{
    if width > 0 {
        lemma_le_bytes_len(value / 256, (width - 1) as nat);
    }
}

/// A sequence of `n` bytes encodes a number below `256^n`.
pub proof fn lemma_le_value_bound(bytes: Seq<u8>)
    ensures
        le_value(bytes) < pow256(bytes.len()),
    decreases bytes.len(),
{
    if bytes.len() > 0 {
        lemma_le_value_bound(bytes.drop_first());
    }
}

/// Decoding what was encoded gives the value back, reduced to the width.
pub proof fn lemma_le_value_of_le_bytes(value: nat, width: nat)
    ensures
        le_value(le_bytes(value, width)) == value % pow256(width),
    decreases width,
{
    if width > 0 {
        let rest = le_bytes(value / 256, (width - 1) as nat);
        let all = le_bytes(value, width);
        lemma_le_value_of_le_bytes(value / 256, (width - 1) as nat);
        assert(all.drop_first() =~= rest);
        let p = pow256((width - 1) as nat);
        lemma_pow256_positive((width - 1) as nat);
        lemma_mod_split(value, p);
    } else {
        assert(value % 1 == 0);
    }
}

/// Encoding what was decoded gives the bytes back.
pub proof fn lemma_le_bytes_of_le_value(bytes: Seq<u8>)
    ensures
        le_bytes(le_value(bytes), bytes.len()) == bytes,
    decreases bytes.len(),
{
    if bytes.len() > 0 {
        let tail = bytes.drop_first();
        lemma_le_bytes_of_le_value(tail);
        let v = le_value(bytes);
        assert(v % 256 == bytes[0] as nat && v / 256 == le_value(tail)) by {
            let h = bytes[0] as int;
            let t = le_value(tail) as int;
            assert(v == h + 256 * t);
            assert(0 <= h < 256);
        }
        assert(le_bytes(v, bytes.len()) =~= bytes);
    } else {
        assert(le_bytes(le_value(bytes), 0) =~= bytes);
    }
}

/// A remainder by `256 * p` splits into the low byte and the remainder of
/// the quotient by `p`.
proof fn lemma_mod_split(value: nat, p: nat)
    requires
        p > 0,
    ensures
        value % (256 * p) == value % 256 + 256 * ((value / 256) % p),
{
    let q = value / 256;
    let r = value % 256;
    let qq = q / p;
    let qr = q % p;
    assert(value == 256 * q + r);
    assert(q == p * qq + qr) by {
        vstd::arithmetic::div_mod::lemma_fundamental_div_mod(q as int, p as int);
    }
    let low = r + 256 * qr;
    assert(0 <= low < 256 * p) by (nonlinear_arith)
        requires
            0 <= r < 256,
            0 <= qr < p,
            low == r + 256 * qr,
    ;
    assert(value == (256 * p) * qq + low) by (nonlinear_arith)
        requires
            value == 256 * q + r,
            q == p * qq + qr,
            low == r + 256 * qr,
    ;
    vstd::arithmetic::div_mod::lemma_fundamental_div_mod_converse(
        value as int,
        (256 * p) as int,
        qq as int,
        low as int,
    );
}

/// Storing keeps the length, and a load of what was stored gives the value
/// back, reduced to the width; bytes outside the stored span keep their
/// values.
pub proof fn lemma_le_load_of_le_store(bytes: Seq<u8>, at: nat, width: nat, value: nat)
    requires
        at + width <= bytes.len(),
    ensures
        le_store(bytes, at, width, value).len() == bytes.len(),
        le_load(le_store(bytes, at, width, value), at, width) == value % pow256(width),
        forall|i: int|
            0 <= i < bytes.len() && !(at <= i < at + width) ==> le_store(bytes, at, width, value)[i]
                == bytes[i],
{
    lemma_le_bytes_len(value, width);
    lemma_le_value_of_le_bytes(value, width);
    let after = le_store(bytes, at, width, value);
    assert(after.subrange(at as int, (at + width) as int) =~= le_bytes(value, width));
}

/// Decodes the `width` bytes of `bytes` that start at `start`.
pub(crate) fn read_le(bytes: &Vec<u8>, start: usize, width: usize) -> (value: u64)
    requires
        width <= 8,
        start + width <= bytes.len(),
    ensures
        value == le_load(bytes@, start as nat, width as nat),
{
    let mut value: u64 = 0;
    let mut i: usize = width;
    while i > 0
        invariant
            i <= width <= 8,
            start + width <= bytes.len(),
            value == le_value(bytes@.subrange(start + i, start + width)),
            value < pow256((width - i) as nat),
        decreases i,
    {
        i = i - 1;
        proof {
            let seen = bytes@.subrange(start + i, start + width);
            assert(seen.drop_first() =~= bytes@.subrange(start + i + 1, start + width));
            lemma_pow256_monotonic((width - i - 1) as nat, 7);
            lemma_pow256_values();
        }
        value = value * 256 + bytes[start + i] as u64;
    }
    value
}

/// Overwrites the `width` bytes of `bytes` that start at `start` with the
/// encoding of `value`, reduced to that width.
pub(crate) fn write_le(bytes: &mut Vec<u8>, start: usize, width: usize, value: u64)
    requires
        width <= 8,
        start + width <= old(bytes).len(),
    ensures
        final(bytes)@ == le_store(old(bytes)@, start as nat, width as nat, value as nat),
{
    let mut rest: u64 = value;
    let mut i: usize = 0;
    while i < width
        invariant
            i <= width <= 8,
            start + width <= bytes.len(),
            bytes.len() == old(bytes).len(),
            bytes@.take(start as int) == old(bytes)@.take(start as int),
            bytes@.skip(start + width) == old(bytes)@.skip(start + width),
            le_bytes(value as nat, width as nat) == bytes@.subrange(start as int, start + i)
                + le_bytes(rest as nat, (width - i) as nat),
        decreases width - i,
    {
        let ghost before = bytes@;
        bytes[start + i] = (rest % 256) as u8;
        proof {
            assert(bytes@.take(start as int) =~= before.take(start as int));
            assert(bytes@.skip(start + width) =~= before.skip(start + width));
            assert(bytes@.subrange(start as int, start + i + 1) + le_bytes(
                (rest / 256) as nat,
                (width - i - 1) as nat,
            ) =~= before.subrange(start as int, start + i) + le_bytes(
                rest as nat,
                (width - i) as nat,
            ));
        }
        rest = rest / 256;
        i = i + 1;
    }
    proof {
        lemma_le_bytes_len(value as nat, width as nat);
        assert(bytes@ =~= old(bytes)@.take(start as int) + le_bytes(value as nat, width as nat)
            + old(bytes)@.skip(start + width));
    }
}

/// Appends the encoding of `value`, reduced to `width` bytes.
pub(crate) fn append_le(bytes: &mut Vec<u8>, width: usize, value: u64)
    requires
        width <= 8,
    ensures
        final(bytes)@ == old(bytes)@ + le_bytes(value as nat, width as nat),
{
    let mut rest: u64 = value;
    let mut i: usize = 0;
    while i < width
        invariant
            i <= width <= 8,
            bytes@.len() == old(bytes)@.len() + i,
            old(bytes)@ + le_bytes(value as nat, width as nat) == bytes@ + le_bytes(
                rest as nat,
                (width - i) as nat,
            ),
        decreases width - i,
    {
        let ghost before = bytes@;
        bytes.push((rest % 256) as u8);
        proof {
            assert(bytes@ + le_bytes((rest / 256) as nat, (width - i - 1) as nat) =~= before
                + le_bytes(rest as nat, (width - i) as nat));
        }
        rest = rest / 256;
        i = i + 1;
    }
    proof {
        assert(bytes@ + le_bytes(rest as nat, 0) =~= bytes@);
    }
}

} // verus!
