//! Fixed-width little-endian fields in cell data.
//!
//! A field is read only where the data holds all of its bytes: nothing is
//! padded and nothing is truncated.

use vstd::prelude::*;

verus! {

/// 256 to the power `n`: the number of values that `n` bytes can hold.
pub open spec fn pow256(n: nat) -> nat
    decreases n,
{
    if n == 0 {
        1
    } else {
        256 * pow256((n - 1) as nat)
    }
}

/// The number that `bytes` spell in little-endian order: the first byte
/// weighs least.
pub open spec fn le_value(bytes: Seq<u8>) -> nat
    decreases bytes.len(),
{
    if bytes.len() == 0 {
        0
    } else {
        bytes[0] as nat + 256 * le_value(bytes.drop_first())
    }
}

/// The `width` lowest little-endian bytes of `value`.
pub open spec fn le_bytes(value: nat, width: nat) -> Seq<u8>
    decreases width,
{
    if width == 0 {
        Seq::<u8>::empty()
    } else {
        seq![(value % 256) as u8] + le_bytes(value / 256, (width - 1) as nat)
    }
}

/// The field of `width` bytes that starts at `offset` in `bytes`.
pub open spec fn field(bytes: Seq<u8>, offset: int, width: int) -> Seq<u8> {
    bytes.subrange(offset, offset + width)
}

/// More bytes hold at least as many values.
pub proof fn lemma_pow256_increases(m: nat, n: nat)
    requires
        m <= n,
    ensures
        1 <= pow256(m) <= pow256(n),
    decreases n,
{
    if n == 0 {
    } else if m == n {
        lemma_pow256_increases((m - 1) as nat, (m - 1) as nat);
    } else {
        lemma_pow256_increases(m, (n - 1) as nat);
    }
}

/// The number of values of four, eight and sixteen bytes.
pub proof fn lemma_pow256_values()
    ensures
        pow256(4) == 0x1_0000_0000,
        pow256(8) == 0x1_0000_0000_0000_0000,
        pow256(16) == 0x1_0000_0000_0000_0000_0000_0000_0000_0000,
{
    reveal_with_fuel(pow256, 5);
    assert(pow256(4) == 0x1_0000_0000);
    assert(pow256(8) == 0x1_0000_0000 * pow256(4));
    assert(pow256(12) == 0x1_0000_0000 * pow256(8));
    assert(pow256(16) == 0x1_0000_0000 * pow256(12));
}

/// `n` bytes spell a number below 256 to the power `n`.
pub proof fn lemma_le_value_bound(bytes: Seq<u8>)
    ensures
        le_value(bytes) < pow256(bytes.len()),
    decreases bytes.len(),
{
    if bytes.len() > 0 {
        lemma_le_value_bound(bytes.drop_first());
    }
}

/// A number is written in as many bytes as the width says.
pub proof fn lemma_le_bytes_len(value: nat, width: nat)
    ensures
        le_bytes(value, width).len() == width,
    decreases width,
{
    if width > 0 {
        lemma_le_bytes_len(value / 256, (width - 1) as nat);
    }
}

/// Reading back what was written gives the number again, where the
/// number fits the width.
pub proof fn lemma_le_round_trip(value: nat, width: nat)
    requires
        value < pow256(width),
    ensures
        le_bytes(value, width).len() == width,
        le_value(le_bytes(value, width)) == value,
    decreases width,
{
    lemma_le_bytes_len(value, width);
    if width > 0 {
        let rest = le_bytes(value / 256, (width - 1) as nat);
        let all = le_bytes(value, width);
        lemma_le_round_trip(value / 256, (width - 1) as nat);
        assert(all.drop_first() =~= rest);
        assert(all[0] == (value % 256) as u8);
    }
}

/// Two numbers that fit the width and are written alike are the same
/// number.
pub proof fn lemma_le_bytes_injective(a: nat, b: nat, width: nat)
    requires
        a < pow256(width),
        b < pow256(width),
        le_bytes(a, width) == le_bytes(b, width),
    ensures
        a == b,
{
    lemma_le_round_trip(a, width);
    lemma_le_round_trip(b, width);
}

/// Whether `data` is exactly `expected` bytes long.
pub fn validate_length(data: &[u8], expected: usize) -> (r: bool)
    ensures
        r == (data@.len() == expected),
{
    data.len() == expected
}

/// Whether two byte strings are the same.
pub fn bytes_equal(a: &[u8], b: &[u8]) -> (r: bool)
    ensures
        r == (a@ == b@),
{
    if a.len() != b.len() {
        return false;
    }
    let mut i: usize = 0;
    while i < a.len()
        invariant
            i <= a@.len(),
            a@.len() == b@.len(),
            forall|j: int| 0 <= j < i ==> a@[j] == b@[j],
        decreases a@.len() - i,
    {
        if a[i] != b[i] {
            return false;
        }
        i += 1;
    }
    assert(a@ =~= b@);
    true
}

/// Reads the little-endian number of `width` bytes at `offset`.
fn read_le(bytes: &[u8], offset: usize, width: usize) -> (r: u128)
    requires
        width <= 16,
        offset + width <= bytes@.len(),
    ensures
        r == le_value(field(bytes@, offset as int, width as int)),
        r < pow256(width as nat),
{
    let len = bytes.len();
    let mut acc: u128 = 0;
    let mut i: usize = width;
    proof {
        assert(field(bytes@, offset as int, width as int).subrange(width as int, width as int)
            =~= Seq::<u8>::empty());
    }
    while i > 0
        invariant
            i <= width <= 16,
            offset + width <= bytes@.len() == len,
            acc == le_value(bytes@.subrange(offset + i, offset + width)),
            acc < pow256((width - i) as nat),
        decreases i,
    {
        i -= 1;
        let byte = bytes[offset + i];
        proof {
            let tail = bytes@.subrange(offset + i, offset + width);
            assert(tail.drop_first() =~= bytes@.subrange(offset + i + 1, offset + width));
            assert(tail[0] == byte);
            lemma_pow256_increases((width - i) as nat, 16);
            lemma_pow256_values();
            assert(pow256((width - i) as nat) == 256 * pow256((width - i - 1) as nat));
        }
        acc = acc * 256 + byte as u128;
    }
    acc
}

/// Reads the little-endian `u128` at `offset`. The caller has checked
/// that the data holds the sixteen bytes.
pub fn read_u128_le(bytes: &[u8], offset: usize) -> (r: u128)
    requires
        offset + 16 <= bytes@.len(),
    ensures
        r == le_value(field(bytes@, offset as int, 16)),
{
    read_le(bytes, offset, 16)
}

/// Reads the little-endian `u64` at `offset`. The caller has checked that
/// the data holds the eight bytes.
pub fn read_u64_le(bytes: &[u8], offset: usize) -> (r: u64)
    requires
        offset + 8 <= bytes@.len(),
    ensures
        r == le_value(field(bytes@, offset as int, 8)),
{
    let wide = read_le(bytes, offset, 8);
    proof {
        lemma_pow256_values();
    }
    wide as u64
}

/// Reads the little-endian `u32` at `offset`. The caller has checked that
/// the data holds the four bytes.
pub fn read_u32_le(bytes: &[u8], offset: usize) -> (r: u32)
    requires
        offset + 4 <= bytes@.len(),
    ensures
        r == le_value(field(bytes@, offset as int, 4)),
{
    let wide = read_le(bytes, offset, 4);
    proof {
        lemma_pow256_values();
    }
    wide as u32
}

/// Copies the 32-byte field at `offset`.
pub fn read_hash(bytes: &[u8], offset: usize) -> (r: [u8; 32])
    requires
        offset + 32 <= bytes@.len(),
    ensures
        r@ == field(bytes@, offset as int, 32),
{
    let len = bytes.len();
    let mut out = [0u8; 32];
    let mut i: usize = 0;
    while i < 32
        invariant
            i <= 32,
            offset + 32 <= bytes@.len() == len,
            out@.len() == 32,
            forall|j: int| 0 <= j < i ==> out@[j] == bytes@[offset + j],
        decreases 32 - i,
    {
        out[i] = bytes[offset + i];
        i += 1;
    }
    assert(out@ =~= field(bytes@, offset as int, 32));
    out
}

/// Appends the four little-endian bytes of `value` to `out`.
pub fn push_u32_le(out: &mut Vec<u8>, value: u32)
    ensures
        final(out)@ == old(out)@ + le_bytes(value as nat, 4),
{
    let ghost before = out@;
    let b0 = (value % 256) as u8;
    let b1 = (value / 256 % 256) as u8;
    let b2 = (value / 65536 % 256) as u8;
    let b3 = (value / 16777216 % 256) as u8;
    out.push(b0);
    out.push(b1);
    out.push(b2);
    out.push(b3);
    proof {
        reveal_with_fuel(le_bytes, 5);
        let v = value as nat;
        assert(v / 256 / 256 == v / 65536);
        assert(v / 256 / 256 / 256 == v / 16777216);
        assert(le_bytes(v, 4) =~= seq![b0, b1, b2, b3]);
        assert(out@ =~= before + le_bytes(v, 4));
    }
}

} // verus!
