//! Bits packed into bytes least-significant bit first: bit `i` of a byte
//! sequence is bit `i % 8` (counting from the least significant end) of byte
//! `i / 8`. The single-bit reads and writes go through `bitvec`'s `Lsb0`
//! views.

use bitvec::order::Lsb0;
use bitvec::view::BitView;
use vstd::prelude::*;

verus! {

/// Bit `i` of `bytes` in least-significant-first order.
pub open spec fn bit_lsb0(bytes: Seq<u8>, i: int) -> bool {
    ((bytes[i / 8] >> ((i % 8) as u8)) & 1u8) == 1u8
}

/// `bitvec` views byte slices of at most this many bytes as bit slices.
pub open spec fn bit_view_fits(len: int) -> bool {
    len <= usize::MAX as int / 64 + 1
}

/// Bit `i` of `bits` as a number: 1 for a set bit, 0 for a clear one or
/// past the end.
pub open spec fn bit_value(bits: Seq<bool>, i: int) -> u8 {
    if 0 <= i < bits.len() && bits[i] {
        1
    } else {
        0
    }
}

/// Byte `j` of the packing of `bits`.
pub open spec fn pack_byte(bits: Seq<bool>, j: int) -> u8 {
    bit_value(bits, 8 * j) | (bit_value(bits, 8 * j + 1) << 1u8) | (bit_value(bits, 8 * j + 2)
        << 2u8) | (bit_value(bits, 8 * j + 3) << 3u8) | (bit_value(bits, 8 * j + 4) << 4u8) | (
    bit_value(bits, 8 * j + 5) << 5u8) | (bit_value(bits, 8 * j + 6) << 6u8) | (bit_value(
        bits,
        8 * j + 7,
    ) << 7u8)
}

/// The bytes that hold `bits` least-significant bit first, the last byte
/// padded with clear bits.
pub open spec fn pack_lsb0(bits: Seq<bool>) -> Seq<u8> {
    Seq::new(((bits.len() + 7) / 8) as nat, |j: int| pack_byte(bits, j))
}

/// Writes bit `index` of `bytes`, through `BitSlice::set` on a `Lsb0` view
/// of the bytes. The contract claims that exactly that bit changes, to
/// `value`; `bitvec` panics on an index past the end or on a slice too long
/// to view, which `requires` rules out.
#[verifier::external_body]
fn set_bit_lsb0(bytes: &mut Vec<u8>, index: usize, value: bool)
    requires
        index < 8 * old(bytes).len(),
        bit_view_fits(old(bytes).len() as int),
    ensures
        final(bytes).len() == old(bytes).len(),
        forall|i: int|
            0 <= i < 8 * old(bytes).len() ==> bit_lsb0(final(bytes)@, i) == if i == index {
                value
            } else {
                bit_lsb0(old(bytes)@, i)
            },
{
    bytes.as_mut_slice().view_bits_mut::<Lsb0>().set(index, value)
}

/// Reads bit `index` of `bytes`, through indexing a `Lsb0` view of the bytes
/// with `bitvec`. The contract claims the bit read is that bit.
#[verifier::external_body]
pub(crate) fn bit_at_lsb0(bytes: &[u8], index: usize) -> (b: bool)
    requires
        index < 8 * bytes.len(),
        bit_view_fits(bytes.len() as int),
    ensures
        b == bit_lsb0(bytes@, index as int),
{
    bytes.view_bits::<Lsb0>()[index]
}

proof fn lemma_byte_bits(b0: u8, b1: u8, b2: u8, b3: u8, b4: u8, b5: u8, b6: u8, b7: u8)
    requires
        b0 <= 1,
        b1 <= 1,
        b2 <= 1,
        b3 <= 1,
        b4 <= 1,
        b5 <= 1,
        b6 <= 1,
        b7 <= 1,
    ensures
        ({
            let x = b0 | (b1 << 1u8) | (b2 << 2u8) | (b3 << 3u8) | (b4 << 4u8) | (b5 << 5u8) | (b6
                << 6u8) | (b7 << 7u8);
            &&& (x >> 0u8) & 1u8 == b0
            &&& (x >> 1u8) & 1u8 == b1
            &&& (x >> 2u8) & 1u8 == b2
            &&& (x >> 3u8) & 1u8 == b3
            &&& (x >> 4u8) & 1u8 == b4
            &&& (x >> 5u8) & 1u8 == b5
            &&& (x >> 6u8) & 1u8 == b6
            &&& (x >> 7u8) & 1u8 == b7
        }),
{
    assert({
        let x = b0 | (b1 << 1u8) | (b2 << 2u8) | (b3 << 3u8) | (b4 << 4u8) | (b5 << 5u8) | (b6
            << 6u8) | (b7 << 7u8);
        &&& (x >> 0u8) & 1u8 == b0
        &&& (x >> 1u8) & 1u8 == b1
        &&& (x >> 2u8) & 1u8 == b2
        &&& (x >> 3u8) & 1u8 == b3
        &&& (x >> 4u8) & 1u8 == b4
        &&& (x >> 5u8) & 1u8 == b5
        &&& (x >> 6u8) & 1u8 == b6
        &&& (x >> 7u8) & 1u8 == b7
    }) by (bit_vector)
        requires
            b0 <= 1,
            b1 <= 1,
            b2 <= 1,
            b3 <= 1,
            b4 <= 1,
            b5 <= 1,
            b6 <= 1,
            b7 <= 1,
    ;
}

proof fn lemma_bytes_equal_by_bits(x: u8, y: u8)
    requires
        (x >> 0u8) & 1u8 == (y >> 0u8) & 1u8,
        (x >> 1u8) & 1u8 == (y >> 1u8) & 1u8,
        (x >> 2u8) & 1u8 == (y >> 2u8) & 1u8,
        (x >> 3u8) & 1u8 == (y >> 3u8) & 1u8,
        (x >> 4u8) & 1u8 == (y >> 4u8) & 1u8,
        (x >> 5u8) & 1u8 == (y >> 5u8) & 1u8,
        (x >> 6u8) & 1u8 == (y >> 6u8) & 1u8,
        (x >> 7u8) & 1u8 == (y >> 7u8) & 1u8,
    ensures
        x == y,
{
    assert(x == y) by (bit_vector)
        requires
            (x >> 0u8) & 1u8 == (y >> 0u8) & 1u8,
            (x >> 1u8) & 1u8 == (y >> 1u8) & 1u8,
            (x >> 2u8) & 1u8 == (y >> 2u8) & 1u8,
            (x >> 3u8) & 1u8 == (y >> 3u8) & 1u8,
            (x >> 4u8) & 1u8 == (y >> 4u8) & 1u8,
            (x >> 5u8) & 1u8 == (y >> 5u8) & 1u8,
            (x >> 6u8) & 1u8 == (y >> 6u8) & 1u8,
            (x >> 7u8) & 1u8 == (y >> 7u8) & 1u8,
    ;
}

proof fn lemma_bit_agrees(x: u8, y: u8, k: u8)
    requires
        k < 8,
        ((x >> k) & 1u8 == 1u8) == ((y >> k) & 1u8 == 1u8),
    ensures
        (x >> k) & 1u8 == (y >> k) & 1u8,
{
    assert((x >> k) & 1u8 == (y >> k) & 1u8) by (bit_vector)
        requires
            k < 8,
            ((x >> k) & 1u8 == 1u8) == ((y >> k) & 1u8 == 1u8),
    ;
}

/// Reading back a packing: bit `i` of `pack_lsb0(bits)` is `bits[i]` for
/// every `i` below the length of `bits`, and clear for the padding bits of
/// the last byte.
pub proof fn lemma_pack_bits(bits: Seq<bool>, i: int)
    requires
        0 <= i < 8 * pack_lsb0(bits).len(),
    ensures
        bit_lsb0(pack_lsb0(bits), i) == (i < bits.len() && bits[i]),
{
    let j = i / 8;
    let k = i % 8;
    assert(0 <= j < pack_lsb0(bits).len());
    assert(pack_lsb0(bits)[j] == pack_byte(bits, j));
    lemma_byte_bits(
        bit_value(bits, 8 * j),
        bit_value(bits, 8 * j + 1),
        bit_value(bits, 8 * j + 2),
        bit_value(bits, 8 * j + 3),
        bit_value(bits, 8 * j + 4),
        bit_value(bits, 8 * j + 5),
        bit_value(bits, 8 * j + 6),
        bit_value(bits, 8 * j + 7),
    );
    assert(i == 8 * j + k);
}

/// Two byte sequences of one length whose bits all agree are equal.
pub(crate) proof fn lemma_equal_by_bits(a: Seq<u8>, b: Seq<u8>)
    requires
        a.len() == b.len(),
        forall|i: int| 0 <= i < 8 * a.len() ==> bit_lsb0(a, i) == bit_lsb0(b, i),
    ensures
        a == b,
{
    assert forall|j: int| 0 <= j < a.len() implies a[j] == b[j] by {
        assert(bit_lsb0(a, 8 * j) == bit_lsb0(b, 8 * j));
        assert(bit_lsb0(a, 8 * j + 1) == bit_lsb0(b, 8 * j + 1));
        assert(bit_lsb0(a, 8 * j + 2) == bit_lsb0(b, 8 * j + 2));
        assert(bit_lsb0(a, 8 * j + 3) == bit_lsb0(b, 8 * j + 3));
        assert(bit_lsb0(a, 8 * j + 4) == bit_lsb0(b, 8 * j + 4));
        assert(bit_lsb0(a, 8 * j + 5) == bit_lsb0(b, 8 * j + 5));
        assert(bit_lsb0(a, 8 * j + 6) == bit_lsb0(b, 8 * j + 6));
        assert(bit_lsb0(a, 8 * j + 7) == bit_lsb0(b, 8 * j + 7));
        let x = a[j];
        let y = b[j];
        lemma_bit_agrees(x, y, 0);
        lemma_bit_agrees(x, y, 1);
        lemma_bit_agrees(x, y, 2);
        lemma_bit_agrees(x, y, 3);
        lemma_bit_agrees(x, y, 4);
        lemma_bit_agrees(x, y, 5);
        lemma_bit_agrees(x, y, 6);
        lemma_bit_agrees(x, y, 7);
        lemma_bytes_equal_by_bits(x, y);
    }
    assert(a =~= b);
}

/// The bits of `bytes`, least-significant bit first.
pub open spec fn unpack_lsb0(bytes: Seq<u8>) -> Seq<bool> {
    Seq::new(8 * bytes.len(), |i: int| bit_lsb0(bytes, i))
}

/// Packing the bits of some bytes gives those bytes back.
pub proof fn lemma_pack_unpack(bytes: Seq<u8>)
    ensures
        pack_lsb0(unpack_lsb0(bytes)) == bytes,
{
    let bits = unpack_lsb0(bytes);
    assert((8 * bytes.len() + 7) / 8 == bytes.len());
    assert forall|i: int| 0 <= i < 8 * bytes.len() implies bit_lsb0(pack_lsb0(bits), i)
        == bit_lsb0(bytes, i) by {
        lemma_pack_bits(bits, i);
    }
    lemma_equal_by_bits(pack_lsb0(bits), bytes);
}

/// Packs `bits` into bytes, least-significant bit first, one `bitvec` bit
/// write per bit.
pub fn pack_bits(bits: &Vec<bool>) -> (bytes: Vec<u8>)
    requires
        bits.len() + 7 <= usize::MAX,
        bit_view_fits((bits.len() + 7) / 8),
    ensures
        bytes@ == pack_lsb0(bits@),
{
    let n = bits.len();
    let byte_len = (n + 7) / 8;
    let mut bytes: Vec<u8> = Vec::new();
    while bytes.len() < byte_len
        invariant
            bytes.len() <= byte_len,
            forall|j: int| 0 <= j < bytes.len() ==> bytes@[j] == 0u8,
        decreases byte_len - bytes.len(),
    {
        bytes.push(0u8);
    }
    assert forall|i: int| 0 <= i < 8 * byte_len implies !bit_lsb0(bytes@, i) by {
        let s = (i % 8) as u8;
        assert((0u8 >> s) & 1u8 == 0u8) by (bit_vector);
    }
    let mut idx: usize = 0;
    while idx < n
        invariant
            n == bits.len(),
            byte_len == (n + 7) / 8,
            bit_view_fits(byte_len as int),
            bytes.len() == byte_len,
            idx <= n,
            forall|i: int|
                0 <= i < 8 * byte_len ==> bit_lsb0(bytes@, i) == (i < idx && bits@[i]),
        decreases n - idx,
    {
        set_bit_lsb0(&mut bytes, idx, bits[idx]);
        idx = idx + 1;
    }
    assert forall|i: int| 0 <= i < 8 * byte_len implies bit_lsb0(bytes@, i) == bit_lsb0(
        pack_lsb0(bits@),
        i,
    ) by {
        lemma_pack_bits(bits@, i);
    }
    proof {
        lemma_equal_by_bits(bytes@, pack_lsb0(bits@));
    }
    bytes
}

} // verus!
