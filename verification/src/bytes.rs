//! Little-endian integers and account addresses inside a byte buffer.

use vstd::prelude::*;
use crate::state::Pubkey;

verus! {

/// The four bytes of `x`, least significant first.
pub open spec fn u32_to_le(x: u32) -> Seq<u8> {
    seq![
        (x & 0xff) as u8,
        ((x >> 8) & 0xff) as u8,
        ((x >> 16) & 0xff) as u8,
        ((x >> 24) & 0xff) as u8,
    ]
}

/// The number whose four bytes, least significant first, are `b`.
pub open spec fn u32_from_le(b: Seq<u8>) -> u32 {
    (b[0] as u32) | ((b[1] as u32) << 8) | ((b[2] as u32) << 16) | ((b[3] as u32) << 24)
}

/// The eight bytes of `x`, least significant first.
pub open spec fn u64_to_le(x: u64) -> Seq<u8> {
    seq![
        (x & 0xff) as u8,
        ((x >> 8) & 0xff) as u8,
        ((x >> 16) & 0xff) as u8,
        ((x >> 24) & 0xff) as u8,
        ((x >> 32) & 0xff) as u8,
        ((x >> 40) & 0xff) as u8,
        ((x >> 48) & 0xff) as u8,
        ((x >> 56) & 0xff) as u8,
    ]
}

/// The number whose eight bytes, least significant first, are `b`.
pub open spec fn u64_from_le(b: Seq<u8>) -> u64 {
    (b[0] as u64) | ((b[1] as u64) << 8) | ((b[2] as u64) << 16) | ((b[3] as u64) << 24) | ((
    b[4] as u64) << 32) | ((b[5] as u64) << 40) | ((b[6] as u64) << 48) | ((b[7] as u64) << 56)
}

/// `buffer` with the bytes from `at` on replaced by `part`.
pub open spec fn spliced(buffer: Seq<u8>, at: int, part: Seq<u8>) -> Seq<u8> {
    buffer.subrange(0, at) + part + buffer.subrange(at + part.len(), buffer.len() as int)
}

/// Reading back what `u32_to_le` wrote gives the number again.
pub proof fn lemma_u32_le_round_trip(x: u32)
    ensures
        u32_to_le(x).len() == 4,
        u32_from_le(u32_to_le(x)) == x,
{
    assert(((x & 0xff) as u8 as u32) | (((x >> 8) & 0xff) as u8 as u32) << 8 | (((x >> 16)
        & 0xff) as u8 as u32) << 16 | (((x >> 24) & 0xff) as u8 as u32) << 24 == x)
        by (bit_vector);
}

/// Writing out the number that four bytes spell gives the four bytes again.
pub proof fn lemma_u32_le_bytes_round_trip(b: Seq<u8>)
    requires
        b.len() == 4,
    ensures
        u32_to_le(u32_from_le(b)) == b,
{
    let (b0, b1, b2, b3) = (b[0], b[1], b[2], b[3]);
    let x = u32_from_le(b);
    assert(x == (b0 as u32) | ((b1 as u32) << 8) | ((b2 as u32) << 16) | ((b3 as u32) << 24));
    assert(x == (b0 as u32) | ((b1 as u32) << 8) | ((b2 as u32) << 16) | ((b3 as u32) << 24)
        ==> (x & 0xff) as u8 == b0 && ((x >> 8) & 0xff) as u8 == b1 && ((x >> 16) & 0xff) as u8
        == b2 && ((x >> 24) & 0xff) as u8 == b3) by (bit_vector);
    assert(u32_to_le(x) =~= b);
}

/// Reading back what `u64_to_le` wrote gives the number again.
pub proof fn lemma_u64_le_round_trip(x: u64)
    ensures
        u64_to_le(x).len() == 8,
        u64_from_le(u64_to_le(x)) == x,
{
    assert(((x & 0xff) as u8 as u64) | (((x >> 8) & 0xff) as u8 as u64) << 8 | (((x >> 16)
        & 0xff) as u8 as u64) << 16 | (((x >> 24) & 0xff) as u8 as u64) << 24 | (((x >> 32)
        & 0xff) as u8 as u64) << 32 | (((x >> 40) & 0xff) as u8 as u64) << 40 | (((x >> 48)
        & 0xff) as u8 as u64) << 48 | (((x >> 56) & 0xff) as u8 as u64) << 56 == x)
        by (bit_vector);
}

/// Writing out the number that eight bytes spell gives the eight bytes again.
pub proof fn lemma_u64_le_bytes_round_trip(b: Seq<u8>)
    requires
        b.len() == 8,
    ensures
        u64_to_le(u64_from_le(b)) == b,
{
    let (b0, b1, b2, b3) = (b[0], b[1], b[2], b[3]);
    let (b4, b5, b6, b7) = (b[4], b[5], b[6], b[7]);
    let x = u64_from_le(b);
    assert(x == (b0 as u64) | ((b1 as u64) << 8) | ((b2 as u64) << 16) | ((b3 as u64) << 24) | ((
    b4 as u64) << 32) | ((b5 as u64) << 40) | ((b6 as u64) << 48) | ((b7 as u64) << 56));
    assert(x == (b0 as u64) | ((b1 as u64) << 8) | ((b2 as u64) << 16) | ((b3 as u64) << 24) | ((
    b4 as u64) << 32) | ((b5 as u64) << 40) | ((b6 as u64) << 48) | ((b7 as u64) << 56) ==> (x
        & 0xff) as u8 == b0 && ((x >> 8) & 0xff) as u8 == b1 && ((x >> 16) & 0xff) as u8 == b2
        && ((x >> 24) & 0xff) as u8 == b3 && ((x >> 32) & 0xff) as u8 == b4 && ((x >> 40)
        & 0xff) as u8 == b5 && ((x >> 48) & 0xff) as u8 == b6 && ((x >> 56) & 0xff) as u8 == b7)
        by (bit_vector);
    assert(u64_to_le(x) =~= b);
}

/// A signed number and its two's-complement bit pattern determine each other.
pub proof fn lemma_i64_bits_round_trip(x: i64, y: u64)
    ensures
        (x as u64) as i64 == x,
        (y as i64) as u64 == y,
{
    assert((x as u64) as i64 == x) by (bit_vector);
    assert((y as i64) as u64 == y) by (bit_vector);
}

/// Reads the little-endian `u32` that starts at `at`.
pub fn read_u32(data: &[u8], at: usize) -> (x: u32)
    requires
        at + 4 <= data@.len(),
    ensures
        x == u32_from_le(data@.subrange(at as int, at + 4)),
{
    (data[at] as u32) | ((data[at + 1] as u32) << 8) | ((data[at + 2] as u32) << 16) | ((data[at
        + 3] as u32) << 24)
}

/// Reads the little-endian `u64` that starts at `at`.
pub fn read_u64(data: &[u8], at: usize) -> (x: u64)
    requires
        at + 8 <= data@.len(),
    ensures
        x == u64_from_le(data@.subrange(at as int, at + 8)),
{
    (data[at] as u64) | ((data[at + 1] as u64) << 8) | ((data[at + 2] as u64) << 16) | ((data[at
        + 3] as u64) << 24) | ((data[at + 4] as u64) << 32) | ((data[at + 5] as u64) << 40) | ((
    data[at + 6] as u64) << 48) | ((data[at + 7] as u64) << 56)
}

/// Reads the address that starts at `at`.
pub fn read_key(data: &[u8], at: usize) -> (key: Pubkey)
    requires
        at + 32 <= data@.len(),
    ensures
        key@ == data@.subrange(at as int, at + 32),
{
    let len: usize = data.len();
    let mut bytes: [u8; 32] = [0u8; 32];
    let mut i: usize = 0;
    while i < 32
        invariant
            i <= 32,
            at + 32 <= data@.len() == len,
            forall|j: int| 0 <= j < i ==> bytes[j] == data@[at + j],
        decreases 32 - i,
    {
        bytes[i] = data[at + i];
        i += 1;
    }
    let key = Pubkey { bytes };
    assert(key@ =~= data@.subrange(at as int, at + 32));
    key
}

/// Writes `x`, least significant byte first, from `at` on.
pub fn write_u32(data: &mut [u8], at: usize, x: u32)
    requires
        at + 4 <= old(data)@.len(),
    ensures
        final(data)@ == spliced(old(data)@, at as int, u32_to_le(x)),
{
    data[at] = (x & 0xff) as u8;
    data[at + 1] = ((x >> 8) & 0xff) as u8;
    data[at + 2] = ((x >> 16) & 0xff) as u8;
    data[at + 3] = ((x >> 24) & 0xff) as u8;
    assert(data@ =~= spliced(old(data)@, at as int, u32_to_le(x)));
}

/// Writes `x`, least significant byte first, from `at` on.
pub fn write_u64(data: &mut [u8], at: usize, x: u64)
    requires
        at + 8 <= old(data)@.len(),
    ensures
        final(data)@ == spliced(old(data)@, at as int, u64_to_le(x)),
{
    data[at] = (x & 0xff) as u8;
    data[at + 1] = ((x >> 8) & 0xff) as u8;
    data[at + 2] = ((x >> 16) & 0xff) as u8;
    data[at + 3] = ((x >> 24) & 0xff) as u8;
    data[at + 4] = ((x >> 32) & 0xff) as u8;
    data[at + 5] = ((x >> 40) & 0xff) as u8;
    data[at + 6] = ((x >> 48) & 0xff) as u8;
    data[at + 7] = ((x >> 56) & 0xff) as u8;
    assert(data@ =~= spliced(old(data)@, at as int, u64_to_le(x)));
}

/// Writes the address `key` from `at` on.
pub fn write_key(data: &mut [u8], at: usize, key: &Pubkey)
    requires
        at + 32 <= old(data)@.len(),
    ensures
        final(data)@ == spliced(old(data)@, at as int, key@),
{
    let len: usize = data.len();
    let mut i: usize = 0;
    while i < 32
        invariant
            i <= 32,
            at + 32 <= old(data)@.len() == len,
            data@.len() == old(data)@.len(),
            forall|j: int| 0 <= j < i ==> data@[at + j] == key.bytes[j],
            forall|j: int| 0 <= j < at || at + i <= j < data@.len() ==> data@[j] == old(data)@[j],
        decreases 32 - i,
    {
        data[at + i] = key.bytes[i];
        i += 1;
    }
    assert(data@ =~= spliced(old(data)@, at as int, key@));
}

} // verus!
