//! The 32-bit x86 variant of the Murmur3 hash function.
//!
//! The input is read as little-endian 32-bit blocks, each scrambled and mixed
//! into a running accumulator that starts at the seed; the zero to three bytes
//! left over are scrambled and XOR-ed in; the length is XOR-ed in and a final
//! avalanche step mixes the bits. All arithmetic wraps modulo 2^32.
//!
//! Each block's mixing result is carried into the next block, as in Austin
//! Appleby's MurmurHash3. A three-byte tail is read as a little-endian 16-bit
//! word shifted left by eight bits plus the third byte.
use byteorder::{ByteOrder, LittleEndian};
use vstd::prelude::*;
use vstd::slice::slice_subrange;

verus! {

/// Multiplier applied to each word before its rotation.
pub const C1: u32 = 0xcc9e2d51;

/// Multiplier applied to each word after its rotation.
pub const C2: u32 = 0x1b873593;

/// Constant added to the accumulator after each block.
pub const BLOCK_ADD: u32 = 0xe6546b64;

/// First multiplier of the avalanche step.
pub const FMIX_MUL1: u32 = 0x85ebca6b;

/// Second multiplier of the avalanche step.
pub const FMIX_MUL2: u32 = 0xc2b2ae35;

/// The number that the first two bytes of `b` spell in little-endian order.
pub open spec fn le_u16_of(b: Seq<u8>) -> int {
    b[0] as int + 256 * (b[1] as int)
}

/// The number that the first four bytes of `b` spell in little-endian order.
pub open spec fn le_u32_of(b: Seq<u8>) -> int {
    b[0] as int + 256 * (b[1] as int) + 65536 * (b[2] as int) + 16777216 * (b[3] as int)
}

/// Relies on byteorder's `LittleEndian::read_u16`: the first two bytes of
/// `buf` as a little-endian integer (it panics on a shorter buffer).
#[verifier::external_body]
fn read_u16_le(buf: &[u8]) -> (r: u16)
    requires
        buf@.len() >= 2,
    ensures
        r as int == le_u16_of(buf@),
{
    LittleEndian::read_u16(buf)
}

/// Relies on byteorder's `LittleEndian::read_u32`: the first four bytes of
/// `buf` as a little-endian integer (it panics on a shorter buffer).
#[verifier::external_body]
fn read_u32_le(buf: &[u8]) -> (r: u32)
    requires
        buf@.len() >= 4,
    ensures
        r as int == le_u32_of(buf@),
{
    LittleEndian::read_u32(buf)
}

/// Rotation of `x` left by `n` bits, for `0 < n < 32`.
pub open spec fn rotl32(x: u32, n: u32) -> u32 {
    (x << n) | (x >> ((32 - n) as u32))
}

/// The transform applied to each block word and to the tail word.
pub open spec fn scramble(k: u32) -> u32 {
    rotl32(k.wrapping_mul(C1), 15).wrapping_mul(C2)
}

/// The accumulator after mixing the block word `k` into `h`.
pub open spec fn mix_block(h: u32, k: u32) -> u32 {
    rotl32(h ^ scramble(k), 13).wrapping_mul(5).wrapping_add(BLOCK_ADD)
}

/// The avalanche step that ends every hash.
pub open spec fn fmix(h: u32) -> u32 {
    let h = h ^ (h >> 16u32);
    let h = h.wrapping_mul(FMIX_MUL1);
    let h = h ^ (h >> 13u32);
    let h = h.wrapping_mul(FMIX_MUL2);
    h ^ (h >> 16u32)
}

/// The `i`-th full block of `b` as a little-endian word.
pub open spec fn block_word(b: Seq<u8>, i: int) -> u32 {
    le_u32_of(b.subrange(4 * i, 4 * i + 4)) as u32
}

/// The accumulator after the first `n` blocks of `b`, starting from `seed`.
pub open spec fn blocks_hash(seed: u32, b: Seq<u8>, n: nat) -> u32
    decreases n,
{
    if n == 0 {
        seed
    } else {
        mix_block(blocks_hash(seed, b, (n - 1) as nat), block_word(b, n - 1))
    }
}

/// The bytes after the last full block.
pub open spec fn tail_of(b: Seq<u8>) -> Seq<u8> {
    b.subrange(4 * (b.len() / 4) as int, b.len() as int)
}

/// The word built from the tail: for three bytes, the little-endian word of
/// the first two shifted left by eight bits plus the third; for two, their
/// little-endian word; for one, that byte.
pub open spec fn tail_word(t: Seq<u8>) -> u32 {
    if t.len() == 3 {
        (le_u16_of(t) * 256 + t[2] as int) as u32
    } else if t.len() == 2 {
        le_u16_of(t) as u32
    } else if t.len() == 1 {
        t[0] as u32
    } else {
        0
    }
}

/// The Murmur3 x86 32-bit hash of `b` with `seed`.
pub open spec fn murmur3_x86_32(seed: u32, b: Seq<u8>) -> u32 {
    let h = blocks_hash(seed, b, b.len() / 4);
    let h = if b.len() % 4 == 0 {
        h
    } else {
        h ^ scramble(tail_word(tail_of(b)))
    };
    fmix(h ^ (b.len() as u32))
}

fn rotl(x: u32, n: u32) -> (r: u32)
    requires
        0 < n < 32,
    ensures
        r == rotl32(x, n),
{
    (x << n) | (x >> (32 - n))
}

fn scramble_word(k: u32) -> (r: u32)
    ensures
        r == scramble(k),
{
    rotl(k.wrapping_mul(C1), 15).wrapping_mul(C2)
}

fn mix_word(h: u32, k: u32) -> (r: u32)
    ensures
        r == mix_block(h, k),
{
    rotl(h ^ scramble_word(k), 13).wrapping_mul(5).wrapping_add(BLOCK_ADD)
}

fn avalanche(h: u32) -> (r: u32)
    ensures
        r == fmix(h),
{
    let mut h1 = h;
    h1 ^= h1 >> 16;
    h1 = h1.wrapping_mul(FMIX_MUL1);
    h1 ^= h1 >> 13;
    h1 = h1.wrapping_mul(FMIX_MUL2);
    h1 ^= h1 >> 16;
    h1
}

/// An implementation of the 32-bit version of the Murmur3 hash function.
pub fn murmurhash3_x86_32(seed: u32, bytes: &[u8]) -> (r: u32)
    ensures
        r == murmur3_x86_32(seed, bytes@),
{
    let len = bytes.len();
    let nblocks = len / 4;
    let mut h1 = seed;
    let mut i: usize = 0;
    while i < nblocks
        invariant
            len == bytes@.len(),
            nblocks == len / 4,
            i <= nblocks,
            h1 == blocks_hash(seed, bytes@, i as nat),
        decreases nblocks - i,
    {
        let block = slice_subrange(bytes, 4 * i, 4 * i + 4);
        let k1 = read_u32_le(block);
        h1 = mix_word(h1, k1);
        i += 1;
    }
    let tail = slice_subrange(bytes, 4 * nblocks, len);
    let left = len - 4 * nblocks;
    if left != 0 {
        let k1: u32 = if left == 3 {
            let w = read_u16_le(tail) as u32;
            let last = tail[2] as u32;
            assert(w < 65536 ==> (w << 8u32) == w * 256 && w * 256 + 255 <= u32::MAX) by (bit_vector);
            (w << 8) + last
        } else if left == 2 {
            read_u16_le(tail) as u32
        } else {
            tail[0] as u32
        };
        h1 ^= scramble_word(k1);
    }
    h1 ^= len as u32;
    avalanche(h1)
}

/// The hash depends on the seed and the bytes alone: equal inputs give equal
/// hashes.
pub proof fn lemma_murmur3_deterministic(seed: u32, a: Seq<u8>, b: Seq<u8>)
    requires
        a == b,
    ensures
        murmur3_x86_32(seed, a) == murmur3_x86_32(seed, b),
{
}

/// On the empty input the block and tail steps do nothing: the hash is the
/// avalanche of the seed.
pub proof fn lemma_murmur3_empty(seed: u32)
    ensures
        murmur3_x86_32(seed, Seq::empty()) == fmix(seed),
{
    assert(blocks_hash(seed, Seq::<u8>::empty(), 0) == seed);
    assert(seed ^ 0u32 == seed) by (bit_vector);
}

} // verus!
