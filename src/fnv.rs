//! FNV is a 64-bit implementation of the Fowler–Noll–Vo hash algorithm,
//! specifically the FNV-1a alternate algorithm: each byte is XOR-ed into the
//! state, which is then multiplied by the FNV prime modulo 2^64.
use vstd::prelude::*;

verus! {

/// The 64-bit FNV prime.
pub const PRIME: u64 = 1099511628211;

/// The 64-bit FNV offset basis: the state of a hasher made by `Fnv::new`.
pub const OFFSET_BASIS: u64 = 14695981039346656037;

/// One FNV-1a round: XOR the byte into the state, then multiply by the prime
/// with wraparound modulo 2^64.
pub open spec fn fnv_step(state: u64, byte: u8) -> u64 {
    (state ^ (byte as u64)).wrapping_mul(PRIME)
}

/// The state reached from `state` after feeding it `bytes` in order.
pub open spec fn fnv_fold(state: u64, bytes: Seq<u8>) -> u64
    decreases bytes.len(),
{
    if bytes.len() == 0 {
        state
    } else {
        fnv_step(fnv_fold(state, bytes.drop_last()), bytes.last())
    }
}

/// Writing `b1` and then `b2` leaves the same state as writing `b1 + b2`
/// in one go.
pub proof fn lemma_fnv_fold_concat(state: u64, b1: Seq<u8>, b2: Seq<u8>)
    ensures
        fnv_fold(state, b1 + b2) == fnv_fold(fnv_fold(state, b1), b2),
    decreases b2.len(),
{
    if b2.len() == 0 {
        assert(b1 + b2 =~= b1);
    } else {
        assert((b1 + b2).drop_last() =~= b1 + b2.drop_last());
        lemma_fnv_fold_concat(state, b1, b2.drop_last());
    }
}

/// The state reached depends on the starting state and the bytes alone:
/// equal inputs reach equal states.
pub proof fn lemma_fnv_deterministic(state: u64, a: Seq<u8>, b: Seq<u8>)
    requires
        a == b,
    ensures
        fnv_fold(state, a) == fnv_fold(state, b),
{
}

/// An implementation of the Fowler–Noll–Vo hash function, specifically
/// the FNV-1a alternate algorithm.
pub struct Fnv(u64);

impl View for Fnv {
    type V = u64;

    /// The running state, which is also the hash of what has been written.
    closed spec fn view(&self) -> u64 {
        self.0
    }
}

impl Fnv {
    /// Create a new FNV hasher with the default initial state.
    pub fn new() -> (r: Fnv)
        ensures
            r@ == OFFSET_BASIS,
    {
        Fnv(OFFSET_BASIS)
    }

    /// Create a new FNV hasher whose initial state is `key`.
    pub fn new_with_key(key: u64) -> (r: Fnv)
        ensures
            r@ == key,
    {
        Fnv(key)
    }

    /// The current state: the hash of everything written so far.
    pub fn finish(&self) -> (r: u64)
        ensures
            r == self@,
    {
        self.0
    }

    /// Feed `bytes` to the hasher, one byte at a time, in order.
    pub fn write(&mut self, bytes: &[u8])
        ensures
            final(self)@ == fnv_fold(old(self)@, bytes@),
    {
        let ghost start = self.0;
        let n = bytes.len();
        let mut i: usize = 0;
        while i < n
            invariant
                n == bytes@.len(),
                i <= n,
                self.0 == fnv_fold(start, bytes@.subrange(0, i as int)),
            decreases n - i,
        {
            let byte = bytes[i];
            proof {
                let done = bytes@.subrange(0, i + 1);
                assert(done.drop_last() =~= bytes@.subrange(0, i as int));
                assert(done.last() == byte);
            }
            self.0 = (self.0 ^ (byte as u64)).wrapping_mul(PRIME);
            i += 1;
        }
        assert(bytes@.subrange(0, n as int) =~= bytes@);
    }
}

impl Default for Fnv {
    /// Create a default FNV hasher, the same as `Fnv::new`.
    fn default() -> (r: Fnv)
        ensures
            r@ == OFFSET_BASIS,
    {
        Fnv::new()
    }
}

impl core::hash::Hasher for Fnv {
    fn finish(&self) -> (r: u64)
        ensures
            r == self@,
    {
        Fnv::finish(self)
    }

    fn write(&mut self, bytes: &[u8])
        ensures
            final(self)@ == fnv_fold(old(self)@, bytes@),
    {
        Fnv::write(self, bytes)
    }
}

} // verus!
