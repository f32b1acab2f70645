//! Two non-cryptographic hash functions over byte sequences: the 64-bit
//! FNV-1a hasher and the 32-bit x86 variant of Murmur3.
pub mod fnv;
pub mod murmur;

pub use fnv::Fnv;
pub use murmur::murmurhash3_x86_32;
