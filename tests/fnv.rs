use hsh::Fnv;
use std::hash::Hasher;

fn fnv1a(bytes: &[u8]) -> u64 {
    let mut hasher = Fnv::new();
    hasher.write(bytes);
    hasher.finish()
}

#[test]
fn fnv_basic_tests() {
    assert_eq!(fnv1a(b"foo"), 15902901984413996407);
    assert_eq!(fnv1a(b"bar"), 16101355973854746);
    assert_eq!(fnv1a(b"baz"), 16092559880829058);
}

#[test]
fn fnv_empty_input_is_offset_basis() {
    assert_eq!(fnv1a(b""), 14695981039346656037);
}

#[test]
fn fnv_repeated_calls_agree() {
    assert_eq!(fnv1a(b"foo"), fnv1a(b"foo"));
    let mut h = Fnv::new_with_key(99);
    h.write(b"determinism");
    let mut g = Fnv::new_with_key(99);
    g.write(b"determinism");
    assert_eq!(h.finish(), g.finish());
}

#[test]
fn fnv_incremental_matches_one_shot() {
    let mut h = Fnv::new();
    h.write(b"foo");
    h.write(b"bar");
    assert_eq!(h.finish(), fnv1a(b"foobar"));
    assert_eq!(h.finish(), 9625390261332436968);
}

#[test]
fn fnv_new_matches_offset_basis_key() {
    let mut a = Fnv::new();
    let mut b = Fnv::new_with_key(14695981039346656037);
    assert_eq!(a.finish(), b.finish());
    a.write(b"baz");
    b.write(b"baz");
    assert_eq!(a.finish(), b.finish());
}

#[test]
fn fnv_default_matches_new() {
    let mut d = Fnv::default();
    d.write(b"foo");
    assert_eq!(d.finish(), 15902901984413996407);
}

#[test]
fn fnv_keyed_vectors() {
    let mut a = Fnv::new_with_key(0);
    a.write(b"foo");
    assert_eq!(a.finish(), 8304572850077109720);
    let mut b = Fnv::new_with_key(1);
    b.write(b"foo");
    assert_eq!(b.finish(), 9045495253233804035);
    let c = Fnv::new_with_key(5);
    assert_eq!(c.finish(), 5);
}

#[test]
fn fnv_finish_is_idempotent() {
    let mut h = Fnv::new();
    h.write(b"foo");
    assert_eq!(h.finish(), h.finish());
}

#[test]
fn fnv_order_matters() {
    assert_ne!(fnv1a(b"ab"), fnv1a(b"ba"));
}

#[test]
fn fnv_through_hasher_trait() {
    let mut h = Fnv::new();
    Hasher::write(&mut h, b"bar");
    assert_eq!(Hasher::finish(&h), 16101355973854746);
}

#[test]
fn fnv_long_input_wraps() {
    assert_eq!(fnv1a(&[0xffu8; 1000]), 16570818846497497565);
    assert_eq!(fnv1a(&[b'a'; 1003]), 17823462063274970106);
}
