use owned_ref::ClearOwnedOnDrop;
use owned_ref::Owned;
use owned_ref::owned_clear_on_drop;

use std::collections::hash_map::DefaultHasher;
use std::hash::Hash;
use std::hash::Hasher;

fn hash_of<H: Hash>(h: &H) -> u64 {
    let mut s = DefaultHasher::new();
    h.hash(&mut s);
    s.finish()
}

#[test]
fn owned() {
    let mut key = owned_clear_on_drop([1u16, 2, 3, 4, 5, 6, 7]);
    key[5] = 3;
    let place = ClearOwnedOnDrop::into_place(key);
    for i in 0..7 {
        assert_eq!(place.borrow()[i], 0);
    }
}

#[test]
fn construct_then_read() {
    let o = Owned::new(42u32);
    assert_eq!(*o.borrow(), 42);
    assert_eq!(*o, 42);
}

#[test]
fn write_then_read() {
    let mut o = Owned::new(1u32);
    *o.borrow_mut() = 9;
    assert_eq!(*o.borrow(), 9);
    *o = 11;
    assert_eq!(*o, 11);
}

#[test]
fn address_stability() {
    let o = Owned::new(5u8);
    assert!(std::ptr::eq(o.borrow(), o.borrow()));
    assert!(std::ptr::eq(o.borrow(), &*o));
}

#[test]
fn content_based_comparisons() {
    let a = Owned::new(3u64);
    let b = Owned::new(3u64);
    let c = Owned::new(4u64);
    assert!(a == b);
    assert!(a != c);
    assert!(a < c);
    assert!(c > b);
    assert!(a <= b);
    assert!(a >= b);
    assert_eq!(a == b, 3u64 == 3u64);
    assert_eq!(a == c, 3u64 == 4u64);
    assert_eq!(a.partial_cmp(&c), Some(std::cmp::Ordering::Less));
    assert_eq!(a.cmp(&b), std::cmp::Ordering::Equal);
    assert_eq!(c.cmp(&a), std::cmp::Ordering::Greater);
}

#[test]
fn content_based_hashing() {
    let a = Owned::new(77u32);
    let b = Owned::new(77u32);
    assert_eq!(hash_of(&a), hash_of(&b));
    assert_eq!(hash_of(&a), hash_of(&77u32));
}

#[test]
fn formatting_fidelity() {
    let o = Owned::new([1u8, 2, 3]);
    assert_eq!(o.to_debug_string(), format!("{:?}", [1u8, 2, 3]));
    let p = Owned::new(255u16);
    assert_eq!(p.to_debug_string(), format!("{:?}", 255u16));
}

#[test]
fn default_holds_default_value() {
    let d: Owned<u64> = Default::default();
    assert_eq!(*d.borrow(), 0);
    let e: Owned<[u8; 4]> = Default::default();
    assert_eq!(*e.borrow(), [0u8; 4]);
}

#[test]
fn guard_exposes_adapter_slot() {
    let mut g = owned_clear_on_drop(1234u32);
    assert_eq!(*g, 1234);
    *g = 4321;
    assert_eq!(*g, 4321);
}

#[test]
fn scoped_clear_reaches_storage() {
    let mut key = owned_clear_on_drop([1u16, 2, 3, 4, 5, 6, 7]);
    key[4] = 3;
    assert_eq!(*key, [1, 2, 3, 4, 3, 6, 7]);
    let place = ClearOwnedOnDrop::into_place(key);
    assert_eq!(*place.borrow(), [0u16; 7]);
}
