use lib::hash::FibonacciHash;
use lib::once_slot::OnceSlot;
use lib::ring_array::RingArray;

#[test]
fn ring_array_keeps_the_last_n_items_in_order() {
    let mut ring: RingArray<u32, 3> = RingArray::new(0);
    assert!(ring.is_empty());
    for v in 1..=5u32 {
        ring.push(v);
    }
    assert!(ring.is_full());
    assert_eq!(ring.len(), 3);
    let mut it = ring.iter();
    assert_eq!(it.next(), Some(&3));
    assert_eq!(it.next(), Some(&4));
    assert_eq!(it.next(), Some(&5));
    assert_eq!(it.next(), None);
}

#[test]
fn ring_array_drain_empties_into_destination() {
    let mut ring: RingArray<u8, 4> = RingArray::new(0);
    ring.push(7);
    ring.push(8);
    let mut dst = [0u8; 4];
    let n = ring.drain(&mut dst);
    assert_eq!(n, 2);
    assert_eq!(&dst[..2], &[7, 8]);
    assert!(ring.is_empty());
}

#[test]
fn ring_array_clear() {
    let mut ring: RingArray<u8, 2> = RingArray::new(9);
    ring.push(1);
    ring.clear();
    assert_eq!(ring.len(), 0);
    assert!(!ring.is_full());
}

#[test]
fn fibonacci_hash_values() {
    assert_eq!(0usize.fibonacci_hash(), 0);
    assert_eq!(4usize.fibonacci_hash(), 0x9e3779b97f4a7c15u64 as usize);
    assert_eq!(8usize.fibonacci_hash(), (0x9e3779b97f4a7c15u64 as usize).wrapping_mul(2));
}

#[test]
fn once_slot_sets_only_once() {
    let mut slot: OnceSlot<u32> = OnceSlot::new();
    assert_eq!(slot.get(), None);
    assert_eq!(slot.set(1), Ok(()));
    assert_eq!(slot.set(2), Err(2));
    assert_eq!(slot.get(), Some(&1));
    if let Some(v) = slot.get_mut() {
        *v = 5;
    }
    assert_eq!(slot.get(), Some(&5));
}

#[test]
fn ring_len_counts_pushes_since_emptied() {
    let mut ring: RingArray<u8, 3> = RingArray::new(0);
    for k in 0..5u8 {
        ring.push(k);
        assert_eq!(ring.len(), ((k as usize) + 1).min(3));
        assert_eq!(ring.is_full(), k + 1 >= 3);
    }
    ring.clear();
    ring.push(9);
    ring.push(8);
    assert_eq!(ring.len(), 2);
    let mut dst = [0u8; 1];
    ring.drain(&mut dst);
    assert_eq!(ring.len(), 0);
    ring.push(1);
    assert_eq!(ring.len(), 1);
}
