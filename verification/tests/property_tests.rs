use cj_bitmask_vec::BitmaskItem;
use cj_bitmask_vec::BitmaskVec;
use cj_bitmask_vec::MaskBits;

#[test]
fn push_grows_by_one_and_new_element_is_last() {
    let mut v = BitmaskVec::<u8, i32>::new();
    assert_eq!(v.len(), 0);

    v.push(41);
    assert_eq!(v.len(), 1);
    assert_eq!(*v.index(v.len() - 1), 41);

    v.push_with_mask(0b101, 42);
    assert_eq!(v.len(), 2);
    assert_eq!(*v.index(v.len() - 1), 42);
    assert_eq!(v.as_slice()[1].bitmask, 0b101);

    // the earlier element is unmoved
    assert_eq!(*v.index(0), 41);
    assert_eq!(v.as_slice()[0].bitmask, 0);
}

#[test]
fn matches_mask_is_and_containment() {
    let e = BitmaskItem::new(0b0110_1001u8, ());
    // exactly the bits of the candidate must be present
    assert!(e.matches_mask(&0b0000_1001));
    assert!(e.matches_mask(&0b0110_0000));
    assert!(e.matches_mask(&0b0110_1001));
    assert!(!e.matches_mask(&0b0000_0010));
    assert!(!e.matches_mask(&0b1110_1001));
    // equality is not required, containment is
    assert!(e.matches_mask(&0b0000_0001));
}

#[test]
fn zero_mask_matches_every_element() {
    let masks: [u8; 5] = [0b0, 0b1, 0b1010, 0xFF, 0x80];
    for m in masks {
        let e = BitmaskItem::new(m, 7);
        assert!(e.matches_mask(&0u8));
    }
}

#[test]
fn matching_is_monotone_over_bit_subsets() {
    let e = BitmaskItem::new(0b0111u8, 0);
    let mask2 = 0b0110u8;
    let mask1 = 0b0010u8; // mask1 & mask2 == mask1
    assert_eq!(mask1 & mask2, mask1);
    assert!(e.matches_mask(&mask2));
    assert!(e.matches_mask(&mask1));
}

#[test]
fn push_then_pop_with_mask_round_trips() {
    let mut v = BitmaskVec::<u16, i32>::new();
    v.push_with_mask(0b11, 5);
    v.push_with_mask(0b1000_0000_0000_0001, 777);

    let x = v.pop_with_mask().unwrap();
    assert_eq!(x.bitmask, 0b1000_0000_0000_0001);
    assert_eq!(x.item, 777);

    // the sequence is exactly as before the push
    assert_eq!(v.len(), 1);
    assert_eq!(*v.index(0), 5);
    assert_eq!(v.as_slice()[0].bitmask, 0b11);
}

#[test]
fn exhausted_cursor_stays_exhausted() {
    let mut v = BitmaskVec::<u8, i32>::new();
    v.push_with_mask(0b1, 1);
    v.push_with_mask(0b10, 2);

    let mut it = v.iter();
    assert!(it.next().is_some());
    assert!(it.next().is_some());
    assert!(it.next().is_none());
    assert!(it.next().is_none());
    assert!(it.next().is_none());

    let mut it = v.iter_with_mask();
    assert!(it.filter_mask(&0b10).is_some());
    assert!(it.filter_mask(&0b10).is_none());
    assert!(it.filter_mask(&0b10).is_none());
    assert!(it.next().is_none());
    // a different mask after exhaustion stays absent too
    assert!(it.filter_mask(&0u8).is_none());
}

#[test]
fn append_moves_all_and_preserves_order() {
    let mut a = BitmaskVec::<u8, i32>::new();
    a.push_with_mask(1, 10);
    a.push_with_mask(2, 11);
    let mut b = BitmaskVec::<u8, i32>::new();
    b.push_with_mask(3, 20);
    b.push_with_mask(4, 21);
    b.push_with_mask(5, 22);

    let before_a = a.len();
    let before_b = b.len();
    a.append(&mut b);

    assert_eq!(a.len(), before_a + before_b);
    assert_eq!(b.len(), 0);
    let expected: [(u8, i32); 5] = [(1, 10), (2, 11), (3, 20), (4, 21), (5, 22)];
    for (i, (m, p)) in expected.iter().enumerate() {
        assert_eq!(a.as_slice()[i].bitmask, *m);
        assert_eq!(a.as_slice()[i].item, *p);
    }
}

#[test]
fn filter_mask_yields_exactly_the_matching_payloads_in_order() {
    let mut v = BitmaskVec::<u8, i32>::new();
    v.push_with_mask(0b00000000, 100);
    v.push_with_mask(0b00000010, 101);
    v.push_with_mask(0b00000011, 102);
    v.push_with_mask(0b00000100, 103);

    let mut it = v.iter_with_mask();
    let first = it.filter_mask(&0b00000010).unwrap();
    assert_eq!(first.item, 101);
    let second = it.filter_mask(&0b00000010).unwrap();
    assert_eq!(second.item, 102);
    assert!(it.filter_mask(&0b00000010).is_none());
    assert!(it.filter_mask(&0b00000010).is_none());
}

#[test]
fn with_capacity_is_empty_with_room() {
    let v = BitmaskVec::<u8, i32>::with_capacity(10);
    assert_eq!(v.len(), 0);
    assert!(v.capacity() >= 10);
}

#[test]
fn remove_shifts_the_following_elements_left() {
    let mut v = BitmaskVec::<u8, i32>::new();
    for (m, p) in [(1u8, 50i32), (2, 51), (3, 52), (4, 53), (5, 54)] {
        v.push_with_mask(m, p);
    }

    let removed = v.remove(2);
    assert_eq!(removed, 52);
    assert_eq!(v.len(), 4);
    assert_eq!(*v.index(2), 53);
}

#[test]
fn swap_remove_moves_the_last_element_into_the_gap() {
    let mut v = BitmaskVec::<u8, i32>::new();
    for (m, p) in [(1u8, 50i32), (2, 51), (3, 52), (4, 53), (5, 54)] {
        v.push_with_mask(m, p);
    }

    let removed = v.swap_remove(1);
    assert_eq!(removed, 51);
    assert_eq!(v.len(), 4);
    assert_eq!(*v.index(1), 54);
}

#[test]
fn resize_on_empty_fills_with_zero_mask_copies() {
    let mut v = BitmaskVec::<u8, i32>::new();
    v.resize(3, 799);
    assert_eq!(v.len(), 3);
    for e in v.as_slice() {
        assert_eq!(e.bitmask, 0u8);
        assert_eq!(e.item, 799);
    }
}

#[test]
fn resize_with_mask_fills_with_the_given_mask() {
    let mut v = BitmaskVec::<u8, i32>::new();
    v.push_with_mask(0b1, 1);
    v.resize_with_mask(4, 0b111, 9);
    assert_eq!(v.len(), 4);
    assert_eq!(v.as_slice()[0].bitmask, 0b1);
    assert_eq!(v.as_slice()[0].item, 1);
    for i in 1..4 {
        assert_eq!(v.as_slice()[i].bitmask, 0b111);
        assert_eq!(v.as_slice()[i].item, 9);
    }
    // shrinking truncates
    v.resize(2, 0);
    assert_eq!(v.len(), 2);
    assert_eq!(v.as_slice()[1].item, 9);
}

#[test]
fn resize_with_calls_the_factory_in_slot_order() {
    let mut v = BitmaskVec::<u8, i32>::new();
    let mut i = 0;
    v.resize_with(3, || {
        i += 1;
        BitmaskItem::new(0b1, i * 10)
    });
    assert_eq!(v.len(), 3);
    assert_eq!(*v.index(0), 10);
    assert_eq!(*v.index(1), 20);
    assert_eq!(*v.index(2), 30);
}

#[test]
fn drain_returns_the_range_in_order_and_closes_the_gap() {
    let mut v = BitmaskVec::<u8, i32>::new();
    for (m, p) in [(1u8, 50i32), (2, 51), (3, 52), (4, 53), (5, 54)] {
        v.push_with_mask(m, p);
    }

    let d = v.drain(1, 3);
    assert_eq!(d.len(), 2);
    assert_eq!(d.as_slice()[0].bitmask, 2);
    assert_eq!(d.as_slice()[0].item, 51);
    assert_eq!(d.as_slice()[1].bitmask, 3);
    assert_eq!(d.as_slice()[1].item, 52);

    assert_eq!(v.len(), 3);
    assert_eq!(*v.index(0), 50);
    assert_eq!(*v.index(1), 53);
    assert_eq!(*v.index(2), 54);
}

#[test]
fn insert_shifts_elements_right() {
    let mut v = BitmaskVec::<u8, i32>::new();
    v.push_with_mask(1, 10);
    v.push_with_mask(2, 12);

    v.insert_with_mask(1, 9, 11);
    assert_eq!(v.len(), 3);
    assert_eq!(*v.index(0), 10);
    assert_eq!(*v.index(1), 11);
    assert_eq!(v.as_slice()[1].bitmask, 9);
    assert_eq!(*v.index(2), 12);

    v.insert(0, 5);
    assert_eq!(*v.index(0), 5);
    assert_eq!(v.as_slice()[0].bitmask, 0);
    assert_eq!(*v.index(1), 10);
}

#[test]
fn extend_from_slice_copies_masks_and_payloads() {
    let mut v = BitmaskVec::<u8, i32>::new();
    v.push_with_mask(0b01, 1);
    v.push_with_mask(0b10, 2);

    let mut w = BitmaskVec::<u8, i32>::new();
    w.push_with_mask(0b11, 0);
    w.extend_from_slice(v.as_slice());

    assert_eq!(w.len(), 3);
    assert_eq!(w.as_slice()[1].bitmask, 0b01);
    assert_eq!(w.as_slice()[1].item, 1);
    assert_eq!(w.as_slice()[2].bitmask, 0b10);
    assert_eq!(w.as_slice()[2].item, 2);
    // the source is untouched
    assert_eq!(v.len(), 2);
}

#[test]
fn into_boxed_slice_keeps_the_elements() {
    let mut v = BitmaskVec::<u8, i32>::new();
    v.push_with_mask(0b01, 1);
    v.push_with_mask(0b10, 2);

    let b = v.into_boxed_slice();
    assert_eq!(b.len(), 2);
    assert_eq!(b[0].bitmask, 0b01);
    assert_eq!(b[0].item, 1);
    assert_eq!(b[1].bitmask, 0b10);
    assert_eq!(b[1].item, 2);
}

#[test]
fn reserve_exact_keeps_the_contents() {
    let mut v = BitmaskVec::<u8, i32>::new();
    v.push_with_mask(0b01, 1);
    v.push_with_mask(0b10, 2);
    v.reserve_exact(100);
    assert!(v.capacity() >= 102);
    assert_eq!(v.len(), 2);
    assert_eq!(*v.index(0), 1);
    assert_eq!(*v.index(1), 2);
}

#[test]
fn set_mask_replaces_wholesale() {
    let mut e = BitmaskItem::new(0b0001u8, 33);
    e.set_mask(0b1000);
    // a replacement, not a bitwise-OR merge
    assert_eq!(e.bitmask, 0b1000);
    assert_eq!(e.item, 33);
    assert!(!e.matches_mask(&0b0001));
    assert!(e.matches_mask(&0b1000));
}

#[test]
fn index_mut_leaves_the_mask_alone() {
    let mut v = BitmaskVec::<u8, i32>::new();
    v.push_with_mask(0b101, 7);
    *v.index_mut(0) = 9;
    assert_eq!(*v.index(0), 9);
    assert_eq!(v.as_slice()[0].bitmask, 0b101);
}

#[test]
fn matches_mask_on_every_mask_width() {
    assert!(0b0110u8.matches_mask(&0b0010u8));
    assert!(!0b0110u8.matches_mask(&0b1000u8));
    assert!(0xFF00u16.matches_mask(&0x0100u16));
    assert!(!0xFF00u16.matches_mask(&0x00FFu16));
    assert!(0xDEAD_0000u32.matches_mask(&0xDEAD_0000u32));
    assert!(!0xDEAD_0000u32.matches_mask(&0x0000_0001u32));
    assert!(0x8000_0000_0000_0001u64.matches_mask(&0x8000_0000_0000_0000u64));
    assert!(!0x8000_0000_0000_0001u64.matches_mask(&0x4000_0000_0000_0000u64));
    let wide: u128 = 1u128 << 127 | 1u128;
    assert!(wide.matches_mask(&(1u128 << 127)));
    assert!(!wide.matches_mask(&(1u128 << 126)));
}

#[test]
fn mutable_filter_mask_finds_and_edits_matches() {
    let mut v = BitmaskVec::<u8, i32>::new();
    v.push_with_mask(0b001, 100);
    v.push_with_mask(0b010, 200);
    v.push_with_mask(0b011, 300);

    let mut it = v.iter_with_mask_mut();
    let item = it.filter_mask(&mut v, &0b010).unwrap();
    assert_eq!(item.item, 200);
    item.item = 999;
    let item = it.filter_mask(&mut v, &0b010).unwrap();
    assert_eq!(item.item, 300);
    assert!(it.filter_mask(&mut v, &0b010).is_none());

    assert_eq!(*v.index(1), 999);
}

#[test]
fn capacity_bounds_survive_shrinking_operations() {
    let mut v = BitmaskVec::<u8, i32>::with_capacity(16);
    assert!(v.capacity() >= 16);

    v.push_with_mask(1, 10);
    v.push_with_mask(2, 20);
    v.push_with_mask(3, 30);
    v.reserve(40);
    assert!(v.capacity() >= 43);

    v.truncate(1);
    assert!(v.capacity() >= 43);
    v.pop();
    assert!(v.capacity() >= 43);
    v.clear();
    assert!(v.capacity() >= 43);

    v.reserve_exact(50);
    assert!(v.capacity() >= 50);
}

#[test]
fn mutable_cursor_exhaustion_stays_exhausted() {
    let mut v = BitmaskVec::<u8, i32>::new();
    v.push_with_mask(0b1, 1);

    let mut it = v.iter_mut();
    assert!(it.next(&mut v).is_some());
    assert!(it.next(&mut v).is_none());
    assert!(it.next(&mut v).is_none());

    let mut it = v.iter_with_mask_mut();
    assert!(it.next(&mut v).is_some());
    assert!(it.next(&mut v).is_none());
    assert!(it.next(&mut v).is_none());
}
