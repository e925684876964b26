use vector::RawVec;

const UMAX: usize = usize::MAX;

#[test]
fn raw_new_has_no_capacity() {
    assert_eq!(RawVec::<u64>::new().capacity(), 0);
    assert_eq!(RawVec::<String>::new().capacity(), 0);
}

#[test]
fn raw_new_of_zero_sized_elements_is_unbounded() {
    assert_eq!(RawVec::<()>::new().capacity(), UMAX);
    assert_eq!(RawVec::<[u64; 0]>::new().capacity(), UMAX);
}

#[test]
fn raw_with_capacity_is_exact() {
    assert_eq!(RawVec::<u64>::with_capacity(0).capacity(), 0);
    assert_eq!(RawVec::<u64>::with_capacity(1).capacity(), 1);
    assert_eq!(RawVec::<u64>::with_capacity(37).capacity(), 37);
    assert_eq!(RawVec::<u64>::with_capacity_zeroed(37).capacity(), 37);
    assert_eq!(RawVec::<()>::with_capacity(37).capacity(), UMAX);
    assert_eq!(RawVec::<()>::with_capacity_zeroed(0).capacity(), UMAX);
}

#[test]
fn raw_new_slots_hold_nothing() {
    let buf = RawVec::<u64>::with_capacity(3);
    assert!(buf.slot(0).is_none());
    assert!(buf.slot(1).is_none());
    assert!(buf.slot(2).is_none());
    let zeroed = RawVec::<u64>::with_capacity_zeroed(2);
    assert!(zeroed.slot(0).is_none());
    assert!(zeroed.slot(1).is_none());
}

#[test]
fn raw_reserve_does_nothing_when_there_is_room() {
    let mut buf = RawVec::<u64>::with_capacity(10);
    buf.reserve(0, 10);
    assert_eq!(buf.capacity(), 10);
    buf.reserve(4, 6);
    assert_eq!(buf.capacity(), 10);
    buf.reserve(10, 0);
    assert_eq!(buf.capacity(), 10);
}

#[test]
fn raw_reserve_from_empty_gives_at_least_four() {
    for additional in 1..=4usize {
        let mut buf = RawVec::<u64>::new();
        buf.reserve(0, additional);
        assert_eq!(buf.capacity(), 4);
    }
    let mut buf = RawVec::<u64>::new();
    buf.reserve(0, 5);
    assert_eq!(buf.capacity(), 5);
    let mut idle = RawVec::<u64>::new();
    idle.reserve(0, 0);
    assert_eq!(idle.capacity(), 0);
}

#[test]
fn raw_reserve_takes_the_larger_of_double_and_request() {
    let mut buf = RawVec::<u64>::with_capacity(8);
    buf.reserve(8, 1);
    assert_eq!(buf.capacity(), 16);
    buf.reserve(16, 20);
    assert_eq!(buf.capacity(), 36);
    buf.reserve(30, 7);
    assert_eq!(buf.capacity(), 72);

    let mut small = RawVec::<u64>::with_capacity(1);
    small.reserve(1, 1);
    assert_eq!(small.capacity(), 2);
}

#[test]
fn raw_reserve_for_push_makes_room_for_one() {
    let mut buf = RawVec::<u64>::new();
    buf.reserve_for_push(0);
    assert_eq!(buf.capacity(), 4);
    buf.reserve_for_push(3);
    assert_eq!(buf.capacity(), 4);
    buf.reserve_for_push(4);
    assert_eq!(buf.capacity(), 8);
}

#[test]
fn raw_reserve_of_zero_sized_elements_changes_nothing() {
    let mut buf = RawVec::<()>::new();
    buf.reserve(10, 5);
    assert_eq!(buf.capacity(), UMAX);
    buf.reserve(UMAX - 1, 1);
    assert_eq!(buf.capacity(), UMAX);
    buf.reserve_for_push(0);
    assert_eq!(buf.capacity(), UMAX);
}

#[test]
fn raw_write_fills_one_slot() {
    let mut buf = RawVec::<u64>::with_capacity(4);
    buf.write(2, 22);
    assert!(buf.slot(0).is_none());
    assert!(buf.slot(1).is_none());
    assert_eq!(buf.slot(2), Some(&22));
    assert!(buf.slot(3).is_none());
    buf.write(0, 10);
    buf.write(2, 23);
    assert_eq!(buf.slot(0), Some(&10));
    assert_eq!(buf.slot(2), Some(&23));
    assert_eq!(buf.capacity(), 4);
}

#[test]
fn raw_take_empties_the_slot() {
    let mut buf = RawVec::<String>::with_capacity(2);
    buf.write(1, "one".to_string());
    assert_eq!(buf.take(0), None);
    assert_eq!(buf.take(1), Some("one".to_string()));
    assert_eq!(buf.take(1), None);
    assert!(buf.slot(1).is_none());
    assert_eq!(buf.capacity(), 2);
}

#[test]
fn raw_slot_mut_reaches_the_value() {
    let mut buf = RawVec::<u64>::with_capacity(3);
    assert!(buf.slot_mut(1).is_none());
    buf.write(1, 5);
    *buf.slot_mut(1).unwrap() += 1;
    assert_eq!(buf.slot(1), Some(&6));
    assert!(buf.slot_mut(0).is_none());
    assert!(buf.slot_mut(2).is_none());
}

#[test]
fn raw_growth_keeps_what_the_slots_hold() {
    let mut buf = RawVec::<u64>::with_capacity(2);
    buf.write(0, 1);
    buf.write(1, 2);
    buf.reserve(2, 1);
    assert_eq!(buf.capacity(), 4);
    assert_eq!(buf.slot(0), Some(&1));
    assert_eq!(buf.slot(1), Some(&2));
    assert!(buf.slot(2).is_none());
    assert!(buf.slot(3).is_none());
}

#[test]
fn raw_zero_sized_slots_far_apart() {
    let mut buf = RawVec::<()>::new();
    buf.write(5, ());
    assert!(buf.slot(4).is_none());
    assert_eq!(buf.slot(5), Some(&()));
    assert!(buf.slot(UMAX - 1).is_none());
    assert_eq!(buf.take(5), Some(()));
    assert_eq!(buf.take(UMAX - 1), None);
}
