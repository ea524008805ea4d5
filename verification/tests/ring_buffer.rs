use co2nsole::MaxSizedVector;

#[test]
fn ring_keeps_insertion_order_below_capacity() {
    let mut v: MaxSizedVector<i32, 5> = MaxSizedVector::new();
    assert_eq!(v.len(), 0);
    for x in [10, 20, 30] {
        v.push(x);
    }
    assert_eq!(v.len(), 3);
    assert!(!v.is_full());
    assert_eq!(v.as_slice(), &[10, 20, 30]);
}

#[test]
fn ring_evicts_oldest_first_at_capacity() {
    let mut v: MaxSizedVector<i32, 3> = MaxSizedVector::new();
    for x in [1, 2, 3, 4, 5, 6, 7] {
        v.push(x);
    }
    assert_eq!(v.len(), 3);
    assert!(v.is_full());
    assert_eq!(v.as_slice(), &[5, 6, 7]);
}

#[test]
fn ring_exactly_at_capacity_holds_everything() {
    let mut v: MaxSizedVector<u8, 4> = MaxSizedVector::new();
    for x in [9, 8, 7, 6] {
        v.push(x);
    }
    assert!(v.is_full());
    assert_eq!(v.as_slice(), &[9, 8, 7, 6]);
}

#[test]
fn ring_get_in_and_out_of_bounds() {
    let mut v: MaxSizedVector<i32, 3> = MaxSizedVector::new();
    v.push(11);
    v.push(22);
    assert_eq!(v.get(0), Some(&11));
    assert_eq!(v.get(1), Some(&22));
    assert_eq!(v.get(2), None);
}

#[test]
fn ring_clear_empties() {
    let mut v: MaxSizedVector<i32, 2> = MaxSizedVector::new();
    v.push(1);
    v.push(2);
    v.clear();
    assert_eq!(v.len(), 0);
    assert_eq!(v.as_slice(), &[] as &[i32]);
    v.push(3);
    assert_eq!(v.iter(), &[3]);
}
