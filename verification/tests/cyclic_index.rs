use cyclic_history::cyclic_index::{CycleError, Cyclic, CyclicIndex};

#[test]
fn cyclic_index_increment_test() {
    let mut a = CyclicIndex::new(0, 8).unwrap();
    a.increment();
    assert_eq!(a.value(), 1);
    let mut b = CyclicIndex::new(7, 8).unwrap();
    b.increment();
    assert_eq!(b.value(), 0);
}

#[test]
fn cyclic_index_decrement_test() {
    let mut a = CyclicIndex::new(0, 8).unwrap();
    a.decrement();
    assert_eq!(a.value(), 7);
    let mut b = CyclicIndex::new(7, 8).unwrap();
    b.decrement();
    assert_eq!(b.value(), 6);
}

#[test]
fn cyclic_index_increment_by_test() {
    let mut a = CyclicIndex::new(0, 8).unwrap();
    a.increment_by(7);
    assert_eq!(a.value(), 7);
    let mut b = CyclicIndex::new(0, 8).unwrap();
    b.increment_by(8);
    assert_eq!(b.value(), 0);
    let mut c = CyclicIndex::new(0, 8).unwrap();
    c.increment_by(16);
    assert_eq!(c.value(), 0);
}

#[test]
fn cyclic_index_decrement_by_test() {
    let mut a = CyclicIndex::new(7, 8).unwrap();
    a.decrement_by(7);
    assert_eq!(a.value(), 0);
    let mut b = CyclicIndex::new(7, 8).unwrap();
    b.decrement_by(8);
    assert_eq!(b.value(), 7);
    let mut c = CyclicIndex::new(7, 8).unwrap();
    c.increment_by(16);
    assert_eq!(c.value(), 7);
}

#[test]
fn cyclic_index_test_partial_eq_test() {
    let a = CyclicIndex::new(0, 8).unwrap();
    let b = CyclicIndex::new(0, 8).unwrap();
    assert_eq!(a, b);
    assert_eq!(a, a.clone());
}

#[test]
fn cyclic_index_test_operator_overloading_test() {
    let a = CyclicIndex::new(0, 8).unwrap();
    {
        let b = a.plus(1);
        assert_eq!(a, CyclicIndex::new(0, 8).unwrap());
        assert_eq!(b, CyclicIndex::new(1, 8).unwrap());
    }
    {
        let b = a.minus(1);
        assert_eq!(a, CyclicIndex::new(0, 8).unwrap());
        assert_eq!(b, CyclicIndex::new(7, 8).unwrap());
    }
    {
        let mut b = a;
        b.increment_by(1);
        assert_eq!(a, CyclicIndex::new(0, 8).unwrap());
        assert_eq!(b, CyclicIndex::new(1, 8).unwrap());
    }
    {
        let mut b = a;
        b.decrement_by(1);
        assert_eq!(a, CyclicIndex::new(0, 8).unwrap());
        assert_eq!(b, CyclicIndex::new(7, 8).unwrap());
    }
}

#[test]
fn cyclic_index_zero_modulus_is_rejected() {
    assert_eq!(CyclicIndex::new(1, 0), Err(CycleError::InvalidModulus));
}

#[test]
fn cyclic_index_out_of_range_position_is_reduced() {
    let a = CyclicIndex::new(10, 8).unwrap();
    assert_eq!(a.value(), 2);
}

#[test]
fn cyclic_index_modulus_one_stays_at_zero() {
    let mut a = CyclicIndex::new(0, 1).unwrap();
    assert_eq!(a.increment(), 0);
    assert_eq!(a.decrement(), 0);
    assert_eq!(a.increment_by(123), 0);
    assert_eq!(a.value(), 0);
}

#[test]
fn cyclic_index_wrap_scenario() {
    let mut a = CyclicIndex::new(7, 8).unwrap();
    assert_eq!(a.increment(), 0);
    assert_eq!(a.increment_by(16), 0);
    assert_eq!(a.decrement_by(1), 7);
}

#[test]
fn cyclic_index_increment_decrement_roundtrip() {
    let deltas: [usize; 5] = [0, 1, 7, 8, 1_000_003];
    for &d in deltas.iter() {
        let mut a = CyclicIndex::new(5, 8).unwrap();
        a.increment_by(d);
        a.decrement_by(d);
        assert_eq!(a.value(), 5);
    }
}

#[test]
fn cyclic_index_value_stays_in_range() {
    let mut a = CyclicIndex::new(0, 8).unwrap();
    assert_eq!(a.decrement(), 7);
    assert!(a.value() < 8);
    let mut b = CyclicIndex::new(7, 8).unwrap();
    assert_eq!(b.increment(), 0);
    assert!(b.value() < 8);
    let mut c = CyclicIndex::new(3, 8).unwrap();
    c.increment_by(usize::MAX);
    assert!(c.value() < 8);
    c.decrement_by(usize::MAX);
    assert!(c.value() < 8);
}
