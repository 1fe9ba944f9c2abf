use cyclic_history::cycle::Cycle;

#[test]
fn cycle_get_does_not_move_the_cursor() {
    let c = Cycle::new(&[1, 2, 3]);
    assert_eq!(c.get(), 1);
    assert_eq!(c.get(), 1);
}

#[test]
fn cycle_next_wraps_after_the_last_item() {
    let mut c = Cycle::new(&[1, 2, 3]);
    assert_eq!(c.next(), 2);
    assert_eq!(c.next(), 3);
    assert_eq!(c.next(), 1);
    assert_eq!(c.next(), 2);
}

#[test]
fn cycle_prev_wraps_before_the_first_item() {
    let mut c = Cycle::new(&[1, 2, 3]);
    assert_eq!(c.prev(), 3);
    assert_eq!(c.prev(), 2);
    assert_eq!(c.prev(), 1);
    assert_eq!(c.prev(), 3);
}

#[test]
fn cycle_single_item_always_yields_it() {
    let mut c = Cycle::new(&[42]);
    assert_eq!(c.get(), 42);
    assert_eq!(c.next(), 42);
    assert_eq!(c.prev(), 42);
}
