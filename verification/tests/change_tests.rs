use close_to_light::change::Change;

#[test]
fn change_add_applies_delta() {
    let mut v: i64 = 10;
    Change::Add(5).apply(&mut v);
    assert_eq!(v, 15);
}

#[test]
fn change_set_applies_target() {
    let mut v: i64 = 10;
    Change::SetTo(-3).apply(&mut v);
    assert_eq!(v, -3);
}

#[test]
fn change_into_delta() {
    assert_eq!(Change::Add(7).into_delta(100), 7);
    assert_eq!(Change::SetTo(40).into_delta(100), -60);
}

#[test]
fn change_apply_equals_reference_plus_delta() {
    for change in [Change::Add(12i64), Change::SetTo(-8), Change::Add(0)] {
        let reference = 25i64;
        let mut applied = reference;
        change.apply(&mut applied);
        assert_eq!(applied, reference + change.into_delta(reference));
    }
}

#[test]
fn change_is_noop() {
    assert!(Change::Add(0i64).is_noop(&0));
    assert!(!Change::Add(1i64).is_noop(&0));
    assert!(!Change::SetTo(0i64).is_noop(&0));
    assert!(Change::Add((0i64, 0i64)).is_noop(&(0, 0)));
}

#[test]
fn change_set_twice_keeps_second() {
    let mut a: i64 = 5;
    Change::SetTo(9).apply(&mut a);
    Change::SetTo(2).apply(&mut a);
    let mut b: i64 = 5;
    Change::SetTo(2).apply(&mut b);
    assert_eq!(a, b);
}
