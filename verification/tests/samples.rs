use derive_weight::{
    do_something, do_something_else, ok_something, weight_for_do_something_else,
    weighted_do_something, weighted_do_something_else, weighted_ok_something, Weight,
};

#[test]
fn test_expr() {
    assert_eq!(weighted_do_something(2), Weight::zero());
}

#[test]
fn test_fn() {
    assert_eq!(weighted_do_something_else(0, 4), Weight::from_parts(10, 10));
    assert_eq!(weighted_do_something_else(1, 4), Weight::from_parts(20, 20));
}

#[test]
fn test_result() {
    assert_eq!(weighted_ok_something(0), Weight::zero());
    assert_eq!(weighted_ok_something(1), Weight::from_parts(10, 10));
}

#[test]
fn sample_bodies_compute_their_values() {
    assert_eq!(do_something(2), 4);
    assert_eq!(do_something(0), 0);
    assert_eq!(do_something(65535), 4294836225);
    assert_eq!(do_something_else(0, 4), 4);
    assert_eq!(do_something_else(0, 0), 0);
    assert_eq!(do_something_else(9, 4), 2);
    assert_eq!(ok_something(0), Ok(()));
    assert_eq!(ok_something(7), Err(()));
}

#[test]
fn sample_delegate_looks_at_first_argument_only() {
    assert_eq!(weight_for_do_something_else(0, 0), Weight::from_parts(10, 10));
    assert_eq!(weight_for_do_something_else(0, 99), Weight::from_parts(10, 10));
    assert_eq!(weight_for_do_something_else(3, 0), Weight::from_parts(20, 20));
}

#[test]
fn weight_parts_are_kept() {
    let w = Weight::from_parts(3, 5);
    assert_eq!(w.ref_time, 3);
    assert_eq!(w.proof_size, 5);
    assert_eq!(Weight::zero(), Weight::from_parts(0, 0));
    assert_ne!(Weight::from_parts(1, 0), Weight::from_parts(0, 1));
}

#[test]
fn constant_companion_ignores_its_argument() {
    let mut i: u32 = 0;
    while i < 100 {
        assert_eq!(weighted_do_something(i), Weight::zero());
        i += 1;
    }
}
