use paddle_inference::common::{from_pd_bool, to_pd_bool, FALSE, TRUE};

#[test]
fn flags_are_one_and_zero() {
    assert_eq!(TRUE, 1);
    assert_eq!(FALSE, 0);
}

#[test]
fn to_pd_bool_does_not_invert() {
    assert_eq!(to_pd_bool(true), 1);
    assert_eq!(to_pd_bool(false), 0);
}

#[test]
fn from_pd_bool_reads_any_nonzero_as_true() {
    assert!(from_pd_bool(1));
    assert!(from_pd_bool(2));
    assert!(from_pd_bool(-1));
    assert!(!from_pd_bool(0));
}

#[test]
fn flags_round_trip() {
    assert!(from_pd_bool(to_pd_bool(true)));
    assert!(!from_pd_bool(to_pd_bool(false)));
}
