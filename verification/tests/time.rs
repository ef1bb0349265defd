use powerpack::time::{Duration, Timestamp};

#[test]
fn from_secs_and_millis() {
    let d = Duration::from_secs(30);
    assert_eq!((d.as_secs(), d.subsec_nanos()), (30, 0));
    let d = Duration::from_millis(100);
    assert_eq!((d.as_secs(), d.subsec_nanos()), (0, 100_000_000));
    let d = Duration::from_millis(1_500);
    assert_eq!((d.as_secs(), d.subsec_nanos()), (1, 500_000_000));
    let d = Duration::from_millis(u64::MAX);
    assert_eq!((d.as_secs(), d.subsec_nanos()), (18_446_744_073_709_551, 615_000_000));
    let d = Duration::zero();
    assert_eq!((d.as_secs(), d.subsec_nanos()), (0, 0));
}

#[test]
fn new_carries_nanoseconds_into_seconds() {
    let d = Duration::new(1, 2_500_000_000).unwrap();
    assert_eq!((d.as_secs(), d.subsec_nanos()), (3, 500_000_000));
    let d = Duration::new(7, 999_999_999).unwrap();
    assert_eq!((d.as_secs(), d.subsec_nanos()), (7, 999_999_999));
    let d = Duration::new(u64::MAX, 999_999_999).unwrap();
    assert_eq!((d.as_secs(), d.subsec_nanos()), (u64::MAX, 999_999_999));
    assert_eq!(Duration::new(u64::MAX, 1_000_000_000), None);
    assert_eq!(Duration::new(u64::MAX - 3, u32::MAX), None);
    let d = Duration::new(u64::MAX - 4, u32::MAX).unwrap();
    assert_eq!((d.as_secs(), d.subsec_nanos()), (u64::MAX, 294_967_295));
    assert_eq!(Duration::new(0, 1_000_000_000), Some(Duration::from_secs(1)));
}

#[test]
fn spans_compare_by_length() {
    let a = Duration::new(1, 999_999_999).unwrap();
    let b = Duration::new(2, 0).unwrap();
    assert!(a.shorter_than(&b));
    assert!(!b.shorter_than(&a));
    assert!(b.longer_than(&a));
    assert!(!a.longer_than(&b));
    assert!(!a.shorter_than(&a));
    assert!(!a.longer_than(&a));
    let c = Duration::new(1, 5).unwrap();
    let d = Duration::new(1, 6).unwrap();
    assert!(c.shorter_than(&d));
    assert!(d.longer_than(&c));
}

#[test]
fn checked_sub_borrows_a_second() {
    let a = Duration::new(5, 100).unwrap();
    let b = Duration::new(2, 200).unwrap();
    assert_eq!(a.checked_sub(&b), Some(Duration::new(2, 999_999_900).unwrap()));
    assert_eq!(b.checked_sub(&a), None);
    assert_eq!(a.checked_sub(&a), Some(Duration::zero()));
    let c = Duration::new(5, 300).unwrap();
    assert_eq!(c.checked_sub(&b), Some(Duration::new(3, 100).unwrap()));
    let max = Duration::new(u64::MAX, 999_999_999).unwrap();
    assert_eq!(max.checked_sub(&Duration::zero()), Some(max));
    assert_eq!(Duration::zero().checked_sub(&Duration::new(0, 1).unwrap()), None);
}

#[test]
fn duration_since_is_none_for_a_later_point() {
    let t1 = Timestamp::from_epoch(Duration::new(1_700_000_000, 250).unwrap());
    let t2 = Timestamp::from_epoch(Duration::new(1_700_000_031, 0).unwrap());
    assert_eq!(t2.duration_since(&t1), Some(Duration::new(30, 999_999_750).unwrap()));
    assert_eq!(t1.duration_since(&t2), None);
    assert_eq!(t1.duration_since(&t1), Some(Duration::zero()));
    assert_eq!(t1.since_epoch(), Duration::new(1_700_000_000, 250).unwrap());
}
