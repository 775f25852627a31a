use mma::decimal::Decimal;

#[test]
fn parse_gives_mantissa_and_scale() {
    let d = Decimal::from_str("-12.345").unwrap();
    assert_eq!(d.mantissa(), -12345);
    assert_eq!(d.scale(), 3);
    assert!(Decimal::from_str("abc").is_none());
}

#[test]
fn equality_and_order_are_numeric() {
    assert_eq!(Decimal::new(10, 1), Decimal::new(1, 0));
    assert!(Decimal::new(99, 2) < Decimal::new(1, 0));
    assert!(Decimal::new(-1, 0) < Decimal::zero());
    assert!(Decimal::new(101, 0) > Decimal::new(1000, 1));
}

#[test]
fn arithmetic() {
    let a = Decimal::new(15, 1);
    let b = Decimal::new(25, 1);
    assert_eq!(a.checked_add(b), Some(Decimal::new(4, 0)));
    assert_eq!(b.checked_sub(a), Some(Decimal::new(1, 0)));
    assert_eq!(a.checked_mul(b), Some(Decimal::new(375, 2)));
    assert_eq!(Decimal::new(1, 0).checked_div(Decimal::new(4, 0)), Some(Decimal::new(25, 2)));
    assert_eq!(a.checked_div(Decimal::zero()), None);
    assert_eq!(Decimal::new(3, 0).checked_powi(2), Some(Decimal::new(9, 0)));
    assert_eq!(Decimal::one().checked_ln(), Some(Decimal::zero()));
    assert_eq!(Decimal::zero().checked_ln(), None);
    assert_eq!(Decimal::new(-1, 0).checked_ln(), None);
    assert!(Decimal::zero().is_zero());
    assert!(!Decimal::new(1, 28).is_zero());
}
