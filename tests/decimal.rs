use accounts_application::decimal::{are_equal, format_currency, round_currency, Amount};

fn dec(mantissa: i128, scale: u32) -> Amount {
    Amount::new(mantissa, scale)
}

#[test]
fn test_round_currency() {
    assert_eq!(round_currency(dec(10456, 3)), dec(1046, 2));
    assert_eq!(round_currency(dec(10454, 3)), dec(1045, 2));
}

#[test]
fn test_format_currency() {
    assert_eq!(format_currency(dec(100050, 2), "USD"), "USD 1000.50");
    assert_eq!(format_currency(dec(9999, 2), "EUR"), "EUR 99.99");
}

#[test]
fn rounding_ties_go_to_even() {
    let r = round_currency(dec(10125, 3));
    assert_eq!((r.mantissa, r.scale), (1012, 2));
    let r = round_currency(dec(10135, 3));
    assert_eq!((r.mantissa, r.scale), (1014, 2));
    let r = round_currency(dec(-10135, 3));
    assert_eq!((r.mantissa, r.scale), (-1014, 2));
    let r = round_currency(dec(15, 1));
    assert_eq!((r.mantissa, r.scale), (15, 1));
}

#[test]
fn exact_arithmetic() {
    let a = dec(68, 2);
    let sum = a.checked_add(&a).unwrap().checked_add(&a).unwrap();
    assert_eq!((sum.mantissa, sum.scale), (204, 2));
    let d = dec(100000, 2).checked_sub(&dec(1, 3)).unwrap();
    assert_eq!((d.mantissa, d.scale), (999999, 3));
    let p = dec(100000, 2).checked_mul(&dec(25, 3)).unwrap();
    assert_eq!((p.mantissa, p.scale), (2500000, 5));
    assert!(dec(1, 28).checked_mul(&dec(1, 1)).is_none());
    let big = dec(79228162514264337593543950335, 0);
    assert!(big.checked_add(&dec(1, 0)).is_none());
    assert!(big.checked_add(&dec(1, 1)).is_none());
    assert_eq!(big.compare(&dec(1, 28)), 1);
    assert_eq!(dec(-5, 0).compare(&dec(1, 28)), -1);
}

#[test]
fn equality_is_by_value() {
    assert_eq!(dec(10, 1), dec(100, 2));
    assert_ne!(dec(10, 1), dec(101, 2));
    assert!(are_equal(dec(0, 0), dec(0, 5)));
    assert!(dec(1, 2).less_than(&dec(2, 2)));
    assert!(dec(2, 2).at_most(&dec(2, 2)));
    assert!(Amount::from_parts(1, 29).is_none());
    assert_eq!(Amount::from_int(7), dec(700, 2));
}

#[test]
fn decimal_text_round_trip() {
    let a = Amount::parse("1000.50").unwrap();
    assert_eq!((a.mantissa, a.scale), (100050, 2));
    assert_eq!(a.to_text(), "1000.50");
    assert_eq!(dec(-123, 1).to_text(), "-12.3");
    assert!(Amount::parse("ten").is_none());
}
