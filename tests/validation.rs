use accounts_application::decimal::Amount;
use accounts_application::validation::{
    validate_account_number, validate_currency_code, validate_email, validate_non_negative_amount,
    validate_percentage, validate_positive_amount,
};

fn dec(mantissa: i128, scale: u32) -> Amount {
    Amount::new(mantissa, scale)
}

#[test]
fn test_validate_currency_code() {
    assert!(validate_currency_code("USD").is_ok());
    assert!(validate_currency_code("EUR").is_ok());
    assert!(validate_currency_code("GBP").is_ok());

    assert!(validate_currency_code("US").is_err());
    assert!(validate_currency_code("USDD").is_err());
    assert!(validate_currency_code("usd").is_err());
}

#[test]
fn test_validate_email() {
    assert!(validate_email("test@example.com").is_ok());
    assert!(validate_email("user.name@domain.co.uk").is_ok());

    assert!(validate_email("invalid").is_err());
    assert!(validate_email("test@").is_err());
    assert!(validate_email("").is_err());
}

#[test]
fn test_validate_account_number() {
    assert!(validate_account_number("1234567890").is_ok());

    assert!(validate_account_number("123456789").is_err());
    assert!(validate_account_number("12345678901").is_err());
    assert!(validate_account_number("123456789A").is_err());
    assert!(validate_account_number("").is_err());
}

#[test]
fn test_validate_positive_amount() {
    assert!(validate_positive_amount(dec(10000, 2)).is_ok());
    assert!(validate_positive_amount(dec(1, 2)).is_ok());

    assert!(validate_positive_amount(dec(0, 2)).is_err());
    assert!(validate_positive_amount(dec(-1000, 2)).is_err());
}

#[test]
fn test_validate_percentage() {
    assert!(validate_percentage(dec(25, 3)).is_ok());
    assert!(validate_percentage(dec(0, 1)).is_ok());
    assert!(validate_percentage(dec(10, 1)).is_ok());

    assert!(validate_percentage(dec(15, 1)).is_err());
    assert!(validate_percentage(dec(-1, 1)).is_err());
}

#[test]
fn non_negative_amounts() {
    assert!(validate_non_negative_amount(dec(0, 0)).is_ok());
    assert!(validate_non_negative_amount(dec(-1, 9)).is_err());
    assert!(validate_email(" \u{a0} ").is_err());
}
