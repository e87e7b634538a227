use accounts_application::date::Date;
use accounts_application::decimal::{round_to, Amount};
use accounts_application::error::AppError;
use accounts_application::interest::InterestAccrual;

fn dec(mantissa: i128, scale: u32) -> Amount {
    Amount::new(mantissa, scale)
}

fn day() -> Date {
    Date::from_ymd(2025, 10, 4).unwrap()
}

#[test]
fn test_create_interest_accrual() {
    let accrual = InterestAccrual::new(
        "ACC-001".to_string(),
        day(),
        dec(100000, 2),
        dec(25, 3),
        dec(68, 3),
        dec(204, 2),
    );

    assert!(accrual.is_ok());
    let a = accrual.unwrap();
    assert_eq!(a.balance, dec(100000, 2));
    assert_eq!(a.annual_rate, dec(25, 3));
}

#[test]
fn test_calculate_daily_interest() {
    let daily_interest =
        InterestAccrual::calculate_daily_interest(dec(100000, 2), dec(25, 3)).unwrap();
    let rounded = round_to(daily_interest, 2);
    assert_eq!(rounded, dec(7, 2));
}

#[test]
fn test_calculate_daily_interest_high_balance() {
    let daily_interest =
        InterestAccrual::calculate_daily_interest(dec(1000000, 2), dec(4, 2)).unwrap();
    let rounded = round_to(daily_interest, 2);
    assert_eq!(rounded, dec(110, 2));
}

#[test]
fn test_calculate_daily_interest_zero_balance() {
    let daily_interest = InterestAccrual::calculate_daily_interest(dec(0, 2), dec(25, 3)).unwrap();
    assert_eq!(daily_interest, dec(0, 2));
    assert_eq!((daily_interest.mantissa, daily_interest.scale), (0, 0));
}

#[test]
fn test_invalid_annual_rate() {
    let accrual = InterestAccrual::new(
        "ACC-001".to_string(),
        day(),
        dec(100000, 2),
        dec(15, 1),
        dec(68, 3),
        dec(204, 2),
    );

    assert!(accrual.is_err());
}

#[test]
fn daily_interest_is_the_full_quotient() {
    // 1000.00 x 0.025 / 365 = 0.068493150684931506849315068493 to 28 places
    let d = InterestAccrual::calculate_daily_interest(dec(100000, 2), dec(25, 3)).unwrap();
    assert_eq!(d.scale, 28);
    assert_eq!(d.mantissa, 684931506849315068493150685);
}

#[test]
fn daily_interest_refuses_rates_outside_unit_interval() {
    let high = InterestAccrual::calculate_daily_interest(dec(100000, 2), dec(101, 2));
    assert!(matches!(high, Err(AppError::ValidationError(_))));
    let negative = InterestAccrual::calculate_daily_interest(dec(100000, 2), dec(-1, 3));
    assert!(matches!(negative, Err(AppError::ValidationError(_))));
    let negative_balance = InterestAccrual::calculate_daily_interest(dec(-1, 0), dec(1, 2));
    assert!(matches!(negative_balance, Err(AppError::ValidationError(_))));
    assert!(InterestAccrual::calculate_daily_interest(dec(100, 0), dec(1, 0)).is_ok());
    assert!(InterestAccrual::calculate_daily_interest(dec(100, 0), dec(0, 0)).is_ok());
}

#[test]
fn accrual_ids_are_prefixed() {
    let a = InterestAccrual::new(
        "ACC-1".to_string(),
        day(),
        dec(1, 0),
        dec(0, 0),
        dec(0, 0),
        dec(0, 0),
    )
    .unwrap();
    assert!(a.accrual_id.starts_with("ACCRUAL-"));
    assert!(InterestAccrual::new(" ".to_string(), day(), dec(1, 0), dec(0, 0), dec(0, 0), dec(0, 0))
        .is_err());
}
