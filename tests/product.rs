use accounts_application::decimal::Amount;
use accounts_application::error::AppError;
use accounts_application::product::{Product, ProductStatus};

fn dec(mantissa: i128, scale: u32) -> Amount {
    Amount::new(mantissa, scale)
}

fn basic(currency: &str, rate: Amount) -> Result<Product, AppError> {
    Product::new(
        "Basic Checking".to_string(),
        "CHK-BASIC-001".to_string(),
        None,
        currency.to_string(),
        rate,
        dec(10000, 2),
        dec(500, 2),
        dec(100, 2),
        None,
    )
}

#[test]
fn test_create_valid_product() {
    let product = Product::new(
        "Basic Checking".to_string(),
        "CHK-BASIC-001".to_string(),
        Some("A basic checking account".to_string()),
        "USD".to_string(),
        dec(25, 3),
        dec(10000, 2),
        dec(500, 2),
        dec(100, 2),
        Some("USR-001".to_string()),
    );

    assert!(product.is_ok());
    let p = product.unwrap();
    assert_eq!(p.product_name, "Basic Checking");
    assert_eq!(p.interest_rate, dec(25, 3));
    assert!(p.is_active());
}

#[test]
fn test_invalid_currency_code() {
    let product = basic("US", dec(25, 3));
    assert!(product.is_err());
}

#[test]
fn test_invalid_interest_rate() {
    let product = basic("USD", dec(15, 1));
    assert!(product.is_err());
}

#[test]
fn test_product_status_change() {
    let mut product = basic("USD", dec(25, 3)).unwrap();

    assert!(product.is_active());

    product.deactivate();
    assert!(!product.is_active());

    product.activate();
    assert!(product.is_active());
}

#[test]
fn product_update_is_all_or_nothing() {
    let mut product = basic("USD", dec(25, 3)).unwrap();
    let r = product.update(Some("Renamed".to_string()), None, Some(dec(2, 0)), None, None, None);
    assert!(matches!(r, Err(AppError::ValidationError(_))));
    assert_eq!(product.product_name, "Basic Checking");
    let r = product.update(
        Some("Renamed".to_string()),
        Some("d".to_string()),
        Some(dec(3, 2)),
        None,
        None,
        Some(dec(0, 0)),
    );
    assert!(r.is_ok());
    assert_eq!(product.product_name, "Renamed");
    assert_eq!(product.interest_rate, dec(3, 2));
    assert_eq!(product.transaction_fee, dec(0, 0));
    assert_eq!(product.description, Some("d".to_string()));
}

#[test]
fn product_status_names() {
    assert_eq!(ProductStatus::Inactive.as_str(), "Inactive");
    assert_eq!(ProductStatus::from_str("Active").unwrap(), ProductStatus::Active);
    assert!(ProductStatus::from_str("Gone").is_err());
    assert!(basic("USD", dec(25, 3)).unwrap().product_id.starts_with("PROD-"));
}
