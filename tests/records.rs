use accounts_application::account::Account;
use accounts_application::decimal::Amount;
use accounts_application::error::AppError;
use accounts_application::posting::{plan_close, plan_debit, plan_open_account};
use accounts_application::product::Product;
use accounts_application::customer::{Customer, CustomerType};
use accounts_application::records::{
    account_from_row, account_to_row, customer_from_row, customer_to_row, product_from_row,
    product_to_row, transaction_from_row, transaction_to_row, user_from_row, user_to_row,
};
use accounts_application::user::{User, UserRole};

fn dec(mantissa: i128, scale: u32) -> Amount {
    Amount::new(mantissa, scale)
}

fn product() -> Product {
    Product::new(
        "Test Savings".to_string(),
        "TST-SAV-001".to_string(),
        Some("d".to_string()),
        "USD".to_string(),
        dec(25, 3),
        dec(10000, 2),
        dec(500, 2),
        dec(100, 2),
        None,
    )
    .unwrap()
}

fn same_account(a: &Account, b: &Account) {
    assert_eq!(a.account_id, b.account_id);
    assert_eq!(a.account_number, b.account_number);
    assert_eq!(a.status, b.status);
    assert_eq!((a.balance.mantissa, a.balance.scale), (b.balance.mantissa, b.balance.scale));
    assert_eq!(a.interest_accrued, b.interest_accrued);
    assert_eq!(a.opening_date, b.opening_date);
    assert_eq!(a.closing_date, b.closing_date);
    assert_eq!(a.created_at, b.created_at);
    assert_eq!(a.updated_at, b.updated_at);
    assert_eq!(a.version, b.version);
}

#[test]
fn account_rows_round_trip() {
    let p = product();
    let (a, _) =
        plan_open_account("202500001".to_string(), "C".to_string(), &p, dec(123456789, 4), None)
            .unwrap();
    let row = account_to_row(&a);
    assert_eq!(row.balance, "12345.6789");
    assert_eq!(row.status, "Active");
    same_account(&a, &account_from_row(row).unwrap());

    let (empty, _) =
        plan_open_account("202500002".to_string(), "C".to_string(), &p, dec(0, 0), None).unwrap();
    let closed = plan_close(empty).unwrap();
    let row = account_to_row(&closed);
    assert!(row.closing_date.is_some());
    same_account(&closed, &account_from_row(row).unwrap());
}

#[test]
fn corrupt_account_rows_are_storage_errors() {
    let p = product();
    let (a, _) =
        plan_open_account("202500001".to_string(), "C".to_string(), &p, dec(1, 0), None).unwrap();
    let mut row = account_to_row(&a);
    row.balance = "-1".to_string();
    assert!(matches!(account_from_row(row), Err(AppError::DatabaseError(_))));
    let mut row = account_to_row(&a);
    row.status = "Closed".to_string();
    assert!(matches!(account_from_row(row), Err(AppError::DatabaseError(_))));
    let mut row = account_to_row(&a);
    row.opening_date = "2025-13-01".to_string();
    assert!(matches!(account_from_row(row), Err(AppError::DatabaseError(_))));
}

#[test]
fn transaction_rows_round_trip() {
    let p = product();
    let (a, _) =
        plan_open_account("202500001".to_string(), "C".to_string(), &p, dec(100000, 2), None)
            .unwrap();
    let (_, ts) = plan_debit(a, &p, dec(30000, 2), "ATM".to_string(), Some("R".to_string())).unwrap();
    for t in &ts {
        let row = transaction_to_row(t);
        let back = transaction_from_row(row).unwrap();
        assert_eq!(back.transaction_id, t.transaction_id);
        assert_eq!(back.category, t.category);
        assert_eq!(back.transaction_type, t.transaction_type);
        assert_eq!(back.amount, t.amount);
        assert_eq!(back.running_balance, t.running_balance);
        assert_eq!(back.value_date, t.value_date);
        assert_eq!(back.created_at, t.created_at);
        assert_eq!(back.reference, t.reference);
        assert_eq!(back.status, "Posted");
    }
}

#[test]
fn product_rows_round_trip() {
    let p = product();
    let row = product_to_row(&p);
    assert_eq!(row.interest_rate, "0.025");
    let back = product_from_row(row).unwrap();
    assert_eq!(back.product_code, "TST-SAV-001");
    assert_eq!(back.transaction_fee, p.transaction_fee);
    assert!(back.is_active());
    let mut row = product_to_row(&p);
    row.interest_rate = "1.5".to_string();
    assert!(matches!(product_from_row(row), Err(AppError::DatabaseError(_))));
}

#[test]
fn customer_and_user_rows_round_trip() {
    let c = Customer::new("Acme".to_string(), CustomerType::Business, None, None, None).unwrap();
    let back = customer_from_row(customer_to_row(&c)).unwrap();
    assert_eq!(back.customer_id, c.customer_id);
    assert_eq!(back.customer_type, CustomerType::Business);
    assert_eq!(back.created_at, c.created_at);
    let mut row = customer_to_row(&c);
    row.created_at = "yesterday".to_string();
    assert!(matches!(customer_from_row(row), Err(AppError::DatabaseError(_))));

    let u = User::new("u".to_string(), "h".to_string(), "U".to_string(), "u@x".to_string(), UserRole::Officer)
        .unwrap();
    let back = user_from_row(user_to_row(&u)).unwrap();
    assert_eq!(back.role, UserRole::Officer);
    assert_eq!(back.updated_at, u.updated_at);
    let mut row = user_to_row(&u);
    row.role = "root".to_string();
    assert!(user_from_row(row).is_err());
}
