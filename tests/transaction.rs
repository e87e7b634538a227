use accounts_application::decimal::Amount;
use accounts_application::transaction::{Transaction, TransactionCategory, TransactionType};

fn dec(mantissa: i128, scale: u32) -> Amount {
    Amount::new(mantissa, scale)
}

#[test]
fn test_create_debit_transaction() {
    let txn = Transaction::new(
        "ACC-001".to_string(),
        TransactionType::Debit,
        TransactionCategory::Withdrawal,
        dec(10000, 2),
        "USD".to_string(),
        dec(90000, 2),
        "ATM Withdrawal".to_string(),
        Some("ATM-REF-123".to_string()),
        "API".to_string(),
        Some("USR-001".to_string()),
    );

    assert!(txn.is_ok());
    let t = txn.unwrap();
    assert!(t.is_debit());
    assert!(!t.is_credit());
    assert_eq!(t.amount, dec(10000, 2));
    assert_eq!(t.running_balance, dec(90000, 2));
}

#[test]
fn test_create_credit_transaction() {
    let txn = Transaction::new(
        "ACC-001".to_string(),
        TransactionType::Credit,
        TransactionCategory::Deposit,
        dec(50000, 2),
        "USD".to_string(),
        dec(150000, 2),
        "Salary Deposit".to_string(),
        Some("PAYROLL-001".to_string()),
        "API".to_string(),
        None,
    );

    assert!(txn.is_ok());
    let t = txn.unwrap();
    assert!(t.is_credit());
    assert!(!t.is_debit());
    assert_eq!(t.amount, dec(50000, 2));
}

#[test]
fn test_invalid_amount() {
    let txn = Transaction::new(
        "ACC-001".to_string(),
        TransactionType::Debit,
        TransactionCategory::Withdrawal,
        dec(0, 2),
        "USD".to_string(),
        dec(90000, 2),
        "Test".to_string(),
        None,
        "API".to_string(),
        None,
    );

    assert!(txn.is_err());
}

#[test]
fn test_fee_transaction() {
    let txn = Transaction::new(
        "ACC-001".to_string(),
        TransactionType::Debit,
        TransactionCategory::Fee,
        dec(200, 2),
        "USD".to_string(),
        dec(89800, 2),
        "Transaction fee".to_string(),
        Some("TXN-REF-123".to_string()),
        "API".to_string(),
        Some("USR-001".to_string()),
    )
    .unwrap();

    assert!(txn.is_fee());
    assert!(txn.is_debit());
}

#[test]
fn test_interest_transaction() {
    let txn = Transaction::new(
        "ACC-001".to_string(),
        TransactionType::Credit,
        TransactionCategory::Interest,
        dec(250, 2),
        "USD".to_string(),
        dec(100250, 2),
        "Interest for September 2025".to_string(),
        None,
        "Batch".to_string(),
        None,
    )
    .unwrap();

    assert!(txn.is_interest());
    assert!(txn.is_credit());
    assert_eq!(txn.status, "Posted");
    assert!(txn.transaction_id.starts_with("TXN-"));
}

#[test]
fn postings_refuse_overdraft_and_blank_text() {
    let make = |running: Amount, description: &str| {
        Transaction::new(
            "ACC-001".to_string(),
            TransactionType::Debit,
            TransactionCategory::Withdrawal,
            dec(1, 0),
            "USD".to_string(),
            running,
            description.to_string(),
            None,
            "API".to_string(),
            None,
        )
    };
    assert!(make(dec(-1, 2), "x").is_err());
    assert!(make(dec(0, 0), " \t").is_err());
    assert!(make(dec(0, 0), "x").is_ok());
}

#[test]
fn transaction_names() {
    assert_eq!(TransactionType::Credit.as_str(), "Credit");
    assert_eq!(TransactionType::from_str("Debit").unwrap(), TransactionType::Debit);
    assert!(TransactionType::from_str("debit").is_err());
    assert_eq!(TransactionCategory::Opening.as_str(), "Opening");
    assert_eq!(TransactionCategory::from_str("Fee").unwrap(), TransactionCategory::Fee);
    assert!(TransactionCategory::from_str("Refund").is_err());
}
