use accounts_application::account::{Account, AccountStatus};
use accounts_application::date::Date;
use accounts_application::decimal::Amount;
use accounts_application::error::AppError;
use accounts_application::numbering::account_number_for;
use accounts_application::posting::{
    apply_daily_interest, check_commit, plan_close, plan_credit, plan_debit,
    plan_interest_accrual, plan_interest_posting, plan_open_account,
};
use accounts_application::product::Product;
use accounts_application::transaction::{TransactionCategory, TransactionType};

fn dec(mantissa: i128, scale: u32) -> Amount {
    Amount::new(mantissa, scale)
}

fn product(fee: Amount) -> Product {
    Product::new(
        "Savings".to_string(),
        "SAV-001".to_string(),
        None,
        "USD".to_string(),
        dec(25, 3),
        dec(10000, 2),
        dec(0, 0),
        fee,
        None,
    )
    .unwrap()
}

fn opened(balance: Amount, p: &Product) -> Account {
    plan_open_account("202500001".to_string(), "CUST-1".to_string(), p, balance, None)
        .unwrap()
        .0
}

#[test]
fn open_debit_with_fee_scenario() {
    let p = product(dec(100, 2));
    let (account, opening) =
        plan_open_account("202500001".to_string(), "CUST-1".to_string(), &p, dec(100000, 2), None)
            .unwrap();
    let opening = opening.unwrap();
    assert_eq!(opening.category, TransactionCategory::Opening);
    assert_eq!(opening.running_balance, account.balance);

    let (after, postings) =
        plan_debit(account.clone(), &p, dec(30000, 2), "ATM".to_string(), None).unwrap();
    assert_eq!(postings.len(), 2);
    assert_eq!(postings[0].category, TransactionCategory::Withdrawal);
    assert_eq!(postings[0].amount, dec(30000, 2));
    assert_eq!(postings[0].running_balance, dec(70000, 2));
    assert_eq!(postings[1].category, TransactionCategory::Fee);
    assert_eq!(postings[1].amount, dec(100, 2));
    assert_eq!(postings[1].description, "Transaction fee");
    assert_eq!(postings[1].running_balance, after.balance);
    assert_eq!(after.balance, dec(69900, 2));
    assert_eq!(after.version, account.version + 1);
    assert!(postings.iter().all(|t| t.transaction_type == TransactionType::Debit));
    assert!(check_commit(&account, &after).is_ok());
}

#[test]
fn debit_without_fee_posts_once() {
    let p = product(dec(0, 0));
    let account = opened(dec(5000, 2), &p);
    let (after, postings) = plan_debit(account, &p, dec(5000, 2), "all".to_string(), None).unwrap();
    assert_eq!(postings.len(), 1);
    assert_eq!(after.balance, dec(0, 0));
    assert_eq!(postings[0].running_balance, after.balance);
}

#[test]
fn fee_is_checked_up_front() {
    let p = product(dec(100, 2));
    let account = opened(dec(30000, 2), &p);
    match plan_debit(account, &p, dec(30000, 2), "x".to_string(), None) {
        Err(AppError::InsufficientBalance { available, required }) => {
            assert_eq!(available, dec(300, 0));
            assert_eq!(required, dec(30100, 2));
        }
        other => panic!("unexpected {:?}", other.map(|r| r.0.balance)),
    }
}

#[test]
fn credit_plan_records_new_balance() {
    let p = product(dec(0, 0));
    let account = opened(dec(100, 0), &p);
    let (after, t) =
        plan_credit(account.clone(), dec(5050, 2), "Salary".to_string(), Some("R1".to_string()))
            .unwrap();
    assert_eq!(after.balance, dec(15050, 2));
    assert_eq!(t.running_balance, after.balance);
    assert_eq!(t.category, TransactionCategory::Deposit);
    assert_eq!(t.reference, Some("R1".to_string()));
    assert!(matches!(
        plan_credit(account.clone(), dec(0, 0), "x".to_string(), None),
        Err(AppError::ValidationError(_))
    ));
    assert!(matches!(
        plan_credit(account, dec(1, 0), " ".to_string(), None),
        Err(AppError::ValidationError(_))
    ));
}

#[test]
fn concurrent_debits_only_one_commits() {
    let p = product(dec(0, 0));
    let stored = opened(dec(10000, 2), &p);
    let (first, _) = plan_debit(stored.clone(), &p, dec(6000, 2), "a".to_string(), None).unwrap();
    let (second, _) = plan_debit(stored.clone(), &p, dec(6000, 2), "b".to_string(), None).unwrap();
    assert!(check_commit(&stored, &first).is_ok());
    assert!(matches!(
        check_commit(&first, &second),
        Err(AppError::ConcurrentModification(_))
    ));
    assert!(matches!(
        plan_debit(first.clone(), &p, dec(6000, 2), "b".to_string(), None),
        Err(AppError::InsufficientBalance { .. })
    ));
    let other = opened(dec(0, 0), &p);
    assert!(matches!(check_commit(&other, &first), Err(AppError::NotFoundError(_, _))));
}

#[test]
fn opening_without_balance_posts_nothing() {
    let p = product(dec(0, 0));
    let (account, posting) =
        plan_open_account("202500002".to_string(), "C".to_string(), &p, dec(0, 2), None).unwrap();
    assert!(posting.is_none());
    assert_eq!(account.status, AccountStatus::Active);
    let mut inactive = product(dec(0, 0));
    inactive.deactivate();
    let (a, t) =
        plan_open_account("1".to_string(), "C".to_string(), &inactive, dec(1, 0), None).unwrap();
    assert_eq!(a.balance, dec(1, 0));
    assert_eq!(t.unwrap().running_balance, dec(1, 0));
}

#[test]
fn close_plan() {
    let p = product(dec(0, 0));
    let account = opened(dec(0, 0), &p);
    let closed = plan_close(account.clone()).unwrap();
    assert_eq!(closed.status, AccountStatus::Closed);
    assert!(closed.closing_date.is_some());
    assert_eq!(closed.version, 1);
    assert!(matches!(plan_close(closed), Err(AppError::BusinessRuleError(_))));
    let funded = opened(dec(1, 0), &p);
    assert!(matches!(plan_close(funded), Err(AppError::BusinessRuleError(_))));
}

#[test]
fn interest_cycle_accrues_then_posts() {
    let p = product(dec(0, 0));
    let day = Date::from_ymd(2025, 10, 4).unwrap();
    let account = opened(dec(100000, 2), &p);
    let (accrued, record) = plan_interest_accrual(account, &p, day).unwrap();
    let record = record.unwrap();
    assert_eq!(record.cumulative_accrued, accrued.interest_accrued);
    assert_eq!(accounts_application::decimal::round_currency(record.daily_interest), dec(7, 2));
    let (posted, t) = plan_interest_posting(accrued.clone()).unwrap();
    let t = t.unwrap();
    assert_eq!(t.category, TransactionCategory::Interest);
    assert_eq!(t.channel, "Batch");
    assert_eq!(t.running_balance, posted.balance);
    assert_eq!(posted.interest_accrued, dec(0, 0));
    assert_eq!(
        posted.balance,
        dec(100000, 2).checked_add(&record.daily_interest).unwrap()
    );

    let poor = opened(dec(5000, 2), &p);
    let (same, none) = plan_interest_accrual(poor.clone(), &p, day).unwrap();
    assert!(none.is_none());
    assert_eq!(same.version, poor.version);
}

#[test]
fn account_numbers_are_year_and_sequence() {
    assert_eq!(account_number_for(2025, 7), "202500007");
    assert_eq!(account_number_for(2025, 123456), "2025123456");
    assert_eq!(account_number_for(999, 0), "099900000");
}

#[test]
fn applying_a_days_interest() {
    let p = product(dec(0, 0));
    let day = Date::from_ymd(2025, 10, 31).unwrap();
    let account = opened(dec(100000, 2), &p);
    let (a, rec) = apply_daily_interest(account.clone(), dec(5, 2), dec(25, 3), day).unwrap();
    assert_eq!(a.interest_accrued, dec(5, 2));
    assert_eq!(a.balance, dec(100000, 2));
    assert_eq!(a.version, account.version + 1);
    assert_eq!(rec.cumulative_accrued, dec(5, 2));
    assert_eq!(rec.accrual_date, day);
    let (b, rec) = apply_daily_interest(a, dec(7, 2), dec(25, 3), day).unwrap();
    assert_eq!(b.interest_accrued, dec(12, 2));
    assert_eq!(rec.cumulative_accrued, dec(12, 2));
    assert!(matches!(
        apply_daily_interest(account.clone(), dec(-1, 2), dec(25, 3), day),
        Err(AppError::ValidationError(_))
    ));
    assert!(matches!(
        apply_daily_interest(account, dec(1, 2), dec(11, 1), day),
        Err(AppError::ValidationError(_))
    ));
}

#[test]
fn posting_with_nothing_accrued_changes_nothing() {
    let p = product(dec(0, 0));
    let account = opened(dec(100, 0), &p);
    let (same, posting) = plan_interest_posting(account.clone()).unwrap();
    assert!(posting.is_none());
    assert_eq!(same.version, account.version);
    assert_eq!(same.balance, account.balance);
}

#[test]
fn balance_is_tested_first_with_the_fee() {
    let p = product(dec(100, 2));
    let mut closed = opened(dec(0, 0), &p);
    closed.close().unwrap();
    match plan_debit(closed, &p, dec(1000, 2), "x".to_string(), None) {
        Err(AppError::InsufficientBalance { available, required }) => {
            assert_eq!(available, dec(0, 0));
            assert_eq!(required, dec(1100, 2));
        }
        other => panic!("unexpected {:?}", other.map(|r| r.0.balance)),
    }
    let poor = opened(dec(50, 2), &p);
    assert!(matches!(
        plan_debit(poor, &p, dec(0, 0), "x".to_string(), None),
        Err(AppError::InsufficientBalance { .. })
    ));
    let funded = opened(dec(500, 2), &p);
    assert!(matches!(
        plan_debit(funded, &p, dec(0, 0), "x".to_string(), None),
        Err(AppError::ValidationError(_))
    ));
}

#[test]
fn zero_fee_at_fine_scale_does_not_limit_debits() {
    let p = product(dec(0, 28));
    let account = opened(dec(1000000, 2), &p);
    let (after, postings) = plan_debit(account, &p, dec(900000, 2), "big".to_string(), None).unwrap();
    assert_eq!(postings.len(), 1);
    assert_eq!(after.balance, dec(100000, 2));
}

#[test]
fn postings_carry_the_date_of_their_instant() {
    let p = product(dec(100, 2));
    let account = opened(dec(100000, 2), &p);
    assert_eq!(account.interest_accrued.scale, 0);
    let (_, postings) = plan_debit(account, &p, dec(100, 2), "x".to_string(), None).unwrap();
    for t in &postings {
        assert_eq!(t.created_at, t.transaction_date);
        assert!(t.value_date.year >= 2020);
    }
}
