//! The posting service: each operation as a pure plan from the stored
//! account to its successor and the postings that record the change.
//!
//! A plan never touches storage. The caller loads the account, asks for a
//! plan, and stores the postings and the successor in one storage
//! transaction after [`check_commit`] has accepted the successor against the
//! row as it is then stored. Every successor carries the next version, so of
//! two plans made from the same snapshot at most one can be stored.

use vstd::prelude::*;
use vstd::string::*;
use crate::account::{Account, AccountStatus};
use crate::date::{Date, Timestamp};
use crate::interest::{daily_interest_of, InterestAccrual};
use crate::product::is_rate;
use crate::decimal::{max_scale_of, representable_at, round_to, rounded_to, Amount};
use crate::error::AppError;
use crate::product::Product;
use crate::text::{blank, is_blank, is_space, owned};
use crate::transaction::{Transaction, TransactionCategory, TransactionType};

verus! {

/// The version that follows `v` (wrapping at the top).
pub open spec fn next_version(v: u32) -> u32 {
    if v == u32::MAX {
        0
    } else {
        (v + 1) as u32
    }
}

fn bump(v: u32) -> (r: u32)
    ensures
        r == next_version(v),
{
    if v == u32::MAX {
        0
    } else {
        v + 1
    }
}

/// `before` with a new balance and time, at the next version.
pub open spec fn successor(before: Account, balance: Amount, at: Timestamp) -> Account {
    Account { balance, updated_at: at, version: next_version(before.version), ..before }
}

/// The row `stored` may be replaced by `planned`: same account, next version.
pub open spec fn commit_allowed(stored: Account, planned: Account) -> bool {
    stored.account_id@ == planned.account_id@ && planned.version == next_version(stored.version)
}

/// Accepts `planned` as the next state of the row `stored`, or says why not.
pub fn check_commit(stored: &Account, planned: &Account) -> (r: Result<(), AppError>)
    ensures
        r is Ok <==> commit_allowed(*stored, *planned),
        stored.account_id@ != planned.account_id@ ==> r matches Err(
            AppError::NotFoundError(_, _),
        ),
        stored.account_id@ == planned.account_id@ && !commit_allowed(*stored, *planned)
            ==> r matches Err(AppError::ConcurrentModification(_)),
{
    if !(stored.account_id == planned.account_id) {
        return Err(AppError::NotFoundError(owned("Account"), planned.account_id.clone()));
    }
    if planned.version != bump(stored.version) {
        return Err(
            AppError::ConcurrentModification(
                owned("Account ").concat(planned.account_id.as_str()).concat(
                    " changed since it was read",
                ),
            ),
        );
    }
    Ok(())
}

/// Description given to fee postings.
pub open spec fn fee_description() -> Seq<char> {
    "Transaction fee"@
}

/// A credit of `amount` described by `description` can be planned.
pub open spec fn credit_plan_allowed(account: Account, amount: Amount, description: Seq<char>) -> bool {
    account.credit_allowed(amount) && !is_blank(description)
}

/// Plans a deposit: the credited successor and its Credit/Deposit posting.
pub fn plan_credit(
    account: Account,
    amount: Amount,
    description: String,
    reference: Option<String>,
) -> (r: Result<(Account, Transaction), AppError>)
    requires
        account.wf(),
        amount.wf(),
    ensures
        r is Ok <==> credit_plan_allowed(account, amount, description@),
        amount.value() <= 0 ==> r matches Err(AppError::ValidationError(_)),
        amount.value() > 0 && account.status == AccountStatus::Closed ==> r matches Err(
            AppError::AccountClosed,
        ),
        r matches Err(e) ==> e is ValidationError || e is AccountClosed,
        r matches Ok((a, t)) ==> {
            &&& a.wf()
            &&& a == successor(account, a.balance, a.updated_at)
            &&& a.balance.value() == account.balance.value() + amount.value()
            &&& t.wf()
            &&& t.account_id == account.account_id
            &&& t.transaction_type == TransactionType::Credit
            &&& t.category == TransactionCategory::Deposit
            &&& t.amount == amount
            &&& t.currency == account.currency
            &&& t.running_balance == a.balance
            &&& t.description == description
            &&& t.reference == reference
            &&& t.channel@ == "API"@
        },
{
    let mut a = account;
    if let Err(e) = a.credit(amount) {
        return Err(e);
    }
    if blank(description.as_str()) {
        return Err(AppError::ValidationError(owned("Description cannot be empty")));
    }
    let t = match Transaction::new(
        a.account_id.clone(),
        TransactionType::Credit,
        TransactionCategory::Deposit,
        amount,
        a.currency.clone(),
        a.balance,
        description,
        reference,
        owned("API"),
        None,
    ) {
        Ok(t) => t,
        Err(e) => {
            return Err(e);
        },
    };
    a.version = bump(a.version);
    Ok((a, t))
}

/// A withdrawal of `amount` with the product's `fee` can be planned.
pub open spec fn debit_plan_allowed(
    account: Account,
    fee: Amount,
    amount: Amount,
    description: Seq<char>,
) -> bool {
    let after_amount = account.balance.value() - amount.value();
    let scale = max_scale_of(account.balance, amount);
    &&& (fee.value() > 0 ==> representable_at(amount.value() + fee.value(), max_scale_of(amount, fee)))
    &&& amount.value() + fee.value() <= account.balance.value()
    &&& amount.value() > 0
    &&& account.status == AccountStatus::Active
    &&& !is_blank(description)
    &&& representable_at(after_amount, scale)
    &&& (fee.value() > 0 ==> representable_at(
        after_amount - fee.value(),
        if scale <= fee.scale {
            fee.scale as nat
        } else {
            scale
        },
    ))
}

/// The amount plus the product's fee can be formed: the fee is zero, or
/// the exact sum fits.
pub open spec fn total_formed(amount: Amount, fee: Amount) -> bool {
    fee.value() == 0 || representable_at(amount.value() + fee.value(), max_scale_of(amount, fee))
}

/// Plans a withdrawal under `product`. The balance is first tested once
/// against the amount plus the product's transaction fee; then the amount
/// is debited (which checks the amount and the account's status) and posted
/// as Debit/Withdrawal, and, where the fee is positive, the fee is debited
/// and posted as Debit/Fee.
pub fn plan_debit(
    account: Account,
    product: &Product,
    amount: Amount,
    description: String,
    reference: Option<String>,
) -> (r: Result<(Account, Vec<Transaction>), AppError>)
    requires
        account.wf(),
        product.wf(),
        amount.wf(),
    ensures
        r is Ok <==> debit_plan_allowed(account, product.transaction_fee, amount, description@),
        !total_formed(amount, product.transaction_fee) ==> r matches Err(
            AppError::ValidationError(_),
        ),
        total_formed(amount, product.transaction_fee) && account.balance.value() < amount.value()
            + product.transaction_fee.value() ==> r matches Err(AppError::InsufficientBalance { .. }),
        r matches Err(AppError::InsufficientBalance { available, required }) ==> available
            == account.balance && required.value() == amount.value()
            + product.transaction_fee.value() && (product.transaction_fee.value() == 0
            ==> required == amount),
        total_formed(amount, product.transaction_fee) && account.balance.value() >= amount.value()
            + product.transaction_fee.value() && amount.value() <= 0 ==> r matches Err(
            AppError::ValidationError(_),
        ),
        total_formed(amount, product.transaction_fee) && account.balance.value() >= amount.value()
            + product.transaction_fee.value() && amount.value() > 0 && account.status
            == AccountStatus::Closed ==> r matches Err(AppError::AccountClosed),
        r matches Err(e) ==> e is ValidationError || e is AccountClosed
            || e is InsufficientBalance,
        r matches Ok((a, ts)) ==> {
            let fee = product.transaction_fee;
            &&& a.wf()
            &&& a == successor(account, a.balance, a.updated_at)
            &&& a.balance.value() == account.balance.value() - amount.value() - fee.value()
            &&& ts@.len() == (if fee.value() > 0 {
                2int
            } else {
                1int
            })
            &&& forall|i: int|
                0 <= i < ts@.len() ==> {
                    &&& (#[trigger] ts@[i]).wf()
                    &&& ts@[i].account_id == account.account_id
                    &&& ts@[i].transaction_type == TransactionType::Debit
                    &&& ts@[i].currency == account.currency
                    &&& ts@[i].reference == reference
                    &&& ts@[i].channel@ == "API"@
                }
            &&& ts@[0].category == TransactionCategory::Withdrawal
            &&& ts@[0].amount == amount
            &&& ts@[0].description == description
            &&& ts@[0].running_balance.value() == account.balance.value() - amount.value()
            &&& ts@[ts@.len() - 1].running_balance == a.balance
            &&& (fee.value() > 0 ==> {
                &&& ts@[1].category == TransactionCategory::Fee
                &&& ts@[1].amount == fee
                &&& ts@[1].description@ == fee_description()
            })
        },
{
    let fee = product.transaction_fee;
    let total = if fee.is_zero() {
        amount
    } else {
        match amount.checked_add(&fee) {
            Some(t) => t,
            None => {
                return Err(
                    AppError::ValidationError(owned("Debit and fee exceed the supported range")),
                );
            },
        }
    };
    if account.balance.less_than(&total) {
        return Err(AppError::InsufficientBalance { available: account.balance, required: total });
    }
    let mut a = account;
    if let Err(e) = a.debit(amount) {
        return Err(e);
    }
    if blank(description.as_str()) {
        return Err(AppError::ValidationError(owned("Description cannot be empty")));
    }
    let mut ts: Vec<Transaction> = Vec::new();
    let withdrawal = match Transaction::new(
        a.account_id.clone(),
        TransactionType::Debit,
        TransactionCategory::Withdrawal,
        amount,
        a.currency.clone(),
        a.balance,
        description,
        reference.clone(),
        owned("API"),
        None,
    ) {
        Ok(t) => t,
        Err(e) => {
            return Err(e);
        },
    };
    ts.push(withdrawal);
    if fee.is_positive() {
        if let Err(e) = a.debit(fee) {
            return Err(e);
        }
        let fee_text = owned("Transaction fee");
        proof {
            reveal_strlit("Transaction fee");
            assert(fee_text@[0] == 'T');
            assert(!is_space(fee_text@[0]));
        }
        let fee_posting = match Transaction::new(
            a.account_id.clone(),
            TransactionType::Debit,
            TransactionCategory::Fee,
            fee,
            a.currency.clone(),
            a.balance,
            fee_text,
            reference,
            owned("API"),
            None,
        ) {
            Ok(t) => t,
            Err(e) => {
                return Err(e);
            },
        };
        ts.push(fee_posting);
    }
    a.version = bump(a.version);
    Ok((a, ts))
}

/// Plans the opening of an account under `product`: the new account, and a
/// Credit/Opening posting where the opening balance is positive.
pub fn plan_open_account(
    account_number: String,
    customer_id: String,
    product: &Product,
    opening_balance: Amount,
    created_by: Option<String>,
) -> (r: Result<(Account, Option<Transaction>), AppError>)
    requires
        product.wf(),
        opening_balance.wf(),
    ensures
        r is Ok <==> {
            &&& !is_blank(account_number@)
            &&& !is_blank(customer_id@)
            &&& !is_blank(product.product_id@)
            &&& opening_balance.value() >= 0
        },
        r matches Err(e) ==> e is ValidationError,
        r matches Ok((a, t)) ==> {
            &&& a.wf()
            &&& a.account_number == account_number
            &&& a.customer_id == customer_id
            &&& a.product_id == product.product_id
            &&& a.currency == product.currency
            &&& a.status == AccountStatus::Active
            &&& a.balance == opening_balance
            &&& a.interest_accrued.value() == 0
            &&& a.created_by == created_by
            &&& a.version == 0
            &&& (t is Some <==> opening_balance.value() > 0)
            &&& (t matches Some(t) ==> {
                &&& t.wf()
                &&& t.account_id == a.account_id
                &&& t.transaction_type == TransactionType::Credit
                &&& t.category == TransactionCategory::Opening
                &&& t.amount == opening_balance
                &&& t.currency == a.currency
                &&& t.running_balance == a.balance
            })
        },
{
    let a = match Account::new(
        account_number,
        customer_id,
        product.product_id.clone(),
        product.currency.clone(),
        opening_balance,
        created_by,
    ) {
        Ok(a) => a,
        Err(e) => {
            return Err(e);
        },
    };
    if !opening_balance.is_positive() {
        return Ok((a, None));
    }
    let text = owned("Opening balance");
    proof {
        reveal_strlit("Opening balance");
        assert(text@[0] == 'O');
        assert(!is_space(text@[0]));
    }
    match Transaction::new(
        a.account_id.clone(),
        TransactionType::Credit,
        TransactionCategory::Opening,
        opening_balance,
        a.currency.clone(),
        opening_balance,
        text,
        Some(owned("OPENING")),
        owned("API"),
        None,
    ) {
        Ok(t) => Ok((a, Some(t))),
        Err(e) => Err(e),
    }
}

/// Plans the closing of an account: allowed for an active account with a
/// zero balance.
pub fn plan_close(account: Account) -> (r: Result<Account, AppError>)
    requires
        account.wf(),
    ensures
        r is Ok <==> (account.balance.value() == 0 && account.status == AccountStatus::Active),
        r matches Err(e) ==> e is BusinessRuleError,
        r matches Ok(a) ==> {
            &&& a.wf()
            &&& a.status == AccountStatus::Closed
            &&& a.closing_date is Some
            &&& a == (Account {
                status: AccountStatus::Closed,
                closing_date: a.closing_date,
                updated_at: a.updated_at,
                version: next_version(account.version),
                ..account
            })
        },
{
    let mut a = account;
    match a.close() {
        Ok(()) => {
            a.version = bump(a.version);
            Ok(a)
        },
        Err(e) => Err(e),
    }
}

/// The account earns interest under `product` today.
pub open spec fn earns_interest(account: Account, product: Product) -> bool {
    account.status == AccountStatus::Active && account.balance.value()
        >= product.minimum_balance_for_interest.value()
}

/// Accrues one day's interest `daily_interest`, computed at `annual_rate`,
/// and records it.
pub fn apply_daily_interest(
    account: Account,
    daily_interest: Amount,
    annual_rate: Amount,
    accrual_date: Date,
) -> (r: Result<(Account, InterestAccrual), AppError>)
    requires
        account.wf(),
        daily_interest.wf(),
        annual_rate.wf(),
    ensures
        r is Ok <==> {
            &&& daily_interest.value() >= 0
            &&& is_rate(annual_rate)
            &&& (daily_interest.value() == 0 || representable_at(
                account.interest_accrued.value() + daily_interest.value(),
                max_scale_of(account.interest_accrued, daily_interest),
            ))
        },
        r matches Err(e) ==> e is ValidationError,
        r matches Ok((a, rec)) ==> {
            &&& a.wf()
            &&& a == (Account {
                interest_accrued: a.interest_accrued,
                updated_at: a.updated_at,
                version: next_version(account.version),
                ..account
            })
            &&& a.interest_accrued.value() == account.interest_accrued.value()
                + daily_interest.value()
            &&& rec.account_id == account.account_id
            &&& rec.accrual_date == accrual_date
            &&& rec.balance == account.balance
            &&& rec.annual_rate == annual_rate
            &&& rec.daily_interest == daily_interest
            &&& rec.cumulative_accrued == a.interest_accrued
        },
{
    if annual_rate.is_negative() || Amount::one().less_than(&annual_rate) {
        return Err(AppError::ValidationError(owned("Annual rate must be between 0 and 1")));
    }
    let mut a = account;
    if let Err(e) = a.accrue_interest(daily_interest) {
        return Err(e);
    }
    let rec = match InterestAccrual::new(
        a.account_id.clone(),
        accrual_date,
        a.balance,
        annual_rate,
        daily_interest,
        a.interest_accrued,
    ) {
        Ok(rec) => rec,
        Err(e) => {
            return Err(e);
        },
    };
    a.version = bump(a.version);
    Ok((a, rec))
}

/// Fractional digits kept of each day's interest when it is accrued.
///
/// The exact quotient `(balance × rate) / 365` generally has 28 fractional
/// digits, and such an amount cannot be added exactly to a balance of more
/// than about 7.9 in the 96-bit mantissa: posting the accrual would then be
/// refused, since this ledger never rounds silently. Ten digits keep the
/// error of a day's accrual below `10^-10` while leaving room for balances
/// up to about `7.9 × 10^18`.
pub const ACCRUAL_SCALE: u32 = 10;

/// The day's interest for `account` under `product`, rounded (ties to even)
/// to [`ACCRUAL_SCALE`] digits.
pub open spec fn accrual_amount(account: Account, product: Product) -> Option<Amount> {
    match daily_interest_of(account.balance, product.interest_rate) {
        Some(d) => Some(rounded_to(d, ACCRUAL_SCALE)),
        None => None,
    }
}

/// A day's interest `daily` exists and can be added to what `account` has
/// accrued.
pub open spec fn accrual_fits(account: Account, daily: Option<Amount>) -> bool {
    match daily {
        Some(d) => d.value() == 0 || representable_at(
            account.interest_accrued.value() + d.value(),
            max_scale_of(account.interest_accrued, d),
        ),
        None => false,
    }
}

/// One day of the interest cycle for an account under its product: an
/// account below the product's minimum balance, or not active, is left as
/// it is; otherwise its daily interest, rounded to [`ACCRUAL_SCALE`]
/// digits, is accrued and recorded.
pub fn plan_interest_accrual(account: Account, product: &Product, accrual_date: Date) -> (r: Result<
    (Account, Option<InterestAccrual>),
    AppError,
>)
    requires
        account.wf(),
        product.wf(),
    ensures
        !earns_interest(account, *product) ==> (r matches Ok((a, None)) && a == account),
        earns_interest(account, *product) ==> (r is Ok <==> accrual_fits(
            account,
            accrual_amount(account, *product),
        )),
        earns_interest(account, *product) && r is Ok ==> (r matches Ok((a, Some(rec))) && {
            &&& accrual_amount(account, *product) == Some(rec.daily_interest)
            &&& a.wf()
            &&& a.interest_accrued.value() == account.interest_accrued.value()
                + rec.daily_interest.value()
            &&& a.balance == account.balance
            &&& a.version == next_version(account.version)
            &&& rec.cumulative_accrued == a.interest_accrued
        }),
        r matches Err(e) ==> e is ValidationError,
{
    if account.status != AccountStatus::Active || account.balance.less_than(
        &product.minimum_balance_for_interest,
    ) {
        return Ok((account, None));
    }
    let daily = match InterestAccrual::calculate_daily_interest(
        account.balance,
        product.interest_rate,
    ) {
        Ok(d) => round_to(d, ACCRUAL_SCALE),
        Err(e) => {
            return Err(e);
        },
    };
    proof {
        crate::decimal::lemma_rounded_nonnegative(
            daily_interest_of(account.balance, product.interest_rate)->Some_0,
            ACCRUAL_SCALE,
        );
    }
    match apply_daily_interest(account, daily, product.interest_rate, accrual_date) {
        Ok((a, rec)) => Ok((a, Some(rec))),
        Err(e) => Err(e),
    }
}

/// Description given to interest postings.
pub open spec fn interest_description() -> Seq<char> {
    "Interest posting"@
}

/// Plans the end of an interest period: the accrued interest moves into the
/// balance and is recorded as a Credit/Interest posting from the batch
/// channel. With nothing accrued the account is left as it is.
pub fn plan_interest_posting(account: Account) -> (r: Result<(Account, Option<Transaction>), AppError>)
    requires
        account.wf(),
    ensures
        account.interest_accrued.value() == 0 ==> (r matches Ok((a, None)) && a == account),
        r is Ok <==> (account.interest_accrued.value() == 0 || representable_at(
            account.balance.value() + account.interest_accrued.value(),
            max_scale_of(account.balance, account.interest_accrued),
        )),
        r matches Err(e) ==> e is ValidationError,
        account.interest_accrued.value() > 0 && r is Ok ==> (r matches Ok((a, Some(t))) && {
            &&& a.wf()
            &&& a.balance.value() == account.balance.value() + account.interest_accrued.value()
            &&& a.interest_accrued.value() == 0
            &&& a == (Account {
                balance: a.balance,
                interest_accrued: a.interest_accrued,
                updated_at: a.updated_at,
                version: next_version(account.version),
                ..account
            })
            &&& t.wf()
            &&& t.account_id == account.account_id
            &&& t.transaction_type == TransactionType::Credit
            &&& t.category == TransactionCategory::Interest
            &&& t.amount == account.interest_accrued
            &&& t.running_balance == a.balance
            &&& t.description@ == interest_description()
            &&& t.channel@ == "Batch"@
        }),
{
    if account.interest_accrued.is_zero() {
        return Ok((account, None));
    }
    let mut a = account;
    let posted = match a.post_interest() {
        Ok(p) => p,
        Err(e) => {
            return Err(e);
        },
    };
    let text = owned("Interest posting");
    proof {
        reveal_strlit("Interest posting");
        assert(text@[0] == 'I');
        assert(!is_space(text@[0]));
    }
    match Transaction::new(
        a.account_id.clone(),
        TransactionType::Credit,
        TransactionCategory::Interest,
        posted,
        a.currency.clone(),
        a.balance,
        text,
        None,
        owned("Batch"),
        None,
    ) {
        Ok(t) => {
            a.version = bump(a.version);
            Ok((a, Some(t)))
        },
        Err(e) => Err(e),
    }
}

} // verus!
