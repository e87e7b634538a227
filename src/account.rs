//! Deposit accounts and the rules that change their balances.

use vstd::prelude::*;
use vstd::string::*;
use crate::date::{now_with_date, utc_date_of, Date, Timestamp};
use crate::decimal::{max_scale_of, representable_at, Amount};
use crate::error::AppError;
use crate::ids::new_uuid;
use crate::text::{blank, is_blank, owned};
use crate::validation::{is_currency_code, validate_currency_code};

verus! {

/// Lifecycle state of an account.
#[derive(Clone, Copy, Debug, PartialEq, Eq, Structural)]
pub enum AccountStatus {
    Active,
    Closed,
}

impl AccountStatus {
    /// The canonical name, as stored.
    pub open spec fn label(self) -> Seq<char> {
        match self {
            AccountStatus::Active => "Active"@,
            AccountStatus::Closed => "Closed"@,
        }
    }

    pub fn as_str(&self) -> (r: &'static str)
        ensures
            r@ == self.label(),
    {
        match self {
            AccountStatus::Active => "Active",
            AccountStatus::Closed => "Closed",
        }
    }

    /// Reads a canonical name.
    pub fn from_str(s: &str) -> (r: Result<AccountStatus, String>)
        ensures
            r is Ok <==> (s@ == "Active"@ || s@ == "Closed"@),
            r matches Ok(v) ==> v.label() == s@,
    {
        if crate::text::same_text(s, "Active") {
            Ok(AccountStatus::Active)
        } else if crate::text::same_text(s, "Closed") {
            Ok(AccountStatus::Closed)
        } else {
            Err(owned("Invalid account status: ").concat(s))
        }
    }
}

/// A customer's deposit account.
#[derive(Clone, Debug)]
pub struct Account {
    pub account_id: String,
    pub account_number: String,
    pub customer_id: String,
    pub product_id: String,
    pub currency: String,
    pub status: AccountStatus,
    pub balance: Amount,
    pub interest_accrued: Amount,
    pub opening_date: Date,
    pub closing_date: Option<Date>,
    pub created_at: Timestamp,
    pub updated_at: Timestamp,
    pub created_by: Option<String>,
    /// Bumped by every stored change; guards against lost updates.
    pub version: u32,
}

impl Account {
    /// The invariant of every account: no negative balance or accrual, a
    /// three-letter currency, and a closing date exactly when closed.
    pub open spec fn wf(self) -> bool {
        &&& !is_blank(self.account_id@)
        &&& self.balance.wf()
        &&& self.balance.value() >= 0
        &&& self.interest_accrued.wf()
        &&& self.interest_accrued.value() >= 0
        &&& is_currency_code(self.currency@)
        &&& self.opening_date.wf()
        &&& (self.status == AccountStatus::Closed <==> self.closing_date is Some)
        &&& (self.closing_date matches Some(d) ==> d.wf())
    }

    /// `self` with a new balance and modification time, all else kept.
    pub open spec fn with_balance(self, balance: Amount, at: Timestamp) -> Account {
        Account { balance, updated_at: at, ..self }
    }

    /// A credit of `amount` goes through.
    pub open spec fn credit_allowed(self, amount: Amount) -> bool {
        &&& amount.value() > 0
        &&& self.status == AccountStatus::Active
        &&& representable_at(
            self.balance.value() + amount.value(),
            max_scale_of(self.balance, amount),
        )
    }

    /// `after` is `self` credited with `amount`.
    pub open spec fn credit_applied(self, amount: Amount, after: Account) -> bool {
        &&& after == self.with_balance(after.balance, after.updated_at)
        &&& after.balance.value() == self.balance.value() + amount.value()
        &&& after.balance.scale == max_scale_of(self.balance, amount)
        &&& after.balance.wf()
    }

    /// A debit of `amount` goes through.
    pub open spec fn debit_allowed(self, amount: Amount) -> bool {
        &&& amount.value() > 0
        &&& self.status == AccountStatus::Active
        &&& amount.value() <= self.balance.value()
        &&& representable_at(
            self.balance.value() - amount.value(),
            max_scale_of(self.balance, amount),
        )
    }

    /// `after` is `self` debited with `amount`.
    pub open spec fn debit_applied(self, amount: Amount, after: Account) -> bool {
        &&& after == self.with_balance(after.balance, after.updated_at)
        &&& after.balance.value() == self.balance.value() - amount.value()
        &&& after.balance.scale == max_scale_of(self.balance, amount)
        &&& after.balance.wf()
    }

    /// Opens an account with `opening_balance`; it is active and has accrued
    /// nothing.
    pub fn new(
        account_number: String,
        customer_id: String,
        product_id: String,
        currency: String,
        opening_balance: Amount,
        created_by: Option<String>,
    ) -> (r: Result<Account, AppError>)
        requires
            opening_balance.wf(),
        ensures
            r is Ok <==> (!is_blank(account_number@) && !is_blank(customer_id@) && !is_blank(
                product_id@,
            ) && is_currency_code(currency@) && opening_balance.value() >= 0),
            r matches Err(e) ==> e is ValidationError,
            r matches Ok(a) ==> {
                &&& a.wf()
                &&& a.account_number == account_number
                &&& a.customer_id == customer_id
                &&& a.product_id == product_id
                &&& a.currency == currency
                &&& a.status == AccountStatus::Active
                &&& a.balance == opening_balance
                &&& a.interest_accrued == (Amount { mantissa: 0, scale: 0 })
                &&& a.closing_date is None
                &&& Some(a.opening_date) == utc_date_of(a.created_at)
                &&& a.created_by == created_by
                &&& a.version == 0
                &&& a.created_at == a.updated_at
                &&& a.account_id@.subrange(0, 4) == "ACC-"@
            },
    {
        if blank(account_number.as_str()) {
            return Err(AppError::ValidationError(owned("Account number cannot be empty")));
        }
        if blank(customer_id.as_str()) {
            return Err(AppError::ValidationError(owned("Customer ID cannot be empty")));
        }
        if blank(product_id.as_str()) {
            return Err(AppError::ValidationError(owned("Product ID cannot be empty")));
        }
        if let Err(m) = validate_currency_code(currency.as_str()) {
            return Err(AppError::ValidationError(m));
        }
        if opening_balance.is_negative() {
            return Err(AppError::ValidationError(owned("Opening balance cannot be negative")));
        }
        let (at, opening_date) = now_with_date();
        let prefix = owned("ACC-");
        let id = new_uuid();
        let account_id = prefix.concat(id.as_str());
        proof {
            reveal_strlit("ACC-");
            assert(account_id@.subrange(0, 4) =~= "ACC-"@);
            assert(account_id@[0] == 'A');
            assert(!crate::text::is_space(account_id@[0]));
        }
        Ok(Account {
            account_id,
            account_number,
            customer_id,
            product_id,
            currency,
            status: AccountStatus::Active,
            balance: opening_balance,
            interest_accrued: Amount::zero(),
            opening_date,
            closing_date: None,
            created_at: at,
            updated_at: at,
            created_by,
            version: 0,
        })
    }

    pub fn is_active(&self) -> (r: bool)
        ensures
            r == (self.status == AccountStatus::Active),
    {
        self.status == AccountStatus::Active
    }

    pub fn is_closed(&self) -> (r: bool)
        ensures
            r == (self.status == AccountStatus::Closed),
    {
        self.status == AccountStatus::Closed
    }

    /// Closes a zero-balance active account, dated by the day of closing.
    pub fn close(&mut self) -> (r: Result<(), AppError>)
        requires
            old(self).wf(),
        ensures
            final(self).wf(),
            r is Ok <==> (old(self).balance.value() == 0 && old(self).status
                == AccountStatus::Active),
            r matches Err(e) ==> e is BusinessRuleError,
            r is Err ==> *final(self) == *old(self),
            r is Ok ==> *final(self) == (Account {
                status: AccountStatus::Closed,
                closing_date: final(self).closing_date,
                updated_at: final(self).updated_at,
                ..*old(self)
            }) && final(self).closing_date is Some && final(self).closing_date == utc_date_of(
                final(self).updated_at,
            ),
    {
        if !self.balance.is_zero() {
            let shown = self.balance.to_text();
            return Err(
                AppError::BusinessRuleError(
                    owned("Cannot close account with non-zero balance: ").concat(shown.as_str()),
                ),
            );
        }
        if self.is_closed() {
            return Err(AppError::BusinessRuleError(owned("Account is already closed")));
        }
        let (at, day) = now_with_date();
        self.status = AccountStatus::Closed;
        self.closing_date = Some(day);
        self.updated_at = at;
        Ok(())
    }

    /// Adds `amount` to the balance of an active account.
    pub fn credit(&mut self, amount: Amount) -> (r: Result<(), AppError>)
        requires
            old(self).wf(),
            amount.wf(),
        ensures
            final(self).wf(),
            r is Ok <==> old(self).credit_allowed(amount),
            amount.value() <= 0 ==> r matches Err(AppError::ValidationError(_)),
            amount.value() > 0 && old(self).status == AccountStatus::Closed ==> r matches Err(
                AppError::AccountClosed,
            ),
            r matches Err(e) ==> e is ValidationError || e is AccountClosed,
            r is Ok ==> old(self).credit_applied(amount, *final(self)),
            r is Err ==> *final(self) == *old(self),
    {
        if !amount.is_positive() {
            return Err(AppError::ValidationError(owned("Credit amount must be positive")));
        }
        if !self.is_active() {
            return Err(AppError::AccountClosed);
        }
        match self.balance.checked_add(&amount) {
            None => Err(AppError::ValidationError(owned("Balance would exceed the supported range"))),
            Some(b) => {
                self.balance = b;
                self.updated_at = now_with_date().0;
                Ok(())
            },
        }
    }

    /// Takes `amount` from the balance of an active account that covers it.
    pub fn debit(&mut self, amount: Amount) -> (r: Result<(), AppError>)
        requires
            old(self).wf(),
            amount.wf(),
        ensures
            final(self).wf(),
            r is Ok <==> old(self).debit_allowed(amount),
            amount.value() <= 0 ==> r matches Err(AppError::ValidationError(_)),
            amount.value() > 0 && old(self).status == AccountStatus::Closed ==> r matches Err(
                AppError::AccountClosed,
            ),
            amount.value() > 0 && old(self).status == AccountStatus::Active
                && old(self).balance.value() < amount.value() ==> r == Err::<(), AppError>(
                AppError::InsufficientBalance { available: old(self).balance, required: amount },
            ),
            r matches Err(e) ==> e is ValidationError || e is AccountClosed
                || e is InsufficientBalance,
            r matches Err(AppError::InsufficientBalance { .. }) ==> amount.value() > 0
                && old(self).balance.value() < amount.value(),
            r is Ok ==> old(self).debit_applied(amount, *final(self)),
            r is Err ==> *final(self) == *old(self),
    {
        if !amount.is_positive() {
            return Err(AppError::ValidationError(owned("Debit amount must be positive")));
        }
        if !self.is_active() {
            return Err(AppError::AccountClosed);
        }
        if self.balance.less_than(&amount) {
            return Err(AppError::InsufficientBalance { available: self.balance, required: amount });
        }
        match self.balance.checked_sub(&amount) {
            None => Err(AppError::ValidationError(owned("Balance would exceed the supported range"))),
            Some(b) => {
                self.balance = b;
                self.updated_at = now_with_date().0;
                Ok(())
            },
        }
    }

    /// Adds `amount` to the interest accrued so far; zero changes nothing.
    pub fn accrue_interest(&mut self, amount: Amount) -> (r: Result<(), AppError>)
        requires
            old(self).wf(),
            amount.wf(),
        ensures
            final(self).wf(),
            r is Ok <==> (amount.value() == 0 || (amount.value() > 0 && representable_at(
                old(self).interest_accrued.value() + amount.value(),
                max_scale_of(old(self).interest_accrued, amount),
            ))),
            r matches Err(e) ==> e is ValidationError,
            amount.value() == 0 ==> *final(self) == *old(self),
            r is Ok && amount.value() > 0 ==> *final(self) == (Account {
                interest_accrued: final(self).interest_accrued,
                updated_at: final(self).updated_at,
                ..*old(self)
            }) && final(self).interest_accrued.scale == max_scale_of(
                old(self).interest_accrued,
                amount,
            ),
            r is Ok ==> final(self).interest_accrued.value() == old(self).interest_accrued.value()
                + amount.value(),
            r is Err ==> *final(self) == *old(self),
    {
        if amount.is_negative() {
            return Err(AppError::ValidationError(owned("Interest amount cannot be negative")));
        }
        if amount.is_zero() {
            return Ok(());
        }
        match self.interest_accrued.checked_add(&amount) {
            None => Err(
                AppError::ValidationError(owned("Accrued interest would exceed the supported range")),
            ),
            Some(s) => {
                self.interest_accrued = s;
                self.updated_at = now_with_date().0;
                Ok(())
            },
        }
    }

    /// Moves the accrued interest into the balance and returns how much moved.
    pub fn post_interest(&mut self) -> (r: Result<Amount, AppError>)
        requires
            old(self).wf(),
        ensures
            final(self).wf(),
            r is Ok <==> (old(self).interest_accrued.value() == 0 || representable_at(
                old(self).balance.value() + old(self).interest_accrued.value(),
                max_scale_of(old(self).balance, old(self).interest_accrued),
            )),
            r matches Err(e) ==> e is ValidationError,
            old(self).interest_accrued.value() == 0 ==> *final(self) == *old(self),
            r is Ok && old(self).interest_accrued.value() > 0 ==> final(self).interest_accrued == (
            Amount { mantissa: 0, scale: 0 }) && final(self).balance.scale == max_scale_of(
                old(self).balance,
                old(self).interest_accrued,
            ),
            r matches Ok(p) ==> {
                &&& p == old(self).interest_accrued
                &&& final(self).balance.value() == old(self).balance.value() + p.value()
                &&& final(self).interest_accrued.value() == 0
                &&& *final(self) == (Account {
                    balance: final(self).balance,
                    interest_accrued: final(self).interest_accrued,
                    updated_at: final(self).updated_at,
                    ..*old(self)
                })
            },
            r is Err ==> *final(self) == *old(self),
    {
        let interest = self.interest_accrued;
        if interest.is_positive() {
            match self.balance.checked_add(&interest) {
                None => {
                    return Err(
                        AppError::ValidationError(owned("Balance would exceed the supported range")),
                    );
                },
                Some(b) => {
                    self.balance = b;
                    self.interest_accrued = Amount::zero();
                    self.updated_at = now_with_date().0;
                },
            }
        }
        Ok(interest)
    }

    /// The balance covers `amount`.
    pub fn has_sufficient_balance(&self, amount: Amount) -> (r: bool)
        requires
            self.balance.wf(),
            amount.wf(),
        ensures
            r == (self.balance.value() >= amount.value()),
    {
        amount.at_most(&self.balance)
    }
}

} // verus!
