//! Daily interest under the Actual/365 convention, and accrual records.

use vstd::prelude::*;
use vstd::string::*;
use crate::date::{now, Date, Timestamp};
use crate::decimal::{decimal_div, decimal_quotient, Amount, MAX_MANTISSA, MAX_SCALE};
use crate::error::AppError;
use crate::ids::new_uuid;
use crate::product::is_rate;
use crate::text::{blank, is_blank, owned};

verus! {

/// Days in the interest year.
pub const DAYS_IN_YEAR: i128 = 365;

/// The exact product `balance × annual_rate`, where it is representable;
/// zero where either is zero.
pub open spec fn rate_product(balance: Amount, annual_rate: Amount) -> Option<Amount> {
    if balance.mantissa == 0 || annual_rate.mantissa == 0 {
        Some(Amount { mantissa: 0, scale: 0 })
    } else if balance.scale + annual_rate.scale <= MAX_SCALE && -MAX_MANTISSA <= balance.mantissa
        * annual_rate.mantissa <= MAX_MANTISSA {
        Some(
            Amount {
                mantissa: (balance.mantissa * annual_rate.mantissa) as i128,
                scale: (balance.scale + annual_rate.scale) as u32,
            },
        )
    } else {
        None
    }
}

/// `(balance × annual_rate) / 365`: the product is exact and the division
/// is `rust_decimal`'s.
pub open spec fn daily_interest_of(balance: Amount, annual_rate: Amount) -> Option<Amount> {
    match rate_product(balance, annual_rate) {
        Some(p) => decimal_quotient(p, Amount { mantissa: DAYS_IN_YEAR, scale: 0 }),
        None => None,
    }
}

/// One day's interest computed for an account.
#[derive(Clone, Debug)]
pub struct InterestAccrual {
    pub accrual_id: String,
    pub account_id: String,
    pub accrual_date: Date,
    /// Balance the interest was computed on.
    pub balance: Amount,
    pub annual_rate: Amount,
    pub daily_interest: Amount,
    /// Interest accrued so far in the period, this day included.
    pub cumulative_accrued: Amount,
    pub created_at: Timestamp,
}

impl InterestAccrual {
    /// The invariant of every accrual record.
    pub open spec fn wf(self) -> bool {
        &&& !is_blank(self.account_id@)
        &&& self.balance.wf()
        &&& self.balance.value() >= 0
        &&& self.annual_rate.wf()
        &&& is_rate(self.annual_rate)
        &&& self.daily_interest.wf()
        &&& self.daily_interest.value() >= 0
        &&& self.cumulative_accrued.wf()
        &&& self.cumulative_accrued.value() >= 0
    }

    /// Records an accrual; amounts may not be negative and the rate lies in
    /// `[0, 1]`.
    pub fn new(
        account_id: String,
        accrual_date: Date,
        balance: Amount,
        annual_rate: Amount,
        daily_interest: Amount,
        cumulative_accrued: Amount,
    ) -> (r: Result<InterestAccrual, AppError>)
        requires
            balance.wf(),
            annual_rate.wf(),
            daily_interest.wf(),
            cumulative_accrued.wf(),
        ensures
            r is Ok <==> {
                &&& !is_blank(account_id@)
                &&& balance.value() >= 0
                &&& is_rate(annual_rate)
                &&& daily_interest.value() >= 0
                &&& cumulative_accrued.value() >= 0
            },
            r matches Err(e) ==> e is ValidationError,
            r matches Ok(a) ==> {
                &&& a.wf()
                &&& a.account_id == account_id
                &&& a.accrual_date == accrual_date
                &&& a.balance == balance
                &&& a.annual_rate == annual_rate
                &&& a.daily_interest == daily_interest
                &&& a.cumulative_accrued == cumulative_accrued
                &&& a.accrual_id@.subrange(0, 8) == "ACCRUAL-"@
            },
    {
        if blank(account_id.as_str()) {
            return Err(AppError::ValidationError(owned("Account ID cannot be empty")));
        }
        if balance.is_negative() {
            return Err(AppError::ValidationError(owned("Balance cannot be negative")));
        }
        if annual_rate.is_negative() || Amount::one().less_than(&annual_rate) {
            return Err(AppError::ValidationError(owned("Annual rate must be between 0 and 1")));
        }
        if daily_interest.is_negative() {
            return Err(AppError::ValidationError(owned("Daily interest cannot be negative")));
        }
        if cumulative_accrued.is_negative() {
            return Err(AppError::ValidationError(owned("Cumulative accrued cannot be negative")));
        }
        let id = new_uuid();
        let accrual_id = owned("ACCRUAL-").concat(id.as_str());
        proof {
            reveal_strlit("ACCRUAL-");
            assert(accrual_id@.subrange(0, 8) =~= "ACCRUAL-"@);
        }
        Ok(InterestAccrual {
            accrual_id,
            account_id,
            accrual_date,
            balance,
            annual_rate,
            daily_interest,
            cumulative_accrued,
            created_at: now(),
        })
    }

    /// Daily interest `(balance × annual_rate) / 365`. A negative balance or
    /// a rate outside `[0, 1]` is refused.
    pub fn calculate_daily_interest(balance: Amount, annual_rate: Amount) -> (r: Result<
        Amount,
        AppError,
    >)
        requires
            balance.wf(),
            annual_rate.wf(),
        ensures
            r is Ok <==> (balance.value() >= 0 && is_rate(annual_rate) && daily_interest_of(
                balance,
                annual_rate,
            ) is Some),
            r matches Ok(d) ==> daily_interest_of(balance, annual_rate) == Some(d) && d.wf()
                && d.value() >= 0,
            r matches Err(e) ==> e is ValidationError,
            balance.value() == 0 && is_rate(annual_rate) ==> r == Ok::<Amount, AppError>(
                Amount { mantissa: 0, scale: 0 },
            ),
    {
        if balance.is_negative() {
            return Err(AppError::ValidationError(owned("Balance cannot be negative")));
        }
        if annual_rate.is_negative() || Amount::one().less_than(&annual_rate) {
            return Err(AppError::ValidationError(owned("Annual rate must be between 0 and 1")));
        }
        let days = Amount::new(DAYS_IN_YEAR, 0);
        proof {
            crate::decimal::lemma_value_sign(balance);
            crate::decimal::lemma_value_sign(annual_rate);
            crate::decimal::lemma_value_sign(days);
        }
        match balance.checked_mul(&annual_rate) {
            None => Err(AppError::ValidationError(owned("Interest exceeds the supported range"))),
            Some(p) => {
            proof {
                crate::decimal::lemma_value_sign(p);
                crate::decimal::lemma_pow10_pos(28);
                crate::decimal::lemma_pow10_pos((MAX_SCALE - p.scale) as nat);
                assert(balance.value() * annual_rate.value() >= 0) by (nonlinear_arith)
                    requires
                        balance.value() >= 0,
                        annual_rate.value() >= 0,
                ;
                assert(p.value() >= 0) by (nonlinear_arith)
                    requires
                        p.value() * crate::decimal::pow10(28) >= 0,
                        crate::decimal::pow10(28) > 0,
                ;
                assert(days.value() > 0) by (nonlinear_arith)
                    requires
                        days.value() == 365 * crate::decimal::pow10(28),
                        crate::decimal::pow10(28) > 0,
                ;
            }
            match decimal_div(&p, &days) {
                None => Err(
                    AppError::ValidationError(owned("Interest exceeds the supported range")),
                ),
                Some(d) => Ok(d),
            }
            },
        }
    }
}

} // verus!
