//! Input validation rules.

use vstd::prelude::*;
use vstd::string::*;
use crate::decimal::{pow10, Amount};
use crate::text::{blank, has_char, is_blank, owned};

verus! {

/// Exactly three upper-case ASCII letters.
pub open spec fn is_currency_code(s: Seq<char>) -> bool {
    s.len() == 3 && forall|i: int| 0 <= i < 3 ==> 'A' <= #[trigger] s[i] <= 'Z'
}

/// Not blank, with an `@` and a `.` somewhere.
pub open spec fn is_plausible_email(s: Seq<char>) -> bool {
    !is_blank(s) && s.contains('@') && s.contains('.')
}

/// Exactly ten ASCII digits.
pub open spec fn is_account_number(s: Seq<char>) -> bool {
    s.len() == 10 && forall|i: int| 0 <= i < 10 ==> '0' <= #[trigger] s[i] <= '9'
}

fn all_uppercase(s: &str) -> (r: bool)
    ensures
        r == forall|i: int| 0 <= i < s@.len() ==> 'A' <= #[trigger] s@[i] <= 'Z',
{
    let n = s.unicode_len();
    let mut i: usize = 0;
    while i < n
        invariant
            n == s@.len(),
            i <= n,
            forall|j: int| 0 <= j < i ==> 'A' <= #[trigger] s@[j] <= 'Z',
        decreases n - i,
    {
        let c = s.get_char(i);
        if !('A' <= c && c <= 'Z') {
            return false;
        }
        i = i + 1;
    }
    true
}

fn all_digits(s: &str) -> (r: bool)
    ensures
        r == forall|i: int| 0 <= i < s@.len() ==> '0' <= #[trigger] s@[i] <= '9',
{
    let n = s.unicode_len();
    let mut i: usize = 0;
    while i < n
        invariant
            n == s@.len(),
            i <= n,
            forall|j: int| 0 <= j < i ==> '0' <= #[trigger] s@[j] <= '9',
        decreases n - i,
    {
        let c = s.get_char(i);
        if !('0' <= c && c <= '9') {
            return false;
        }
        i = i + 1;
    }
    true
}

/// Accepts exactly three upper-case letters (`"USD"`).
pub fn validate_currency_code(code: &str) -> (r: Result<(), String>)
    ensures
        r is Ok <==> is_currency_code(code@),
{
    if code.unicode_len() != 3 {
        return Err(owned("Currency code must be exactly 3 characters, got: ").concat(code));
    }
    if !all_uppercase(code) {
        return Err(owned("Currency code must be uppercase letters, got: ").concat(code));
    }
    Ok(())
}

/// Accepts a non-blank address holding an `@` and a `.`.
pub fn validate_email(email: &str) -> (r: Result<(), String>)
    ensures
        r is Ok <==> is_plausible_email(email@),
{
    if blank(email) {
        return Err(owned("Email cannot be empty"));
    }
    if !has_char(email, '@') {
        return Err(owned("Email must contain @"));
    }
    if !has_char(email, '.') {
        return Err(owned("Email must contain a domain"));
    }
    Ok(())
}

/// Accepts exactly ten digits.
pub fn validate_account_number(account_number: &str) -> (r: Result<(), String>)
    ensures
        r is Ok <==> is_account_number(account_number@),
{
    if blank(account_number) {
        proof {
            if account_number@.len() == 10 {
                assert(crate::text::is_space(account_number@[0]));
            }
        }
        return Err(owned("Account number cannot be empty"));
    }
    if !all_digits(account_number) {
        return Err(owned("Account number must contain only digits"));
    }
    if account_number.unicode_len() != 10 {
        return Err(owned("Account number must be exactly 10 digits"));
    }
    Ok(())
}

/// Accepts an amount above zero.
pub fn validate_positive_amount(amount: Amount) -> (r: Result<(), String>)
    requires
        amount.wf(),
    ensures
        r is Ok <==> amount.value() > 0,
{
    if !amount.is_positive() {
        return Err(owned("Amount must be positive"));
    }
    Ok(())
}

/// Accepts an amount of zero or more.
pub fn validate_non_negative_amount(amount: Amount) -> (r: Result<(), String>)
    requires
        amount.wf(),
    ensures
        r is Ok <==> amount.value() >= 0,
{
    if amount.is_negative() {
        return Err(owned("Amount cannot be negative"));
    }
    Ok(())
}

/// Accepts a fraction between 0 and 1 inclusive.
pub fn validate_percentage(rate: Amount) -> (r: Result<(), String>)
    requires
        rate.wf(),
    ensures
        r is Ok <==> (0 <= rate.value() <= pow10(28)),
{
    if rate.is_negative() || Amount::one().less_than(&rate) {
        return Err(owned("Percentage must be between 0 and 1, got: ").concat(rate.to_text().as_str()));
    }
    Ok(())
}

} // verus!
