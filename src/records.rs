//! Storage rows: every column as plain text or integer, and the mapping
//! between rows and entities.
//!
//! Amounts are stored as exact decimal text, dates as `YYYY-MM-DD`, instants
//! as RFC 3339 and statuses by their canonical names. Names read back as
//! themselves (proved below); amounts, dates and instants read back through
//! the text forms of `rust_decimal` and `chrono`.

use vstd::prelude::*;
use vstd::string::*;
use crate::account::{Account, AccountStatus};
use crate::customer::{Customer, CustomerStatus, CustomerType};
use crate::user::{User, UserRole};
use crate::date::{
    format_date, format_timestamp, iso_date_text, parse_date, parse_timestamp, parsed_iso_date,
    parsed_rfc3339, rfc3339_text, Date, Timestamp,
};
use crate::decimal::{decimal_text, parsed_decimal, Amount};
use crate::error::AppError;
use crate::product::{is_rate, Product, ProductStatus};
use crate::text::{blank, is_blank, owned};
use crate::transaction::{Transaction, TransactionCategory, TransactionType};
use crate::validation::{is_currency_code, validate_currency_code};

verus! {

/// The status an account row names.
pub open spec fn account_status_named(s: Seq<char>) -> Option<AccountStatus> {
    if s == "Active"@ {
        Some(AccountStatus::Active)
    } else if s == "Closed"@ {
        Some(AccountStatus::Closed)
    } else {
        None
    }
}

/// The parsed amount, where the text holds one that is not negative.
pub open spec fn stored_amount(s: Seq<char>) -> Option<Amount> {
    match parsed_decimal(s) {
        Some(a) => if a.value() >= 0 {
            Some(a)
        } else {
            None
        },
        None => None,
    }
}

fn read_amount(text: &String) -> (r: Result<Amount, AppError>)
    ensures
        r is Ok <==> stored_amount(text@) is Some,
        r matches Ok(a) ==> stored_amount(text@) == Some(a) && a.wf(),
        r matches Err(e) ==> e is DatabaseError,
{
    match Amount::parse(text.as_str()) {
        Some(a) => if a.is_negative() {
            Err(AppError::DatabaseError(owned("Negative amount stored: ").concat(text.as_str())))
        } else {
            Ok(a)
        },
        None => Err(AppError::DatabaseError(owned("Invalid amount stored: ").concat(text.as_str()))),
    }
}

fn read_date(text: &String) -> (r: Result<Date, AppError>)
    ensures
        r is Ok <==> parsed_iso_date(text@) is Some,
        r matches Ok(d) ==> parsed_iso_date(text@) == Some(d) && d.wf(),
        r matches Err(e) ==> e is DatabaseError,
{
    match parse_date(text.as_str()) {
        Ok(d) => Ok(d),
        Err(m) => Err(AppError::DatabaseError(m)),
    }
}

fn read_timestamp(text: &String) -> (r: Result<Timestamp, AppError>)
    ensures
        r is Ok <==> parsed_rfc3339(text@) is Some,
        r matches Ok(t) ==> parsed_rfc3339(text@) == Some(t),
        r matches Err(e) ==> e is DatabaseError,
{
    match parse_timestamp(text.as_str()) {
        Ok(t) => Ok(t),
        Err(m) => Err(AppError::DatabaseError(m)),
    }
}

/// A row of the accounts table.
#[derive(Clone, Debug)]
pub struct AccountRow {
    pub account_id: String,
    pub account_number: String,
    pub product_id: String,
    pub customer_id: String,
    pub currency: String,
    pub balance: String,
    pub interest_accrued: String,
    pub status: String,
    pub opening_date: String,
    pub closing_date: Option<String>,
    pub created_at: String,
    pub updated_at: String,
    pub created_by: Option<String>,
    pub version: i64,
}

/// The closing date a row holds, where it holds a readable one or none.
pub open spec fn stored_closing_date(c: Option<String>) -> Option<Option<Date>> {
    match c {
        None => Some(None),
        Some(s) => match parsed_iso_date(s@) {
            Some(d) => Some(Some(d)),
            None => None,
        },
    }
}

/// The row describes a valid account.
pub open spec fn account_row_readable(row: AccountRow) -> bool {
    &&& !is_blank(row.account_id@)
    &&& is_currency_code(row.currency@)
    &&& account_status_named(row.status@) is Some
    &&& stored_amount(row.balance@) is Some
    &&& stored_amount(row.interest_accrued@) is Some
    &&& parsed_iso_date(row.opening_date@) is Some
    &&& stored_closing_date(row.closing_date) is Some
    &&& (account_status_named(row.status@) == Some(AccountStatus::Closed)
        <==> stored_closing_date(row.closing_date) != Some(None::<Date>))
    &&& parsed_rfc3339(row.created_at@) is Some
    &&& parsed_rfc3339(row.updated_at@) is Some
    &&& 0 <= row.version <= u32::MAX
}

/// The row to store for an account.
pub fn account_to_row(a: &Account) -> (r: AccountRow)
    requires
        a.wf(),
    ensures
        r.account_id == a.account_id,
        r.account_number == a.account_number,
        r.product_id == a.product_id,
        r.customer_id == a.customer_id,
        r.currency == a.currency,
        r.balance@ == decimal_text(a.balance),
        r.interest_accrued@ == decimal_text(a.interest_accrued),
        r.status@ == a.status.label(),
        r.opening_date@ == iso_date_text(a.opening_date),
        r.closing_date is Some <==> a.closing_date is Some,
        a.closing_date matches Some(d) ==> r.closing_date->Some_0@ == iso_date_text(d),
        r.created_at@ == rfc3339_text(a.created_at),
        r.updated_at@ == rfc3339_text(a.updated_at),
        r.created_by == a.created_by,
        r.version == a.version,
{
    let closing_date = match &a.closing_date {
        Some(d) => Some(format_date(d)),
        None => None,
    };
    AccountRow {
        account_id: a.account_id.clone(),
        account_number: a.account_number.clone(),
        product_id: a.product_id.clone(),
        customer_id: a.customer_id.clone(),
        currency: a.currency.clone(),
        balance: a.balance.to_text(),
        interest_accrued: a.interest_accrued.to_text(),
        status: owned(a.status.as_str()),
        opening_date: format_date(&a.opening_date),
        closing_date,
        created_at: format_timestamp(&a.created_at),
        updated_at: format_timestamp(&a.updated_at),
        created_by: a.created_by.clone(),
        version: a.version as i64,
    }
}

/// The account a stored row describes; a row that does not describe a
/// valid account is a storage error.
pub fn account_from_row(row: AccountRow) -> (r: Result<Account, AppError>)
    ensures
        r is Ok <==> account_row_readable(row),
        r matches Err(e) ==> e is DatabaseError,
        r matches Ok(a) ==> {
            &&& a.wf()
            &&& a.account_id == row.account_id
            &&& a.account_number == row.account_number
            &&& a.product_id == row.product_id
            &&& a.customer_id == row.customer_id
            &&& a.currency == row.currency
            &&& Some(a.status) == account_status_named(row.status@)
            &&& Some(a.balance) == stored_amount(row.balance@)
            &&& Some(a.interest_accrued) == stored_amount(row.interest_accrued@)
            &&& Some(a.opening_date) == parsed_iso_date(row.opening_date@)
            &&& Some(a.closing_date) == stored_closing_date(row.closing_date)
            &&& Some(a.created_at) == parsed_rfc3339(row.created_at@)
            &&& Some(a.updated_at) == parsed_rfc3339(row.updated_at@)
            &&& a.created_by == row.created_by
            &&& a.version == row.version
        },
{
    if blank(row.account_id.as_str()) {
        return Err(AppError::DatabaseError(owned("Stored account without an identifier")));
    }
    if let Err(m) = validate_currency_code(row.currency.as_str()) {
        return Err(AppError::DatabaseError(m));
    }
    let status = match AccountStatus::from_str(row.status.as_str()) {
        Ok(s) => s,
        Err(m) => {
            return Err(AppError::DatabaseError(m));
        },
    };
    proof {
        reveal_strlit("Active");
        reveal_strlit("Closed");
        assert("Closed"@[0] != "Active"@[0]);
        assert(account_status_named(row.status@) == Some(status));
    }
    let balance = match read_amount(&row.balance) {
        Ok(a) => a,
        Err(e) => {
            return Err(e);
        },
    };
    let interest_accrued = match read_amount(&row.interest_accrued) {
        Ok(a) => a,
        Err(e) => {
            return Err(e);
        },
    };
    let opening_date = match read_date(&row.opening_date) {
        Ok(d) => d,
        Err(e) => {
            return Err(e);
        },
    };
    let closing_date = match &row.closing_date {
        None => None,
        Some(text) => match read_date(text) {
            Ok(d) => Some(d),
            Err(e) => {
                return Err(e);
            },
        },
    };
    if (status == AccountStatus::Closed) != closing_date.is_some() {
        return Err(
            AppError::DatabaseError(owned("Stored account has a closing date out of step with its status")),
        );
    }
    let created_at = match read_timestamp(&row.created_at) {
        Ok(t) => t,
        Err(e) => {
            return Err(e);
        },
    };
    let updated_at = match read_timestamp(&row.updated_at) {
        Ok(t) => t,
        Err(e) => {
            return Err(e);
        },
    };
    if row.version < 0 || row.version > u32::MAX as i64 {
        return Err(AppError::DatabaseError(owned("Stored account version out of range")));
    }
    Ok(Account {
        account_id: row.account_id,
        account_number: row.account_number,
        customer_id: row.customer_id,
        product_id: row.product_id,
        currency: row.currency,
        status,
        balance,
        interest_accrued,
        opening_date,
        closing_date,
        created_at,
        updated_at,
        created_by: row.created_by,
        version: row.version as u32,
    })
}

/// The direction a transaction row names.
pub open spec fn transaction_type_named(s: Seq<char>) -> Option<TransactionType> {
    if s == "Debit"@ {
        Some(TransactionType::Debit)
    } else if s == "Credit"@ {
        Some(TransactionType::Credit)
    } else {
        None
    }
}

/// The category a transaction row names.
pub open spec fn category_named(s: Seq<char>) -> Option<TransactionCategory> {
    if s == "Deposit"@ {
        Some(TransactionCategory::Deposit)
    } else if s == "Withdrawal"@ {
        Some(TransactionCategory::Withdrawal)
    } else if s == "Fee"@ {
        Some(TransactionCategory::Fee)
    } else if s == "Interest"@ {
        Some(TransactionCategory::Interest)
    } else if s == "Opening"@ {
        Some(TransactionCategory::Opening)
    } else {
        None
    }
}

/// A row of the transactions table.
#[derive(Clone, Debug)]
pub struct TransactionRow {
    pub transaction_id: String,
    pub account_id: String,
    pub transaction_type: String,
    pub category: String,
    pub amount: String,
    pub currency: String,
    pub running_balance: String,
    pub description: String,
    pub reference: Option<String>,
    pub channel: String,
    pub transaction_date: String,
    pub value_date: String,
    pub created_at: String,
    pub created_by: Option<String>,
}

/// The row describes a valid posting.
pub open spec fn transaction_row_readable(row: TransactionRow) -> bool {
    &&& transaction_type_named(row.transaction_type@) is Some
    &&& category_named(row.category@) is Some
    &&& stored_amount(row.amount@) is Some
    &&& stored_amount(row.amount@)->Some_0.value() > 0
    &&& stored_amount(row.running_balance@) is Some
    &&& !is_blank(row.account_id@)
    &&& row.currency@.len() == 3
    &&& !is_blank(row.description@)
    &&& parsed_rfc3339(row.transaction_date@) is Some
    &&& parsed_iso_date(row.value_date@) is Some
    &&& parsed_rfc3339(row.created_at@) is Some
}

/// The row to store for a posting.
pub fn transaction_to_row(t: &Transaction) -> (r: TransactionRow)
    requires
        t.wf(),
    ensures
        r.transaction_id == t.transaction_id,
        r.account_id == t.account_id,
        r.transaction_type@ == t.transaction_type.label(),
        r.category@ == t.category.label(),
        r.amount@ == decimal_text(t.amount),
        r.currency == t.currency,
        r.running_balance@ == decimal_text(t.running_balance),
        r.description == t.description,
        r.reference == t.reference,
        r.channel == t.channel,
        r.transaction_date@ == rfc3339_text(t.transaction_date),
        r.value_date@ == iso_date_text(t.value_date),
        r.created_at@ == rfc3339_text(t.created_at),
        r.created_by == t.created_by,
{
    TransactionRow {
        transaction_id: t.transaction_id.clone(),
        account_id: t.account_id.clone(),
        transaction_type: owned(t.transaction_type.as_str()),
        category: owned(t.category.as_str()),
        amount: t.amount.to_text(),
        currency: t.currency.clone(),
        running_balance: t.running_balance.to_text(),
        description: t.description.clone(),
        reference: t.reference.clone(),
        channel: t.channel.clone(),
        transaction_date: format_timestamp(&t.transaction_date),
        value_date: format_date(&t.value_date),
        created_at: format_timestamp(&t.created_at),
        created_by: t.created_by.clone(),
    }
}

/// The posting a stored row describes, with status "Posted"; a row that
/// does not describe a valid posting is a storage error.
pub fn transaction_from_row(row: TransactionRow) -> (r: Result<Transaction, AppError>)
    ensures
        r is Ok <==> transaction_row_readable(row),
        r matches Err(e) ==> e is DatabaseError,
        r matches Ok(t) ==> {
            &&& t.wf()
            &&& t.transaction_id == row.transaction_id
            &&& t.account_id == row.account_id
            &&& Some(t.transaction_type) == transaction_type_named(row.transaction_type@)
            &&& Some(t.category) == category_named(row.category@)
            &&& Some(t.amount) == stored_amount(row.amount@)
            &&& t.currency == row.currency
            &&& Some(t.running_balance) == stored_amount(row.running_balance@)
            &&& t.description == row.description
            &&& t.reference == row.reference
            &&& t.channel == row.channel
            &&& Some(t.transaction_date) == parsed_rfc3339(row.transaction_date@)
            &&& Some(t.value_date) == parsed_iso_date(row.value_date@)
            &&& Some(t.created_at) == parsed_rfc3339(row.created_at@)
            &&& t.created_by == row.created_by
        },
{
    let transaction_type = match TransactionType::from_str(row.transaction_type.as_str()) {
        Ok(v) => v,
        Err(m) => {
            return Err(AppError::DatabaseError(m));
        },
    };
    let category = match TransactionCategory::from_str(row.category.as_str()) {
        Ok(v) => v,
        Err(m) => {
            return Err(AppError::DatabaseError(m));
        },
    };
    proof {
        reveal_strlit("Debit");
        reveal_strlit("Credit");
        reveal_strlit("Deposit");
        reveal_strlit("Withdrawal");
        reveal_strlit("Fee");
        reveal_strlit("Interest");
        reveal_strlit("Opening");
        assert("Credit"@[0] != "Debit"@[0]);
        assert("Withdrawal"@[0] != "Deposit"@[0]);
        assert("Fee"@[0] != "Deposit"@[0] && "Fee"@[0] != "Withdrawal"@[0]);
        assert("Interest"@[0] != "Deposit"@[0] && "Interest"@[0] != "Withdrawal"@[0]
            && "Interest"@[0] != "Fee"@[0]);
        assert("Opening"@[0] != "Deposit"@[0] && "Opening"@[0] != "Withdrawal"@[0]
            && "Opening"@[0] != "Fee"@[0] && "Opening"@[0] != "Interest"@[0]);
        assert(transaction_type_named(row.transaction_type@) == Some(transaction_type));
        assert(category_named(row.category@) == Some(category));
    }
    let amount = match read_amount(&row.amount) {
        Ok(a) => a,
        Err(e) => {
            return Err(e);
        },
    };
    if !amount.is_positive() {
        return Err(AppError::DatabaseError(owned("Stored posting with a zero amount")));
    }
    let running_balance = match read_amount(&row.running_balance) {
        Ok(a) => a,
        Err(e) => {
            return Err(e);
        },
    };
    if blank(row.account_id.as_str()) {
        return Err(AppError::DatabaseError(owned("Stored posting without an account")));
    }
    if row.currency.as_str().unicode_len() != 3 {
        return Err(AppError::DatabaseError(owned("Stored posting with an invalid currency")));
    }
    if blank(row.description.as_str()) {
        return Err(AppError::DatabaseError(owned("Stored posting without a description")));
    }
    let transaction_date = match read_timestamp(&row.transaction_date) {
        Ok(t) => t,
        Err(e) => {
            return Err(e);
        },
    };
    let value_date = match read_date(&row.value_date) {
        Ok(d) => d,
        Err(e) => {
            return Err(e);
        },
    };
    let created_at = match read_timestamp(&row.created_at) {
        Ok(t) => t,
        Err(e) => {
            return Err(e);
        },
    };
    let status = owned("Posted");
    Ok(Transaction {
        transaction_id: row.transaction_id,
        account_id: row.account_id,
        transaction_date,
        value_date,
        transaction_type,
        category,
        amount,
        currency: row.currency,
        running_balance,
        description: row.description,
        reference: row.reference,
        channel: row.channel,
        status,
        created_at,
        created_by: row.created_by,
    })
}

/// A row of the products table.
#[derive(Clone, Debug)]
pub struct ProductRow {
    pub product_id: String,
    pub product_name: String,
    pub product_code: String,
    pub description: Option<String>,
    pub status: String,
    pub currency: String,
    pub interest_rate: String,
    pub minimum_balance_for_interest: String,
    pub monthly_maintenance_fee: String,
    pub transaction_fee: String,
    pub created_at: String,
    pub updated_at: String,
    pub created_by: Option<String>,
}

/// The status a product row names.
pub open spec fn product_status_named(s: Seq<char>) -> Option<ProductStatus> {
    if s == "Active"@ {
        Some(ProductStatus::Active)
    } else if s == "Inactive"@ {
        Some(ProductStatus::Inactive)
    } else {
        None
    }
}

/// The row describes a valid product.
pub open spec fn product_row_readable(row: ProductRow) -> bool {
    &&& !is_blank(row.product_name@)
    &&& !is_blank(row.product_code@)
    &&& is_currency_code(row.currency@)
    &&& product_status_named(row.status@) is Some
    &&& stored_amount(row.interest_rate@) is Some
    &&& is_rate(stored_amount(row.interest_rate@)->Some_0)
    &&& stored_amount(row.minimum_balance_for_interest@) is Some
    &&& stored_amount(row.monthly_maintenance_fee@) is Some
    &&& stored_amount(row.transaction_fee@) is Some
    &&& parsed_rfc3339(row.created_at@) is Some
    &&& parsed_rfc3339(row.updated_at@) is Some
}

/// The row to store for a product.
pub fn product_to_row(p: &Product) -> (r: ProductRow)
    requires
        p.wf(),
    ensures
        r.product_id == p.product_id,
        r.product_name == p.product_name,
        r.product_code == p.product_code,
        r.description == p.description,
        r.status@ == p.status.label(),
        r.currency == p.currency,
        r.interest_rate@ == decimal_text(p.interest_rate),
        r.minimum_balance_for_interest@ == decimal_text(p.minimum_balance_for_interest),
        r.monthly_maintenance_fee@ == decimal_text(p.monthly_maintenance_fee),
        r.transaction_fee@ == decimal_text(p.transaction_fee),
        r.created_at@ == rfc3339_text(p.created_at),
        r.updated_at@ == rfc3339_text(p.updated_at),
        r.created_by == p.created_by,
{
    ProductRow {
        product_id: p.product_id.clone(),
        product_name: p.product_name.clone(),
        product_code: p.product_code.clone(),
        description: p.description.clone(),
        status: owned(p.status.as_str()),
        currency: p.currency.clone(),
        interest_rate: p.interest_rate.to_text(),
        minimum_balance_for_interest: p.minimum_balance_for_interest.to_text(),
        monthly_maintenance_fee: p.monthly_maintenance_fee.to_text(),
        transaction_fee: p.transaction_fee.to_text(),
        created_at: format_timestamp(&p.created_at),
        updated_at: format_timestamp(&p.updated_at),
        created_by: p.created_by.clone(),
    }
}

/// The product a stored row describes; a row that does not describe a
/// valid product is a storage error.
pub fn product_from_row(row: ProductRow) -> (r: Result<Product, AppError>)
    ensures
        r is Ok <==> product_row_readable(row),
        r matches Err(e) ==> e is DatabaseError,
        r matches Ok(p) ==> {
            &&& p.wf()
            &&& p.product_id == row.product_id
            &&& p.product_name == row.product_name
            &&& p.product_code == row.product_code
            &&& p.description == row.description
            &&& Some(p.status) == product_status_named(row.status@)
            &&& p.currency == row.currency
            &&& Some(p.interest_rate) == stored_amount(row.interest_rate@)
            &&& Some(p.minimum_balance_for_interest) == stored_amount(
                row.minimum_balance_for_interest@,
            )
            &&& Some(p.monthly_maintenance_fee) == stored_amount(row.monthly_maintenance_fee@)
            &&& Some(p.transaction_fee) == stored_amount(row.transaction_fee@)
            &&& Some(p.created_at) == parsed_rfc3339(row.created_at@)
            &&& Some(p.updated_at) == parsed_rfc3339(row.updated_at@)
            &&& p.created_by == row.created_by
        },
{
    if blank(row.product_name.as_str()) {
        return Err(AppError::DatabaseError(owned("Stored product without a name")));
    }
    if blank(row.product_code.as_str()) {
        return Err(AppError::DatabaseError(owned("Stored product without a code")));
    }
    if let Err(m) = validate_currency_code(row.currency.as_str()) {
        return Err(AppError::DatabaseError(m));
    }
    let status = match ProductStatus::from_str(row.status.as_str()) {
        Ok(s) => s,
        Err(m) => {
            return Err(AppError::DatabaseError(m));
        },
    };
    proof {
        reveal_strlit("Active");
        reveal_strlit("Inactive");
        assert("Inactive"@[0] != "Active"@[0]);
        assert(product_status_named(row.status@) == Some(status));
    }
    let interest_rate = match read_amount(&row.interest_rate) {
        Ok(a) => a,
        Err(e) => {
            return Err(e);
        },
    };
    if Amount::one().less_than(&interest_rate) {
        return Err(AppError::DatabaseError(owned("Stored product with a rate above 1")));
    }
    let minimum_balance_for_interest = match read_amount(&row.minimum_balance_for_interest) {
        Ok(a) => a,
        Err(e) => {
            return Err(e);
        },
    };
    let monthly_maintenance_fee = match read_amount(&row.monthly_maintenance_fee) {
        Ok(a) => a,
        Err(e) => {
            return Err(e);
        },
    };
    let transaction_fee = match read_amount(&row.transaction_fee) {
        Ok(a) => a,
        Err(e) => {
            return Err(e);
        },
    };
    let created_at = match read_timestamp(&row.created_at) {
        Ok(t) => t,
        Err(e) => {
            return Err(e);
        },
    };
    let updated_at = match read_timestamp(&row.updated_at) {
        Ok(t) => t,
        Err(e) => {
            return Err(e);
        },
    };
    Ok(Product {
        product_id: row.product_id,
        product_name: row.product_name,
        product_code: row.product_code,
        description: row.description,
        status,
        currency: row.currency,
        interest_rate,
        minimum_balance_for_interest,
        monthly_maintenance_fee,
        transaction_fee,
        created_at,
        updated_at,
        created_by: row.created_by,
    })
}

/// A row of the customers table.
#[derive(Clone, Debug)]
pub struct CustomerRow {
    pub customer_id: String,
    pub external_customer_id: Option<String>,
    pub customer_name: String,
    pub customer_type: String,
    pub status: String,
    pub email: Option<String>,
    pub phone: Option<String>,
    pub created_at: String,
    pub updated_at: String,
}

/// The row to store for a customer.
pub fn customer_to_row(c: &Customer) -> (r: CustomerRow)
    ensures
        r.customer_id == c.customer_id,
        r.external_customer_id == c.external_customer_id,
        r.customer_name == c.customer_name,
        r.customer_type@ == c.customer_type.label(),
        r.status@ == c.status.label(),
        r.email == c.email,
        r.phone == c.phone,
        r.created_at@ == rfc3339_text(c.created_at),
        r.updated_at@ == rfc3339_text(c.updated_at),
{
    CustomerRow {
        customer_id: c.customer_id.clone(),
        external_customer_id: c.external_customer_id.clone(),
        customer_name: c.customer_name.clone(),
        customer_type: owned(c.customer_type.as_str()),
        status: owned(c.status.as_str()),
        email: c.email.clone(),
        phone: c.phone.clone(),
        created_at: format_timestamp(&c.created_at),
        updated_at: format_timestamp(&c.updated_at),
    }
}

/// The customer a stored row describes; unknown names or unreadable
/// instants are a storage error.
pub fn customer_from_row(row: CustomerRow) -> (r: Result<Customer, AppError>)
    ensures
        r is Ok <==> {
            &&& (row.customer_type@ == "Individual"@ || row.customer_type@ == "Business"@)
            &&& (row.status@ == "Active"@ || row.status@ == "Inactive"@ || row.status@
                == "Suspended"@)
            &&& parsed_rfc3339(row.created_at@) is Some
            &&& parsed_rfc3339(row.updated_at@) is Some
        },
        r matches Err(e) ==> e is DatabaseError,
        r matches Ok(c) ==> {
            &&& c.customer_id == row.customer_id
            &&& c.external_customer_id == row.external_customer_id
            &&& c.customer_name == row.customer_name
            &&& c.customer_type.label() == row.customer_type@
            &&& c.status.label() == row.status@
            &&& c.email == row.email
            &&& c.phone == row.phone
            &&& Some(c.created_at) == parsed_rfc3339(row.created_at@)
            &&& Some(c.updated_at) == parsed_rfc3339(row.updated_at@)
        },
{
    let customer_type = match CustomerType::from_str(row.customer_type.as_str()) {
        Ok(v) => v,
        Err(m) => {
            return Err(AppError::DatabaseError(m));
        },
    };
    let status = match CustomerStatus::from_str(row.status.as_str()) {
        Ok(v) => v,
        Err(m) => {
            return Err(AppError::DatabaseError(m));
        },
    };
    let created_at = match read_timestamp(&row.created_at) {
        Ok(t) => t,
        Err(e) => {
            return Err(e);
        },
    };
    let updated_at = match read_timestamp(&row.updated_at) {
        Ok(t) => t,
        Err(e) => {
            return Err(e);
        },
    };
    Ok(Customer {
        customer_id: row.customer_id,
        external_customer_id: row.external_customer_id,
        customer_name: row.customer_name,
        customer_type,
        status,
        email: row.email,
        phone: row.phone,
        created_at,
        updated_at,
    })
}

/// A row of the users table.
#[derive(Clone, Debug)]
pub struct UserRow {
    pub user_id: String,
    pub username: String,
    pub password_hash: String,
    pub full_name: String,
    pub email: String,
    pub role: String,
    pub status: String,
    pub created_at: String,
    pub updated_at: String,
}

/// The row to store for a user.
pub fn user_to_row(u: &User) -> (r: UserRow)
    ensures
        r.user_id == u.user_id,
        r.username == u.username,
        r.password_hash == u.password_hash,
        r.full_name == u.full_name,
        r.email == u.email,
        r.role@ == u.role.label(),
        r.status == u.status,
        r.created_at@ == rfc3339_text(u.created_at),
        r.updated_at@ == rfc3339_text(u.updated_at),
{
    UserRow {
        user_id: u.user_id.clone(),
        username: u.username.clone(),
        password_hash: u.password_hash.clone(),
        full_name: u.full_name.clone(),
        email: u.email.clone(),
        role: owned(u.role.as_str()),
        status: u.status.clone(),
        created_at: format_timestamp(&u.created_at),
        updated_at: format_timestamp(&u.updated_at),
    }
}

/// The user a stored row describes; an unknown role or unreadable instants
/// are a storage error.
pub fn user_from_row(row: UserRow) -> (r: Result<User, AppError>)
    ensures
        r is Ok <==> {
            &&& (row.role@ == "admin"@ || row.role@ == "officer"@ || row.role@ == "viewer"@)
            &&& parsed_rfc3339(row.created_at@) is Some
            &&& parsed_rfc3339(row.updated_at@) is Some
        },
        r matches Err(e) ==> e is DatabaseError,
        r matches Ok(u) ==> {
            &&& u.user_id == row.user_id
            &&& u.username == row.username
            &&& u.password_hash == row.password_hash
            &&& u.full_name == row.full_name
            &&& u.email == row.email
            &&& u.role.label() == row.role@
            &&& u.status == row.status
            &&& Some(u.created_at) == parsed_rfc3339(row.created_at@)
            &&& Some(u.updated_at) == parsed_rfc3339(row.updated_at@)
        },
{
    let role = match UserRole::from_str(row.role.as_str()) {
        Ok(v) => v,
        Err(m) => {
            return Err(AppError::DatabaseError(m));
        },
    };
    let created_at = match read_timestamp(&row.created_at) {
        Ok(t) => t,
        Err(e) => {
            return Err(e);
        },
    };
    let updated_at = match read_timestamp(&row.updated_at) {
        Ok(t) => t,
        Err(e) => {
            return Err(e);
        },
    };
    Ok(User {
        user_id: row.user_id,
        username: row.username,
        password_hash: row.password_hash,
        full_name: row.full_name,
        email: row.email,
        role,
        status: row.status,
        created_at,
        updated_at,
    })
}

/// Every status, direction and category is read back from its stored
/// name as itself.
pub proof fn law_stored_names_read_back(
    s: AccountStatus,
    p: ProductStatus,
    t: TransactionType,
    c: TransactionCategory,
)
    ensures
        account_status_named(s.label()) == Some(s),
        product_status_named(p.label()) == Some(p),
        transaction_type_named(t.label()) == Some(t),
        category_named(c.label()) == Some(c),
{
    reveal_strlit("Active");
    reveal_strlit("Closed");
    reveal_strlit("Inactive");
    reveal_strlit("Debit");
    reveal_strlit("Credit");
    reveal_strlit("Deposit");
    reveal_strlit("Withdrawal");
    reveal_strlit("Fee");
    reveal_strlit("Interest");
    reveal_strlit("Opening");
    assert("Closed"@[0] != "Active"@[0]);
    assert("Inactive"@[0] != "Active"@[0]);
    assert("Credit"@[0] != "Debit"@[0]);
    assert("Withdrawal"@[0] != "Deposit"@[0]);
    assert("Fee"@[0] != "Deposit"@[0] && "Fee"@[0] != "Withdrawal"@[0]);
    assert("Interest"@[0] != "Deposit"@[0] && "Interest"@[0] != "Withdrawal"@[0] && "Interest"@[0]
        != "Fee"@[0]);
    assert("Opening"@[0] != "Deposit"@[0] && "Opening"@[0] != "Withdrawal"@[0] && "Opening"@[0]
        != "Fee"@[0] && "Opening"@[0] != "Interest"@[0]);
}

} // verus!
