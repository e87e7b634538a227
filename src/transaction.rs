//! Postings: the immutable records of balance changes.

use vstd::prelude::*;
use vstd::string::*;
use crate::date::{now_with_date, utc_date_of, Date, Timestamp};
use crate::decimal::Amount;
use crate::error::AppError;
use crate::ids::new_uuid;
use crate::text::{blank, is_blank, owned, same_text};

verus! {

/// Direction of a posting.
#[derive(Clone, Copy, Debug, PartialEq, Eq, Structural)]
pub enum TransactionType {
    Debit,
    Credit,
}

impl TransactionType {
    /// The canonical name, as stored.
    pub open spec fn label(self) -> Seq<char> {
        match self {
            TransactionType::Debit => "Debit"@,
            TransactionType::Credit => "Credit"@,
        }
    }

    pub fn as_str(&self) -> (r: &'static str)
        ensures
            r@ == self.label(),
    {
        match self {
            TransactionType::Debit => "Debit",
            TransactionType::Credit => "Credit",
        }
    }

    /// Reads a canonical name.
    pub fn from_str(s: &str) -> (r: Result<TransactionType, String>)
        ensures
            r is Ok <==> (s@ == "Debit"@ || s@ == "Credit"@),
            r matches Ok(v) ==> v.label() == s@,
    {
        if same_text(s, "Debit") {
            Ok(TransactionType::Debit)
        } else if same_text(s, "Credit") {
            Ok(TransactionType::Credit)
        } else {
            Err(owned("Invalid transaction type: ").concat(s))
        }
    }
}

/// What a posting is for.
#[derive(Clone, Copy, Debug, PartialEq, Eq, Structural)]
pub enum TransactionCategory {
    Deposit,
    Withdrawal,
    Fee,
    Interest,
    Opening,
}

impl TransactionCategory {
    /// The canonical name, as stored.
    pub open spec fn label(self) -> Seq<char> {
        match self {
            TransactionCategory::Deposit => "Deposit"@,
            TransactionCategory::Withdrawal => "Withdrawal"@,
            TransactionCategory::Fee => "Fee"@,
            TransactionCategory::Interest => "Interest"@,
            TransactionCategory::Opening => "Opening"@,
        }
    }

    pub fn as_str(&self) -> (r: &'static str)
        ensures
            r@ == self.label(),
    {
        match self {
            TransactionCategory::Deposit => "Deposit",
            TransactionCategory::Withdrawal => "Withdrawal",
            TransactionCategory::Fee => "Fee",
            TransactionCategory::Interest => "Interest",
            TransactionCategory::Opening => "Opening",
        }
    }

    /// Reads a canonical name.
    pub fn from_str(s: &str) -> (r: Result<TransactionCategory, String>)
        ensures
            r is Ok <==> (s@ == "Deposit"@ || s@ == "Withdrawal"@ || s@ == "Fee"@ || s@
                == "Interest"@ || s@ == "Opening"@),
            r matches Ok(v) ==> v.label() == s@,
    {
        if same_text(s, "Deposit") {
            Ok(TransactionCategory::Deposit)
        } else if same_text(s, "Withdrawal") {
            Ok(TransactionCategory::Withdrawal)
        } else if same_text(s, "Fee") {
            Ok(TransactionCategory::Fee)
        } else if same_text(s, "Interest") {
            Ok(TransactionCategory::Interest)
        } else if same_text(s, "Opening") {
            Ok(TransactionCategory::Opening)
        } else {
            Err(owned("Invalid transaction category: ").concat(s))
        }
    }
}

/// One posting against an account.
#[derive(Clone, Debug)]
pub struct Transaction {
    pub transaction_id: String,
    pub account_id: String,
    pub transaction_date: Timestamp,
    pub value_date: Date,
    pub transaction_type: TransactionType,
    pub category: TransactionCategory,
    pub amount: Amount,
    pub currency: String,
    /// The account's balance right after this posting.
    pub running_balance: Amount,
    pub description: String,
    pub reference: Option<String>,
    /// Where the posting came from ("API", "Batch").
    pub channel: String,
    /// Always "Posted".
    pub status: String,
    pub created_at: Timestamp,
    pub created_by: Option<String>,
}

impl Transaction {
    /// The invariant of every posting.
    pub open spec fn wf(self) -> bool {
        &&& !is_blank(self.account_id@)
        &&& self.amount.wf()
        &&& self.amount.value() > 0
        &&& self.currency@.len() == 3
        &&& self.running_balance.wf()
        &&& self.running_balance.value() >= 0
        &&& !is_blank(self.description@)
        &&& self.status@ == "Posted"@
        &&& self.value_date.wf()
    }

    /// The inputs a posting can be made from.
    pub open spec fn valid_inputs(
        account_id: Seq<char>,
        amount: Amount,
        currency: Seq<char>,
        running_balance: Amount,
        description: Seq<char>,
    ) -> bool {
        &&& !is_blank(account_id)
        &&& amount.value() > 0
        &&& currency.len() == 3
        &&& running_balance.value() >= 0
        &&& !is_blank(description)
    }

    /// Makes a posting, stamped now, with status "Posted".
    pub fn new(
        account_id: String,
        transaction_type: TransactionType,
        category: TransactionCategory,
        amount: Amount,
        currency: String,
        running_balance: Amount,
        description: String,
        reference: Option<String>,
        channel: String,
        created_by: Option<String>,
    ) -> (r: Result<Transaction, AppError>)
        requires
            amount.wf(),
            running_balance.wf(),
        ensures
            r is Ok <==> Self::valid_inputs(
                account_id@,
                amount,
                currency@,
                running_balance,
                description@,
            ),
            r matches Err(e) ==> e is ValidationError,
            r matches Ok(t) ==> {
                &&& t.wf()
                &&& t.account_id == account_id
                &&& t.transaction_type == transaction_type
                &&& t.category == category
                &&& t.amount == amount
                &&& t.currency == currency
                &&& t.running_balance == running_balance
                &&& t.description == description
                &&& t.reference == reference
                &&& t.channel == channel
                &&& t.created_by == created_by
                &&& t.status@ == "Posted"@
                &&& t.created_at == t.transaction_date
                &&& Some(t.value_date) == utc_date_of(t.transaction_date)
                &&& t.transaction_id@.subrange(0, 4) == "TXN-"@
            },
    {
        if blank(account_id.as_str()) {
            return Err(AppError::ValidationError(owned("Account ID cannot be empty")));
        }
        if !amount.is_positive() {
            return Err(AppError::ValidationError(owned("Transaction amount must be positive")));
        }
        if currency.as_str().unicode_len() != 3 {
            return Err(
                AppError::ValidationError(owned("Currency code must be exactly 3 characters")),
            );
        }
        if running_balance.is_negative() {
            return Err(AppError::ValidationError(owned("Running balance cannot be negative")));
        }
        if blank(description.as_str()) {
            return Err(AppError::ValidationError(owned("Description cannot be empty")));
        }
        let (at, value_date) = now_with_date();
        let id = new_uuid();
        let transaction_id = owned("TXN-").concat(id.as_str());
        proof {
            reveal_strlit("TXN-");
            assert(transaction_id@.subrange(0, 4) =~= "TXN-"@);
        }
        Ok(Transaction {
            transaction_id,
            account_id,
            transaction_date: at,
            value_date,
            transaction_type,
            category,
            amount,
            currency,
            running_balance,
            description,
            reference,
            channel,
            status: owned("Posted"),
            created_at: at,
            created_by,
        })
    }

    pub fn is_debit(&self) -> (r: bool)
        ensures
            r == (self.transaction_type == TransactionType::Debit),
    {
        self.transaction_type == TransactionType::Debit
    }

    pub fn is_credit(&self) -> (r: bool)
        ensures
            r == (self.transaction_type == TransactionType::Credit),
    {
        self.transaction_type == TransactionType::Credit
    }

    pub fn is_fee(&self) -> (r: bool)
        ensures
            r == (self.category == TransactionCategory::Fee),
    {
        self.category == TransactionCategory::Fee
    }

    pub fn is_interest(&self) -> (r: bool)
        ensures
            r == (self.category == TransactionCategory::Interest),
    {
        self.category == TransactionCategory::Interest
    }
}

} // verus!
