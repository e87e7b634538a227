//! Products: the rate and fee terms an account is opened under.

use vstd::prelude::*;
use vstd::string::*;
use crate::date::{now, Timestamp};
use crate::decimal::{pow10, Amount};
use crate::error::AppError;
use crate::ids::new_uuid;
use crate::text::{blank, is_blank, owned, same_text};
use crate::validation::{is_currency_code, validate_currency_code};

verus! {

/// Whether new accounts may be opened under a product.
#[derive(Clone, Copy, Debug, PartialEq, Eq, Structural)]
pub enum ProductStatus {
    Active,
    Inactive,
}

impl ProductStatus {
    /// The canonical name, as stored.
    pub open spec fn label(self) -> Seq<char> {
        match self {
            ProductStatus::Active => "Active"@,
            ProductStatus::Inactive => "Inactive"@,
        }
    }

    pub fn as_str(&self) -> (r: &'static str)
        ensures
            r@ == self.label(),
    {
        match self {
            ProductStatus::Active => "Active",
            ProductStatus::Inactive => "Inactive",
        }
    }

    /// Reads a canonical name.
    pub fn from_str(s: &str) -> (r: Result<ProductStatus, String>)
        ensures
            r is Ok <==> (s@ == "Active"@ || s@ == "Inactive"@),
            r matches Ok(v) ==> v.label() == s@,
    {
        if same_text(s, "Active") {
            Ok(ProductStatus::Active)
        } else if same_text(s, "Inactive") {
            Ok(ProductStatus::Inactive)
        } else {
            Err(owned("Invalid product status: ").concat(s))
        }
    }
}

/// An annual rate between 0 and 1 inclusive.
pub open spec fn is_rate(r: Amount) -> bool {
    0 <= r.value() <= pow10(28)
}

/// A product of the catalog.
#[derive(Clone, Debug)]
pub struct Product {
    pub product_id: String,
    pub product_name: String,
    pub product_code: String,
    pub description: Option<String>,
    pub status: ProductStatus,
    pub currency: String,
    /// Annual rate, `0.025` for 2.5%.
    pub interest_rate: Amount,
    pub minimum_balance_for_interest: Amount,
    pub monthly_maintenance_fee: Amount,
    pub transaction_fee: Amount,
    pub created_at: Timestamp,
    pub updated_at: Timestamp,
    pub created_by: Option<String>,
}

impl Product {
    /// The invariant of every product.
    pub open spec fn wf(self) -> bool {
        &&& !is_blank(self.product_name@)
        &&& !is_blank(self.product_code@)
        &&& is_currency_code(self.currency@)
        &&& self.interest_rate.wf()
        &&& is_rate(self.interest_rate)
        &&& self.minimum_balance_for_interest.wf()
        &&& self.minimum_balance_for_interest.value() >= 0
        &&& self.monthly_maintenance_fee.wf()
        &&& self.monthly_maintenance_fee.value() >= 0
        &&& self.transaction_fee.wf()
        &&& self.transaction_fee.value() >= 0
    }

    /// Defines an active product.
    pub fn new(
        product_name: String,
        product_code: String,
        description: Option<String>,
        currency: String,
        interest_rate: Amount,
        minimum_balance_for_interest: Amount,
        monthly_maintenance_fee: Amount,
        transaction_fee: Amount,
        created_by: Option<String>,
    ) -> (r: Result<Product, AppError>)
        requires
            interest_rate.wf(),
            minimum_balance_for_interest.wf(),
            monthly_maintenance_fee.wf(),
            transaction_fee.wf(),
        ensures
            r is Ok <==> {
                &&& !is_blank(product_name@)
                &&& !is_blank(product_code@)
                &&& is_currency_code(currency@)
                &&& is_rate(interest_rate)
                &&& minimum_balance_for_interest.value() >= 0
                &&& monthly_maintenance_fee.value() >= 0
                &&& transaction_fee.value() >= 0
            },
            r matches Err(e) ==> e is ValidationError,
            r matches Ok(p) ==> {
                &&& p.wf()
                &&& p.product_name == product_name
                &&& p.product_code == product_code
                &&& p.description == description
                &&& p.currency == currency
                &&& p.status == ProductStatus::Active
                &&& p.interest_rate == interest_rate
                &&& p.minimum_balance_for_interest == minimum_balance_for_interest
                &&& p.monthly_maintenance_fee == monthly_maintenance_fee
                &&& p.transaction_fee == transaction_fee
                &&& p.created_by == created_by
                &&& p.product_id@.subrange(0, 5) == "PROD-"@
            },
    {
        if blank(product_name.as_str()) {
            return Err(AppError::ValidationError(owned("Product name cannot be empty")));
        }
        if blank(product_code.as_str()) {
            return Err(AppError::ValidationError(owned("Product code cannot be empty")));
        }
        if let Err(m) = validate_currency_code(currency.as_str()) {
            return Err(AppError::ValidationError(m));
        }
        if interest_rate.is_negative() || Amount::one().less_than(&interest_rate) {
            return Err(AppError::ValidationError(owned("Interest rate must be between 0 and 1")));
        }
        if minimum_balance_for_interest.is_negative() {
            return Err(
                AppError::ValidationError(owned("Minimum balance for interest cannot be negative")),
            );
        }
        if monthly_maintenance_fee.is_negative() {
            return Err(AppError::ValidationError(owned("Monthly maintenance fee cannot be negative")));
        }
        if transaction_fee.is_negative() {
            return Err(AppError::ValidationError(owned("Transaction fee cannot be negative")));
        }
        let at = now();
        let id = new_uuid();
        let product_id = owned("PROD-").concat(id.as_str());
        proof {
            reveal_strlit("PROD-");
            assert(product_id@.subrange(0, 5) =~= "PROD-"@);
        }
        Ok(Product {
            product_id,
            product_name,
            product_code,
            description,
            status: ProductStatus::Active,
            currency,
            interest_rate,
            minimum_balance_for_interest,
            monthly_maintenance_fee,
            transaction_fee,
            created_at: at,
            updated_at: at,
            created_by,
        })
    }

    pub fn is_active(&self) -> (r: bool)
        ensures
            r == (self.status == ProductStatus::Active),
    {
        self.status == ProductStatus::Active
    }

    pub fn activate(&mut self)
        ensures
            old(self).wf() ==> final(self).wf(),
            *final(self) == (Product {
                status: ProductStatus::Active,
                updated_at: final(self).updated_at,
                ..*old(self)
            }),
    {
        self.status = ProductStatus::Active;
        self.updated_at = now();
    }

    pub fn deactivate(&mut self)
        ensures
            old(self).wf() ==> final(self).wf(),
            *final(self) == (Product {
                status: ProductStatus::Inactive,
                updated_at: final(self).updated_at,
                ..*old(self)
            }),
    {
        self.status = ProductStatus::Inactive;
        self.updated_at = now();
    }

    /// Replaces the terms that are given. Every given value is checked
    /// first; on an invalid one nothing changes.
    pub fn update(
        &mut self,
        product_name: Option<String>,
        description: Option<String>,
        interest_rate: Option<Amount>,
        minimum_balance_for_interest: Option<Amount>,
        monthly_maintenance_fee: Option<Amount>,
        transaction_fee: Option<Amount>,
    ) -> (r: Result<(), AppError>)
        requires
            interest_rate matches Some(v) ==> v.wf(),
            minimum_balance_for_interest matches Some(v) ==> v.wf(),
            monthly_maintenance_fee matches Some(v) ==> v.wf(),
            transaction_fee matches Some(v) ==> v.wf(),
        ensures
            r is Ok <==> {
                &&& (product_name matches Some(n) ==> !is_blank(n@))
                &&& (interest_rate matches Some(v) ==> is_rate(v))
                &&& (minimum_balance_for_interest matches Some(v) ==> v.value() >= 0)
                &&& (monthly_maintenance_fee matches Some(v) ==> v.value() >= 0)
                &&& (transaction_fee matches Some(v) ==> v.value() >= 0)
            },
            r matches Err(e) ==> e is ValidationError,
            r is Err ==> *final(self) == *old(self),
            old(self).wf() ==> final(self).wf(),
            r is Ok ==> {
                &&& final(self).product_id == old(self).product_id
                &&& final(self).product_code == old(self).product_code
                &&& final(self).status == old(self).status
                &&& final(self).currency == old(self).currency
                &&& final(self).created_at == old(self).created_at
                &&& final(self).created_by == old(self).created_by
                &&& final(self).product_name == (match product_name {
                    Some(n) => n,
                    None => old(self).product_name,
                })
                &&& final(self).description == (match description {
                    Some(d) => Some(d),
                    None => old(self).description,
                })
                &&& final(self).interest_rate == (match interest_rate {
                    Some(v) => v,
                    None => old(self).interest_rate,
                })
                &&& final(self).minimum_balance_for_interest == (
                match minimum_balance_for_interest {
                    Some(v) => v,
                    None => old(self).minimum_balance_for_interest,
                })
                &&& final(self).monthly_maintenance_fee == (match monthly_maintenance_fee {
                    Some(v) => v,
                    None => old(self).monthly_maintenance_fee,
                })
                &&& final(self).transaction_fee == (match transaction_fee {
                    Some(v) => v,
                    None => old(self).transaction_fee,
                })
            },
    {
        if let Some(n) = &product_name {
            if blank(n.as_str()) {
                return Err(AppError::ValidationError(owned("Product name cannot be empty")));
            }
        }
        if let Some(v) = &interest_rate {
            if v.is_negative() || Amount::one().less_than(v) {
                return Err(AppError::ValidationError(owned("Interest rate must be between 0 and 1")));
            }
        }
        if let Some(v) = &minimum_balance_for_interest {
            if v.is_negative() {
                return Err(AppError::ValidationError(owned("Minimum balance cannot be negative")));
            }
        }
        if let Some(v) = &monthly_maintenance_fee {
            if v.is_negative() {
                return Err(AppError::ValidationError(owned("Monthly fee cannot be negative")));
            }
        }
        if let Some(v) = &transaction_fee {
            if v.is_negative() {
                return Err(AppError::ValidationError(owned("Transaction fee cannot be negative")));
            }
        }
        if let Some(n) = product_name {
            self.product_name = n;
        }
        if let Some(d) = description {
            self.description = Some(d);
        }
        if let Some(v) = interest_rate {
            self.interest_rate = v;
        }
        if let Some(v) = minimum_balance_for_interest {
            self.minimum_balance_for_interest = v;
        }
        if let Some(v) = monthly_maintenance_fee {
            self.monthly_maintenance_fee = v;
        }
        if let Some(v) = transaction_fee {
            self.transaction_fee = v;
        }
        self.updated_at = now();
        Ok(())
    }
}

} // verus!
