//! Customers that accounts belong to.

use vstd::prelude::*;
use vstd::string::*;
use crate::date::{now, Timestamp};
use crate::error::AppError;
use crate::ids::new_uuid;
use crate::text::{blank, has_char, is_blank, owned, same_text};

verus! {

#[derive(Clone, Copy, Debug, PartialEq, Eq, Structural)]
pub enum CustomerType {
    Individual,
    Business,
}

impl CustomerType {
    /// The canonical name, as stored.
    pub open spec fn label(self) -> Seq<char> {
        match self {
            CustomerType::Individual => "Individual"@,
            CustomerType::Business => "Business"@,
        }
    }

    pub fn as_str(&self) -> (r: &'static str)
        ensures
            r@ == self.label(),
    {
        match self {
            CustomerType::Individual => "Individual",
            CustomerType::Business => "Business",
        }
    }

    /// Reads a canonical name.
    pub fn from_str(s: &str) -> (r: Result<CustomerType, String>)
        ensures
            r is Ok <==> (s@ == "Individual"@ || s@ == "Business"@),
            r matches Ok(v) ==> v.label() == s@,
    {
        if same_text(s, "Individual") {
            Ok(CustomerType::Individual)
        } else if same_text(s, "Business") {
            Ok(CustomerType::Business)
        } else {
            Err(owned("Invalid customer type: ").concat(s))
        }
    }
}

#[derive(Clone, Copy, Debug, PartialEq, Eq, Structural)]
pub enum CustomerStatus {
    Active,
    Inactive,
    Suspended,
}

impl CustomerStatus {
    /// The canonical name, as stored.
    pub open spec fn label(self) -> Seq<char> {
        match self {
            CustomerStatus::Active => "Active"@,
            CustomerStatus::Inactive => "Inactive"@,
            CustomerStatus::Suspended => "Suspended"@,
        }
    }

    pub fn as_str(&self) -> (r: &'static str)
        ensures
            r@ == self.label(),
    {
        match self {
            CustomerStatus::Active => "Active",
            CustomerStatus::Inactive => "Inactive",
            CustomerStatus::Suspended => "Suspended",
        }
    }

    /// Reads a canonical name.
    pub fn from_str(s: &str) -> (r: Result<CustomerStatus, String>)
        ensures
            r is Ok <==> (s@ == "Active"@ || s@ == "Inactive"@ || s@ == "Suspended"@),
            r matches Ok(v) ==> v.label() == s@,
    {
        if same_text(s, "Active") {
            Ok(CustomerStatus::Active)
        } else if same_text(s, "Inactive") {
            Ok(CustomerStatus::Inactive)
        } else if same_text(s, "Suspended") {
            Ok(CustomerStatus::Suspended)
        } else {
            Err(owned("Invalid customer status: ").concat(s))
        }
    }
}

/// An e-mail address a customer may give: blank, or holding an `@`.
pub open spec fn acceptable_email(e: Seq<char>) -> bool {
    is_blank(e) || e.contains('@')
}

#[derive(Clone, Debug)]
pub struct Customer {
    pub customer_id: String,
    /// Identifier in an external system.
    pub external_customer_id: Option<String>,
    pub customer_name: String,
    pub customer_type: CustomerType,
    pub status: CustomerStatus,
    pub email: Option<String>,
    pub phone: Option<String>,
    pub created_at: Timestamp,
    pub updated_at: Timestamp,
}

impl Customer {
    /// The invariant of every customer: a name, and an acceptable e-mail
    /// address where one is given.
    pub open spec fn wf(self) -> bool {
        !is_blank(self.customer_name@) && (self.email matches Some(e) ==> acceptable_email(e@))
    }

    /// Registers an active customer.
    pub fn new(
        customer_name: String,
        customer_type: CustomerType,
        external_customer_id: Option<String>,
        email: Option<String>,
        phone: Option<String>,
    ) -> (r: Result<Customer, AppError>)
        ensures
            r is Ok <==> (!is_blank(customer_name@) && (email matches Some(e) ==> acceptable_email(
                e@,
            ))),
            r matches Err(e) ==> e is ValidationError,
            r matches Ok(c) ==> {
                &&& c.wf()
                &&& c.customer_name == customer_name
                &&& c.customer_type == customer_type
                &&& c.external_customer_id == external_customer_id
                &&& c.email == email
                &&& c.phone == phone
                &&& c.status == CustomerStatus::Active
                &&& c.customer_id@.subrange(0, 5) == "CUST-"@
            },
    {
        if blank(customer_name.as_str()) {
            return Err(AppError::ValidationError(owned("Customer name cannot be empty")));
        }
        if let Some(e) = &email {
            if !blank(e.as_str()) && !has_char(e.as_str(), '@') {
                return Err(AppError::ValidationError(owned("Invalid email address")));
            }
        }
        let at = now();
        let id = new_uuid();
        let customer_id = owned("CUST-").concat(id.as_str());
        proof {
            reveal_strlit("CUST-");
            assert(customer_id@.subrange(0, 5) =~= "CUST-"@);
        }
        Ok(Customer {
            customer_id,
            external_customer_id,
            customer_name,
            customer_type,
            status: CustomerStatus::Active,
            email,
            phone,
            created_at: at,
            updated_at: at,
        })
    }

    pub fn is_active(&self) -> (r: bool)
        ensures
            r == (self.status == CustomerStatus::Active),
    {
        self.status == CustomerStatus::Active
    }

    pub fn activate(&mut self)
        ensures
            *final(self) == (Customer {
                status: CustomerStatus::Active,
                updated_at: final(self).updated_at,
                ..*old(self)
            }),
    {
        self.status = CustomerStatus::Active;
        self.updated_at = now();
    }

    pub fn deactivate(&mut self)
        ensures
            *final(self) == (Customer {
                status: CustomerStatus::Inactive,
                updated_at: final(self).updated_at,
                ..*old(self)
            }),
    {
        self.status = CustomerStatus::Inactive;
        self.updated_at = now();
    }

    pub fn suspend(&mut self)
        ensures
            *final(self) == (Customer {
                status: CustomerStatus::Suspended,
                updated_at: final(self).updated_at,
                ..*old(self)
            }),
    {
        self.status = CustomerStatus::Suspended;
        self.updated_at = now();
    }

    /// Replaces the details that are given; every given one is checked
    /// first, and on an invalid one nothing changes.
    pub fn update(
        &mut self,
        customer_name: Option<String>,
        email: Option<String>,
        phone: Option<String>,
    ) -> (r: Result<(), AppError>)
        ensures
            r is Ok <==> ((customer_name matches Some(n) ==> !is_blank(n@)) && (email matches Some(
                e,
            ) ==> acceptable_email(e@))),
            r matches Err(e) ==> e is ValidationError,
            r is Err ==> *final(self) == *old(self),
            old(self).wf() ==> final(self).wf(),
            r is Ok ==> *final(self) == (Customer {
                customer_name: match customer_name {
                    Some(n) => n,
                    None => old(self).customer_name,
                },
                email: match email {
                    Some(e) => Some(e),
                    None => old(self).email,
                },
                phone: match phone {
                    Some(p) => Some(p),
                    None => old(self).phone,
                },
                updated_at: final(self).updated_at,
                ..*old(self)
            }),
    {
        if let Some(n) = &customer_name {
            if blank(n.as_str()) {
                return Err(AppError::ValidationError(owned("Customer name cannot be empty")));
            }
        }
        if let Some(e) = &email {
            if !blank(e.as_str()) && !has_char(e.as_str(), '@') {
                return Err(AppError::ValidationError(owned("Invalid email address")));
            }
        }
        if let Some(n) = customer_name {
            self.customer_name = n;
        }
        if let Some(e) = email {
            self.email = Some(e);
        }
        if let Some(p) = phone {
            self.phone = Some(p);
        }
        self.updated_at = now();
        Ok(())
    }
}

} // verus!
