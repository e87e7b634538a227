//! Users of the service and their roles.

use vstd::prelude::*;
use vstd::string::*;
use crate::date::{now, Timestamp};
use crate::error::AppError;
use crate::ids::new_uuid;
use crate::text::{blank, has_char, is_blank, owned, same_text};

verus! {

#[derive(Clone, Copy, Debug, PartialEq, Eq, Structural)]
pub enum UserRole {
    Admin,
    Officer,
    Viewer,
}

impl UserRole {
    /// The canonical name, as stored.
    pub open spec fn label(self) -> Seq<char> {
        match self {
            UserRole::Admin => "admin"@,
            UserRole::Officer => "officer"@,
            UserRole::Viewer => "viewer"@,
        }
    }

    pub fn as_str(&self) -> (r: &'static str)
        ensures
            r@ == self.label(),
    {
        match self {
            UserRole::Admin => "admin",
            UserRole::Officer => "officer",
            UserRole::Viewer => "viewer",
        }
    }

    /// Reads a canonical name.
    pub fn from_str(s: &str) -> (r: Result<UserRole, String>)
        ensures
            r is Ok <==> (s@ == "admin"@ || s@ == "officer"@ || s@ == "viewer"@),
            r matches Ok(v) ==> v.label() == s@,
    {
        if same_text(s, "admin") {
            Ok(UserRole::Admin)
        } else if same_text(s, "officer") {
            Ok(UserRole::Officer)
        } else if same_text(s, "viewer") {
            Ok(UserRole::Viewer)
        } else {
            Err(owned("Invalid user role: ").concat(s))
        }
    }
}

#[derive(Clone, Debug)]
pub struct User {
    pub user_id: String,
    pub username: String,
    /// Already hashed; never the password itself.
    pub password_hash: String,
    pub full_name: String,
    pub email: String,
    pub role: UserRole,
    /// "active" or "inactive".
    pub status: String,
    pub created_at: Timestamp,
    pub updated_at: Timestamp,
}

impl User {
    /// The invariant of every user: a username, a password hash, a full name
    /// and an e-mail address with an `@`.
    pub open spec fn wf(self) -> bool {
        &&& !is_blank(self.username@)
        &&& self.password_hash@.len() > 0
        &&& !is_blank(self.full_name@)
        &&& !is_blank(self.email@)
        &&& self.email@.contains('@')
    }

    /// Registers an active user from an already hashed password.
    pub fn new(
        username: String,
        password_hash: String,
        full_name: String,
        email: String,
        role: UserRole,
    ) -> (r: Result<User, AppError>)
        ensures
            r is Ok <==> (!is_blank(username@) && password_hash@.len() > 0 && !is_blank(
                full_name@,
            ) && !is_blank(email@) && email@.contains('@')),
            r matches Err(e) ==> e is ValidationError,
            r matches Ok(u) ==> {
                &&& u.wf()
                &&& u.username == username
                &&& u.password_hash == password_hash
                &&& u.full_name == full_name
                &&& u.email == email
                &&& u.role == role
                &&& u.status@ == "active"@
                &&& u.user_id@.subrange(0, 4) == "USR-"@
            },
    {
        if blank(username.as_str()) {
            return Err(AppError::ValidationError(owned("Username cannot be empty")));
        }
        if password_hash.as_str().unicode_len() == 0 {
            return Err(AppError::ValidationError(owned("Password hash cannot be empty")));
        }
        if blank(full_name.as_str()) {
            return Err(AppError::ValidationError(owned("Full name cannot be empty")));
        }
        if blank(email.as_str()) || !has_char(email.as_str(), '@') {
            return Err(AppError::ValidationError(owned("Invalid email address")));
        }
        let at = now();
        let id = new_uuid();
        let user_id = owned("USR-").concat(id.as_str());
        proof {
            reveal_strlit("USR-");
            assert(user_id@.subrange(0, 4) =~= "USR-"@);
        }
        Ok(User {
            user_id,
            username,
            password_hash,
            full_name,
            email,
            role,
            status: owned("active"),
            created_at: at,
            updated_at: at,
        })
    }

    pub fn is_active(&self) -> (r: bool)
        ensures
            r == (self.status@ == "active"@),
    {
        same_text(self.status.as_str(), "active")
    }

    pub fn is_admin(&self) -> (r: bool)
        ensures
            r == (self.role == UserRole::Admin),
    {
        self.role == UserRole::Admin
    }

    pub fn is_officer(&self) -> (r: bool)
        ensures
            r == (self.role == UserRole::Officer),
    {
        self.role == UserRole::Officer
    }

    pub fn deactivate(&mut self)
        ensures
            final(self).status@ == "inactive"@,
            *final(self) == (User {
                status: final(self).status,
                updated_at: final(self).updated_at,
                ..*old(self)
            }),
    {
        self.status = owned("inactive");
        self.updated_at = now();
    }

    pub fn activate(&mut self)
        ensures
            final(self).status@ == "active"@,
            *final(self) == (User {
                status: final(self).status,
                updated_at: final(self).updated_at,
                ..*old(self)
            }),
    {
        self.status = owned("active");
        self.updated_at = now();
    }
}

/// Shortest password accepted at registration, in characters.
pub const MIN_PASSWORD_LENGTH: usize = 8;

/// Checks what a registration supplies before anything is hashed or stored:
/// a username, a password of at least [`MIN_PASSWORD_LENGTH`] characters,
/// and an e-mail address with an `@`.
pub fn check_registration(username: &str, password: &str, email: &str) -> (r: Result<(), AppError>)
    ensures
        r is Ok <==> (!is_blank(username@) && password@.len() >= MIN_PASSWORD_LENGTH && !is_blank(
            email@,
        ) && email@.contains('@')),
        r matches Err(e) ==> e is ValidationError,
{
    if blank(username) || password.unicode_len() < MIN_PASSWORD_LENGTH {
        return Err(
            AppError::ValidationError(
                owned("Username is required and password must be at least 8 characters"),
            ),
        );
    }
    if blank(email) || !has_char(email, '@') {
        return Err(AppError::ValidationError(owned("Valid email address is required")));
    }
    Ok(())
}

} // verus!
