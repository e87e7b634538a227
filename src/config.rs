//! Application configuration, built explicitly and handed to components.

use vstd::prelude::*;
use vstd::string::*;
use crate::text::owned;

verus! {

pub open spec fn default_database_url() -> Seq<char> {
    "../Database/accounts.db"@
}

pub open spec fn default_log_level() -> Seq<char> {
    "info"@
}

#[verifier::external_type_specification]
#[verifier::external_body]
pub struct ExPathBuf(std::path::PathBuf);

/// Relies on std's `PathBuf::from`: a path holding the given text.
#[verifier::external_body]
fn path_of(s: &str) -> (r: std::path::PathBuf) {
    std::path::PathBuf::from(s)
}

/// Where the database lives and how much to log.
#[derive(Debug, Clone)]
pub struct AppConfig {
    pub database_url: String,
    pub log_level: String,
}

impl Default for AppConfig {
    fn default() -> (r: AppConfig)
        ensures
            r.database_url@ == default_database_url(),
            r.log_level@ == default_log_level(),
    {
        AppConfig { database_url: owned("../Database/accounts.db"), log_level: owned("info") }
    }
}

impl AppConfig {
    /// The configuration from optional settings, each falling back to its default.
    pub fn from_settings(database_url: Option<String>, log_level: Option<String>) -> (r: AppConfig)
        ensures
            r.database_url@ == (match database_url {
                Some(u) => u@,
                None => default_database_url(),
            }),
            r.log_level@ == (match log_level {
                Some(l) => l@,
                None => default_log_level(),
            }),
    {
        let database_url = match database_url {
            Some(u) => u,
            None => owned("../Database/accounts.db"),
        };
        let log_level = match log_level {
            Some(l) => l,
            None => owned("info"),
        };
        AppConfig { database_url, log_level }
    }

    /// The database location as a path.
    pub fn database_path(&self) -> std::path::PathBuf {
        path_of(self.database_url.as_str())
    }

    /// Accepts any configuration with a database location.
    pub fn validate(&self) -> (r: Result<(), String>)
        ensures
            r is Ok <==> self.database_url@.len() > 0,
    {
        if self.database_url.as_str().unicode_len() == 0 {
            return Err(owned("Database URL cannot be empty"));
        }
        Ok(())
    }
}

} // verus!
