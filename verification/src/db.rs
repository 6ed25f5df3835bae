//! Failures of the database layer.

use sea_orm::DbErr;
use vstd::prelude::*;

verus! {

/// `sea_orm::DbErr`, the error of every query and statement. The service
/// never looks inside it: it is carried from the store to the caller.
#[verifier::external_type_specification]
#[verifier::external_body]
pub struct ExDbErr(sea_orm::DbErr);

/// Why no connection to the database could be opened.
#[derive(Debug, PartialEq)]
pub enum DbError {
    /// The connection string is not configured.
    MissingUrl,
    /// The database refused or dropped the connection attempt.
    Connection(DbErr),
}

/// `text` is what `Display` prints for the store's error `cause`.
pub open spec fn printed_as(cause: &DbErr, text: String) -> bool {
    vstd::string::to_string_from_display_ensures::<DbErr>(cause, text)
}

impl DbError {
    /// `text` is the message of this error. A connection failure prints as
    /// its cause does.
    pub open spec fn prints_as(self, text: String) -> bool {
        match self {
            DbError::MissingUrl => text@ == "The database connection string is not set"@,
            DbError::Connection(cause) => printed_as(&cause, text),
        }
    }

    /// The message of this error.
    pub fn message(&self) -> (text: String)
        ensures
            self.prints_as(text),
    {
        match self {
            DbError::MissingUrl => "The database connection string is not set".to_string(),
            DbError::Connection(cause) => cause.to_string(),
        }
    }
}

} // verus!
