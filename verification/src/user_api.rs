//! Creating a user account, with one type for each kind of value a user is
//! made of, so that a name is never taken for an email address.

use vstd::prelude::*;
use vstd::std_specs::convert::FromSpecImpl;

pub mod duplicated_specific_types;
pub mod simple_types;

verus! {

/// `time::Date`, a calendar date. Nothing here looks into one: a date is
/// carried from the request to the stored user as it came.
#[verifier::external_type_specification]
#[verifier::external_body]
pub struct ExDate(time::Date);

/// What the user has chosen. Nothing can be chosen yet.
#[derive(Debug, Clone, Copy, PartialEq, Eq, Structural)]
pub struct Preferences {}

/// A user's name.
#[derive(Debug, Clone, PartialEq, Eq)]
pub struct Name(pub String);

/// A user's email address.
#[derive(Debug, Clone, PartialEq, Eq)]
pub struct Email(pub String);

/// A user's date of birth.
#[derive(Debug, Clone, Copy, PartialEq, Eq)]
pub struct Birthday(pub time::Date);

/// The user could not be created.
#[derive(Debug, Clone, Copy, PartialEq, Eq, Structural)]
pub struct CreateUserError;

/// The store of users failed.
#[derive(Debug, Clone, Copy, PartialEq, Eq, Structural)]
pub struct DbError;

/// The request and the stored user contradict each other.
#[derive(Debug, Clone, Copy, PartialEq, Eq, Structural)]
pub struct MergeError;

impl From<DbError> for CreateUserError {
    fn from(_error: DbError) -> (error: Self) {
        CreateUserError
    }
}

impl FromSpecImpl<DbError> for CreateUserError {
    open spec fn obeys_from_spec() -> bool {
        true
    }

    open spec fn from_spec(_error: DbError) -> Self {
        CreateUserError
    }
}

impl From<MergeError> for CreateUserError {
    fn from(_error: MergeError) -> (error: Self) {
        CreateUserError
    }
}

impl FromSpecImpl<MergeError> for CreateUserError {
    open spec fn obeys_from_spec() -> bool {
        true
    }

    open spec fn from_spec(_error: MergeError) -> Self {
        CreateUserError
    }
}

} // verus!
