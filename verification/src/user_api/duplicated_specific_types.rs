//! The user as a row of the store holds it: plain text, and the key of the row.

use vstd::prelude::*;
use super::Preferences;

verus! {

/// A row of the table of users.
#[derive(Debug, Clone, PartialEq, Eq)]
pub struct DbUser {
    pub row_id: u64,
    pub name: Option<String>,
    pub email: String,
    pub birthday: Option<String>,
    pub preferences: Preferences,
}

} // verus!
