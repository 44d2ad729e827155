//! One type of user for the request, the store and the answer.

use vstd::prelude::*;
use super::{Birthday, CreateUserError, DbError, Email, MergeError, Name, Preferences};

verus! {

/// A user: the address, and what else is known.
#[derive(Debug, Clone, PartialEq, Eq)]
pub struct User {
    pub name: Option<Name>,
    pub email: Email,
    pub birthday: Option<Birthday>,
    pub preferences: Preferences,
}

/// Whether an address can be one: it holds an at sign.
pub open spec fn is_address(email: Email) -> bool {
    email.0@.contains('@')
}

/// The user that the store holds under an address, as far as it holds one:
/// the address and nothing else.
pub open spec fn stored_under(email: Email) -> User {
    User { name: None, email, birthday: None, preferences: Preferences {  } }
}

/// Whether the request and the stored user both have a name, and not the same.
pub open spec fn names_clash(new_user: User, existing_user: User) -> bool {
    &&& new_user.name matches Some(new_name)
    &&& existing_user.name matches Some(existing_name)
    &&& new_name.0@ != existing_name.0@
}

/// The first of two values that is there.
pub open spec fn first_of<T>(preferred: Option<T>, fallback: Option<T>) -> Option<T> {
    if preferred is Some {
        preferred
    } else {
        fallback
    }
}

/// The request, with name and birthday taken from the stored user where the
/// request has none.
pub open spec fn merged(new_user: User, existing_user: User) -> User {
    User {
        name: first_of(new_user.name, existing_user.name),
        email: new_user.email,
        birthday: first_of(new_user.birthday, existing_user.birthday),
        preferences: new_user.preferences,
    }
}

/// Creates the user of a request whose address can be one, and refuses any
/// other. Whether the store already holds a user under the address makes no
/// difference to the outcome: such a user has nothing that the request lacks.
pub fn create_user(user_request: User) -> (created: Result<User, CreateUserError>)
    ensures
        created == (if is_address(user_request.email) {
            Ok::<User, CreateUserError>(user_request)
        } else {
            Err(CreateUserError)
        }),
{
    validate_user(&user_request)?;
    Ok(
        if let Some(existing_user) = find_user(&user_request.email)? {
            let merged = merge_user(user_request, existing_user)?;
            store(merged)?
        } else {
            store(user_request)?
        },
    )
}

/// Accepts a user whose address can be one.
pub fn validate_user(user: &User) -> (checked: Result<(), CreateUserError>)
    ensures
        checked is Ok <==> is_address(user.email),
{
    let address = user.email.0.as_str();
    let length = address.unicode_len();
    let mut at: usize = 0;
    while at < length
        invariant
            address@ == user.email.0@,
            length == address@.len(),
            at <= length,
            forall|before: int| 0 <= before < at ==> address@[before] != '@',
        decreases length - at,
    {
        if address.get_char(at) == '@' {
            return Ok(());
        }
        at += 1;
    }
    Err(CreateUserError)
}

/// `rand::random`, asked for a `bool`: the next bit of the thread's random
/// number generator. Nothing is claimed of the bit. The call fails only
/// where the system has no randomness to seed the generator with.
#[verifier::external_body]
fn random_bool() -> bool {
    rand::random()
}

/// Looks for the user stored under an address. Whether one is found is left
/// to chance; one that is found holds the address and nothing else.
pub fn find_user(email: &Email) -> (found: Result<Option<User>, DbError>)
    ensures
        found == Ok::<Option<User>, DbError>(None) || found == Ok::<Option<User>, DbError>(
            Some(stored_under(*email)),
        ),
{
    let absent = random_bool();
    lookup(email, absent)
}

/// What a search under an address gives, once it is settled whether the
/// store holds a user there.
pub fn lookup(email: &Email, absent: bool) -> (found: Result<Option<User>, DbError>)
    ensures
        found == Ok::<Option<User>, DbError>(
            if absent {
                None
            } else {
                Some(stored_under(*email))
            },
        ),
{
    if absent {
        Ok(None)
    } else {
        Ok(
            Some(
                User {
                    name: None,
                    email: Email(email.0.clone()),
                    birthday: None,
                    preferences: Preferences {  },
                },
            ),
        )
    }
}

/// Merges a request into the stored user. Two names that differ are a
/// contradiction. Else the request wins, and takes from the stored user the
/// name and the birthday that it lacks.
pub fn merge_user(new_user: User, existing_user: User) -> (outcome: Result<User, MergeError>)
    ensures
        outcome == (if names_clash(new_user, existing_user) {
            Err::<User, MergeError>(MergeError)
        } else {
            Ok(merged(new_user, existing_user))
        }),
{
    match (&new_user.name, &existing_user.name) {
        (Some(new_name), Some(existing_name)) => {
            if new_name.0 != existing_name.0 {
                return Err(MergeError);
            }
        },
        _ => {},
    }
    let User { name, email, birthday, preferences } = new_user;
    Ok(
        User {
            name: first(name, existing_user.name),
            email,
            birthday: first(birthday, existing_user.birthday),
            preferences,
        },
    )
}

fn first<T>(preferred: Option<T>, fallback: Option<T>) -> (chosen: Option<T>)
    ensures
        chosen == first_of(preferred, fallback),
{
    match preferred {
        Some(value) => Some(value),
        None => fallback,
    }
}

/// Stores a user and hands it back as stored. The store never fails.
pub fn store(user: User) -> (stored: Result<User, DbError>)
    ensures
        stored == Ok::<User, DbError>(user),
{
    Ok(user)
}

} // verus!
