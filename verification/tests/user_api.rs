use time::Date;
use typestate_rust::user_api::duplicated_specific_types::DbUser;
use typestate_rust::user_api::simple_types::{
    create_user, find_user, lookup, merge_user, store, validate_user, User,
};
use typestate_rust::user_api::{
    Birthday, CreateUserError, DbError, Email, MergeError, Name, Preferences,
};

fn birthday(year: i32, month: u8, day: u8) -> Birthday {
    Birthday(Date::try_from_ymd(year, month, day).unwrap())
}

fn user(name: Option<&str>, email: &str, birthday: Option<Birthday>) -> User {
    User {
        name: name.map(|name| Name(String::from(name))),
        email: Email(String::from(email)),
        birthday,
        preferences: Preferences {},
    }
}

#[test]
fn address_needs_an_at_sign() {
    assert_eq!(validate_user(&user(None, "ada@example.org", None)), Ok(()));
    assert_eq!(validate_user(&user(None, "@", None)), Ok(()));
    assert_eq!(validate_user(&user(None, "trailing@", None)), Ok(()));
    assert_eq!(validate_user(&user(None, "a@b@c", None)), Ok(()));
    assert_eq!(validate_user(&user(None, "ünïcödé@example.org", None)), Ok(()));
    assert_eq!(validate_user(&user(None, "", None)), Err(CreateUserError));
    assert_eq!(validate_user(&user(None, "ada.example.org", None)), Err(CreateUserError));
    assert_eq!(validate_user(&user(Some("@da"), "ada", None)), Err(CreateUserError));
}

#[test]
fn lookup_finds_only_the_address() {
    let email = Email(String::from("ada@example.org"));
    assert_eq!(lookup(&email, true), Ok(None));
    assert_eq!(lookup(&email, false), Ok(Some(user(None, "ada@example.org", None))));
}

#[test]
fn find_user_finds_nobody_or_only_the_address() {
    let email = Email(String::from("ada@example.org"));
    let mut found_nobody = false;
    let mut found_somebody = false;
    for _ in 0..200 {
        match find_user(&email) {
            Ok(None) => found_nobody = true,
            Ok(Some(found)) => {
                assert_eq!(found, user(None, "ada@example.org", None));
                found_somebody = true;
            },
            Err(DbError) => panic!("the store does not fail"),
        }
    }
    assert!(found_nobody);
    assert!(found_somebody);
}

#[test]
fn merge_fills_in_what_the_request_lacks() {
    let existing = user(Some("Ada"), "old@example.org", Some(birthday(1815, 12, 10)));
    assert_eq!(
        merge_user(user(None, "new@example.org", None), existing.clone()),
        Ok(user(Some("Ada"), "new@example.org", Some(birthday(1815, 12, 10))))
    );
    assert_eq!(
        merge_user(user(Some("Ada"), "new@example.org", Some(birthday(1816, 1, 1))), existing),
        Ok(user(Some("Ada"), "new@example.org", Some(birthday(1816, 1, 1))))
    );
}

#[test]
fn merge_keeps_the_request_where_nothing_is_stored() {
    let request = user(Some("Grace"), "grace@example.org", Some(birthday(1906, 12, 9)));
    assert_eq!(
        merge_user(request.clone(), user(None, "grace@example.org", None)),
        Ok(request)
    );
    assert_eq!(
        merge_user(user(None, "a@b", None), user(None, "c@d", None)),
        Ok(user(None, "a@b", None))
    );
}

#[test]
fn merge_refuses_two_different_names() {
    assert_eq!(
        merge_user(user(Some("Ada"), "a@b", None), user(Some("Grace"), "a@b", None)),
        Err(MergeError)
    );
    assert_eq!(
        merge_user(user(Some("Ada"), "a@b", None), user(Some("ada"), "a@b", None)),
        Err(MergeError)
    );
}

#[test]
fn store_hands_the_user_back() {
    let request = user(Some("Grace"), "grace@example.org", None);
    assert_eq!(store(request.clone()), Ok(request));
}

#[test]
fn create_user_creates_what_was_asked_for() {
    let request = user(Some("Grace"), "grace@example.org", Some(birthday(1906, 12, 9)));
    for _ in 0..50 {
        assert_eq!(create_user(request.clone()), Ok(request.clone()));
    }
    let bare = user(None, "x@y", None);
    for _ in 0..50 {
        assert_eq!(create_user(bare.clone()), Ok(bare.clone()));
    }
}

#[test]
fn create_user_refuses_a_bad_address() {
    for _ in 0..20 {
        assert_eq!(create_user(user(Some("Grace"), "grace", None)), Err(CreateUserError));
    }
}

#[test]
fn store_errors_become_create_errors() {
    assert_eq!(CreateUserError::from(DbError), CreateUserError);
    assert_eq!(CreateUserError::from(MergeError), CreateUserError);
}

#[test]
fn stored_row_holds_plain_text() {
    let row = DbUser {
        row_id: 7,
        name: Some(String::from("Ada")),
        email: String::from("ada@example.org"),
        birthday: Some(String::from("1815-12-10")),
        preferences: Preferences {},
    };
    assert_eq!(row.clone(), row);
    assert_eq!(row.row_id, 7);
}
