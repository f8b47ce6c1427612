//! Tests for the reconciliation layer: the merged listing, the fallback
//! lookup, identifier assignment, and the field-level diff.

use user_backend::user::User;
use user_backend::user_client::UserClientError;
use user_backend::user_service::{
    ChangeSet, DatabaseError, create_new_user, generate_update_document, get_user, get_users,
    store_lookup_outcome, update_user,
};

#[test]
fn test_store_lookup_outcome() {
    let user = User::_create_test_user(Some("5".to_string()));
    assert_eq!(Ok(user.clone()), store_lookup_outcome("5", Some(user)));
    assert_eq!(
        Err(DatabaseError::UserNotFound("666".to_string())),
        store_lookup_outcome("666", None)
    );
}

fn user_with_id(id: &str) -> User {
    User::_create_test_user(Some(id.to_string()))
}

#[test]
fn test_get_users_local_wins_union() {
    // Local store has id 5; the directory has ids 5 and 7: the listing is the
    // local 5 followed by the directory 7, never two records under id 5.
    let local = vec![user_with_id("5")];
    let directory = vec![user_with_id("5"), user_with_id("7")];

    let merged = get_users(Ok(local.clone()), Ok(directory));
    assert_eq!(2, merged.len());
    assert_eq!(Some("5".to_string()), merged[0].id);
    assert_eq!(Some("7".to_string()), merged[1].id);
    assert_eq!(local[0], merged[0]);
}

#[test]
fn test_get_users_preserves_both_orders() {
    let local = vec![user_with_id("2"), user_with_id("1")];
    let directory = vec![user_with_id("9"), user_with_id("1"), user_with_id("8")];

    let merged = get_users(Ok(local), Ok(directory));
    let ids: Vec<String> = merged.iter().map(|u| u.id.clone().unwrap()).collect();
    assert_eq!(vec!["2", "1", "9", "8"], ids);
}

#[test]
fn test_get_users_store_failure_degrades_to_directory() {
    let directory = vec![user_with_id("1"), user_with_id("2")];
    let merged = get_users(Err(DatabaseError::MongoConnectionFailed), Ok(directory));
    assert_eq!(2, merged.len());
    assert_eq!(Some("1".to_string()), merged[0].id);
}

#[test]
fn test_get_users_directory_failure_degrades_to_local() {
    let local = vec![user_with_id("1")];
    let merged = get_users(Ok(local), Err(UserClientError::RestError(500)));
    assert_eq!(1, merged.len());
    assert_eq!(Some("1".to_string()), merged[0].id);
}

#[test]
fn test_get_users_both_failures_yield_empty_listing() {
    let merged = get_users(
        Err(DatabaseError::OperationFailed),
        Err(UserClientError::UrlParseError),
    );
    assert!(merged.is_empty());
}

#[test]
fn test_get_user_store_hit_shadows_directory() {
    let stored = user_with_id("5");
    let mut directory_copy = user_with_id("5");
    directory_copy.name = "SOMEBODY ELSE".to_string();

    let got = get_user("5", Ok(stored.clone()), Some(Ok(directory_copy)));
    assert_eq!(Ok(stored), got);
}

#[test]
fn test_get_user_store_hit_needs_no_directory_outcome() {
    let stored = user_with_id("5");
    let got = get_user("5", Ok(stored.clone()), None);
    assert_eq!(Ok(stored), got);
}

#[test]
fn test_get_user_falls_through_to_directory() {
    let remote = user_with_id("7");
    let got = get_user(
        "7",
        Err(DatabaseError::UserNotFound("7".to_string())),
        Some(Ok(remote.clone())),
    );
    assert_eq!(Ok(remote), got);
}

#[test]
fn test_get_user_absent_from_both_sources() {
    let got = get_user(
        "666",
        Err(DatabaseError::UserNotFound("666".to_string())),
        Some(Err(UserClientError::UserNotFound("666".to_string()))),
    );
    assert_eq!(Err(DatabaseError::UserNotFound("666".to_string())), got);
}

#[test]
fn test_get_user_directory_404_surfaces_not_found() {
    // The directory answering 404 for an unknown id surfaces as the unified
    // UserNotFound, not as a generic REST error.
    let directory_outcome =
        user_backend::user_client::interpret_user_response("42", 404, None);
    let got = get_user(
        "42",
        Err(DatabaseError::MongoConnectionFailed),
        Some(directory_outcome),
    );
    assert_eq!(Err(DatabaseError::UserNotFound("42".to_string())), got);
}

#[test]
fn test_get_user_other_directory_failure_is_generic() {
    let got = get_user(
        "1",
        Err(DatabaseError::OperationFailed),
        Some(Err(UserClientError::RestError(502))),
    );
    assert_eq!(Err(DatabaseError::OperationFailed), got);
}

#[test]
fn test_create_new_user_assigns_offset_id() {
    let created = create_new_user(User::_create_test_user(None), 0);
    assert_eq!(Some("101".to_string()), created.id);
}

#[test]
fn test_create_then_get_round_trip() {
    let original = User::_create_test_user(None);
    let created = create_new_user(original.clone(), 9);
    assert_eq!(Some("110".to_string()), created.id);

    let got = get_user("110", Ok(created.clone()), None);
    assert_eq!(Ok(created.clone()), got);

    // Equal to the caller's record in everything but the new identifier.
    let mut expected = original;
    expected.id = created.id.clone();
    assert_eq!(expected, got.unwrap());
}

#[test]
fn test_add_and_update() {
    let stored = user_with_id("101");
    let mut updated = stored.clone();
    updated.name = "NEW NAME".to_string();

    let outcome = update_user(&updated, Ok(stored));
    let change_set = outcome.unwrap();
    assert_eq!(Some("NEW NAME".to_string()), change_set.name);
    assert_eq!(None, change_set.username);
}

#[test]
fn test_diff_only_name_changed() {
    let original = user_with_id("3");
    let mut updated = original.clone();
    updated.name = "NEW NAME".to_string();

    let expected = ChangeSet {
        id: None,
        name: Some("NEW NAME".to_string()),
        username: None,
        email: None,
        address: None,
        phone: None,
        website: None,
        company: None,
    };
    assert_eq!(expected, generate_update_document(&original, &updated));
}

#[test]
fn test_diff_of_identical_records_is_empty() {
    let original = user_with_id("3");
    let change_set = generate_update_document(&original, &original.clone());
    assert_eq!(None, change_set.id);
    assert_eq!(None, change_set.name);
    assert_eq!(None, change_set.username);
    assert_eq!(None, change_set.email);
    assert_eq!(None, change_set.address);
    assert_eq!(None, change_set.phone);
    assert_eq!(None, change_set.website);
    assert_eq!(None, change_set.company);
}

#[test]
fn test_diff_sees_nested_geo_change() {
    let original = user_with_id("3");
    let mut updated = original.clone();
    updated.address.geo[0].1 = "13".to_string();

    let change_set = generate_update_document(&original, &updated);
    assert_eq!(Some(updated.address.clone()), change_set.address);
    assert_eq!(None, change_set.name);
}

#[test]
fn test_update_propagates_missing_record() {
    let updated = user_with_id("9");
    let outcome = update_user(
        &updated,
        Err(DatabaseError::UserNotFound("9".to_string())),
    );
    assert_eq!(Err(DatabaseError::UserNotFound("9".to_string())), outcome);
}
