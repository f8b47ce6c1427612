//! Tests for the record type and its equality helpers.

use user_backend::user::{address_eq, company_eq, opt_string_eq, User};

#[test]
fn test_create_test_user_fields() {
    let user = User::_create_test_user(Some("12".to_string()));
    assert_eq!(Some("12".to_string()), user.id);
    assert_eq!("TESTER", user.name);
    assert_eq!("TESTER_69", user.username);
    assert_eq!("testlover@testing.gov", user.email);
    assert_eq!("Totallyrealstreet 6", user.address.street);
    assert_eq!(
        vec![
            ("lat".to_string(), "12".to_string()),
            ("lon".to_string(), "15".to_string())
        ],
        user.address.geo
    );
    assert_eq!("Truly we are testing", user.company.catch_phrase);
}

#[test]
fn test_opt_string_eq() {
    let a = Some("1".to_string());
    let b = Some("1".to_string());
    let c = Some("2".to_string());
    assert!(opt_string_eq(&a, &b));
    assert!(!opt_string_eq(&a, &c));
    assert!(!opt_string_eq(&a, &None));
    assert!(opt_string_eq(&None, &None));
}

#[test]
fn test_address_eq_is_deep() {
    let a = User::_create_test_user(None).address;
    let mut b = User::_create_test_user(None).address;
    assert!(address_eq(&a, &b));
    b.geo[1].1 = "16".to_string();
    assert!(!address_eq(&a, &b));
}

#[test]
fn test_company_eq() {
    let a = User::_create_test_user(None).company;
    let mut b = User::_create_test_user(None).company;
    assert!(company_eq(&a, &b));
    b.bs = "To rest".to_string();
    assert!(!company_eq(&a, &b));
}

#[test]
fn test_user_clone_keeps_value() {
    let a = User::_create_test_user(Some("8".to_string()));
    let b = a.clone();
    assert_eq!(a, b);
}
