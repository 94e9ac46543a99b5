use std::cmp::Ordering;

use lilnas_server_ui::hasher::{digest, hash};
use lilnas_server_ui::login::LoginInfo;

#[test]
fn new_stores_the_name_and_the_encoded_hash() {
    let info = LoginInfo::new("alice1".to_string(), b"hello world");
    assert_eq!(info.user(), "alice1");
    assert_eq!(info.digest(), "aGVsbG8gd29ybGQ=");
}

#[test]
fn new_on_a_real_hash_gives_the_stored_digest() {
    let raw = hash(b"correct-password-123");
    let info = LoginInfo::new("alice1".to_string(), &raw);
    assert_eq!(info.digest(), digest("correct-password-123"));
    assert_ne!(info.digest(), "correct-password-123");
}

#[test]
fn from_parts_keeps_both_parts() {
    let info = LoginInfo::from_parts("bobby".to_string(), "Zm9v".to_string());
    assert_eq!(info.user(), "bobby");
    assert_eq!(info.digest(), "Zm9v");
}

#[test]
fn logins_are_equal_by_user_name_alone() {
    let a = LoginInfo::from_parts("alice1".to_string(), "AAAA".to_string());
    let b = LoginInfo::from_parts("alice1".to_string(), "BBBB".to_string());
    let c = LoginInfo::from_parts("Alice1".to_string(), "AAAA".to_string());
    assert!(a == b);
    assert!(a != c);
}

#[test]
fn logins_are_ordered_by_user_name_alone() {
    let a = LoginInfo::from_parts("alice".to_string(), "ZZZZ".to_string());
    let b = LoginInfo::from_parts("bobby".to_string(), "AAAA".to_string());
    let a2 = LoginInfo::from_parts("alice".to_string(), "AAAA".to_string());
    let longer = LoginInfo::from_parts("alice1".to_string(), "AAAA".to_string());
    assert_eq!(a.cmp(&b), Ordering::Less);
    assert_eq!(b.cmp(&a), Ordering::Greater);
    assert_eq!(a.cmp(&a2), Ordering::Equal);
    assert_eq!(a.cmp(&longer), Ordering::Less);
    assert_eq!(a.partial_cmp(&b), Some(Ordering::Less));
    assert!(a < b);
    assert!(b > a);
    assert!(a <= a2);
}

#[test]
fn order_of_names_is_that_of_their_bytes() {
    let upper = LoginInfo::from_parts("Zed1".to_string(), String::new());
    let lower = LoginInfo::from_parts("adam".to_string(), String::new());
    let accent = LoginInfo::from_parts("\u{e9}mile".to_string(), String::new());
    assert_eq!(upper.cmp(&lower), Ordering::Less);
    assert_eq!(lower.cmp(&accent), Ordering::Less);
    assert_eq!("Zed1".cmp("adam"), Ordering::Less);
    assert_eq!("adam".cmp("\u{e9}mile"), Ordering::Less);
}

#[test]
fn clone_is_the_same_login() {
    let a = LoginInfo::from_parts("alice1".to_string(), "AAAA".to_string());
    let b = a.clone();
    assert_eq!(b.user(), "alice1");
    assert_eq!(b.digest(), "AAAA");
}
