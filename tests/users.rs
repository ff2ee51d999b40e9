use crud_api::error::ErrorKind;
use crud_api::models::{merge_item_update, Item, UpdateItem};
use crud_api::users::{check_conflicts, merge_user_update, CreateUserRequest, UpdateUserRequest, User};

fn create(u: &str, e: &str, p: &str) -> CreateUserRequest {
    CreateUserRequest { username: u.to_string(), email: e.to_string(), password: p.to_string() }
}

fn update(u: Option<&str>, e: Option<&str>, p: Option<&str>) -> UpdateUserRequest {
    UpdateUserRequest { username: u.map(String::from), email: e.map(String::from), password: p.map(String::from) }
}

#[test]
fn create_requires_each_field_in_order() {
    assert!(create("ann", "ann@x.org", "pw").validate().is_ok());
    let f = create(" \t", "", "").validate().unwrap_err();
    assert_eq!((f.kind, f.desc.as_str()), (ErrorKind::ValidationRequired, "Username required"));
    let f = create("ann", "\u{3000}", "").validate().unwrap_err();
    assert_eq!(f.desc, "Email required");
    let f = create("ann", "ann@x.org", "  ").validate().unwrap_err();
    assert_eq!(f.desc, "Password required");
}

#[test]
fn update_requires_username_and_email() {
    assert!(update(Some("ann"), Some("a@x"), None).validate().is_ok());
    assert_eq!(update(None, Some("a@x"), None).validate().unwrap_err().desc, "Username required");
    assert_eq!(update(Some(" "), Some("a@x"), None).validate().unwrap_err().desc, "Username required");
    assert_eq!(update(Some("ann"), None, None).validate().unwrap_err().desc, "Email required");
}

#[test]
fn new_password_skips_blank() {
    assert_eq!(update(None, None, Some("secret")).new_password(), Some("secret"));
    assert_eq!(update(None, None, Some("  ")).new_password(), None);
    assert_eq!(update(None, None, None).new_password(), None);
}

#[test]
fn conflicts_with_other_users() {
    assert!(check_conflicts(None, None, None).is_ok());
    let f = check_conflicts(None, Some(3), Some(4)).unwrap_err();
    assert_eq!((f.kind, f.desc.as_str()), (ErrorKind::Conflict, "Username already exist"));
    assert_eq!(check_conflicts(None, None, Some(4)).unwrap_err().desc, "Email already exist");
    assert!(check_conflicts(Some(3), Some(3), Some(3)).is_ok());
    assert_eq!(check_conflicts(Some(3), Some(3), Some(5)).unwrap_err().desc, "Email already exist");
}

#[test]
fn user_update_merges_fields() {
    let current = User { id: 9, username: "old".to_string(), email: "o@x".to_string(), password: "h0".to_string() };
    let u = merge_user_update(current, update(Some("new"), None, Some("plain")), Some("h1".to_string()));
    assert_eq!((u.id, u.username.as_str(), u.email.as_str(), u.password.as_str()), (9, "new", "o@x", "h1"));
    let current = User { id: 9, username: "old".to_string(), email: "o@x".to_string(), password: "h0".to_string() };
    let u = merge_user_update(current, update(None, Some("n@x"), None), None);
    assert_eq!((u.username.as_str(), u.email.as_str(), u.password.as_str()), ("old", "n@x", "h0"));
}

#[test]
fn item_update_merges_fields() {
    let current = Item { id: 1, name: "lamp".to_string(), description: Some("red".to_string()) };
    let i = merge_item_update(current, UpdateItem { name: None, description: None });
    assert_eq!((i.id, i.name.as_str(), i.description.as_deref()), (1, "lamp", Some("red")));
    let current = Item { id: 1, name: "lamp".to_string(), description: None };
    let i = merge_item_update(current, UpdateItem { name: Some("desk".to_string()), description: Some("oak".to_string()) });
    assert_eq!((i.name.as_str(), i.description.as_deref()), ("desk", Some("oak")));
}
