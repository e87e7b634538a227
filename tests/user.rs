use accounts_application::user::{check_registration, User, UserRole};

#[test]
fn test_create_valid_user() {
    let user = User::new(
        "admin".to_string(),
        "$2b$12$hash...".to_string(),
        "Admin User".to_string(),
        "admin@example.com".to_string(),
        UserRole::Admin,
    );

    assert!(user.is_ok());
    let u = user.unwrap();
    assert_eq!(u.username, "admin");
    assert!(u.is_active());
    assert!(u.is_admin());
}

#[test]
fn user_test_invalid_email() {
    let user = User::new(
        "admin".to_string(),
        "$2b$12$hash...".to_string(),
        "Admin User".to_string(),
        "invalid-email".to_string(),
        UserRole::Admin,
    );

    assert!(user.is_err());
}

#[test]
fn test_user_status_change() {
    let mut user = User::new(
        "testuser".to_string(),
        "$2b$12$hash...".to_string(),
        "Test User".to_string(),
        "test@example.com".to_string(),
        UserRole::Officer,
    )
    .unwrap();

    assert!(user.is_active());

    user.deactivate();
    assert!(!user.is_active());

    user.activate();
    assert!(user.is_active());
}

#[test]
fn test_user_roles() {
    let admin = User::new(
        "admin".to_string(),
        "$2b$12$hash...".to_string(),
        "Admin".to_string(),
        "admin@example.com".to_string(),
        UserRole::Admin,
    )
    .unwrap();

    let officer = User::new(
        "officer".to_string(),
        "$2b$12$hash...".to_string(),
        "Officer".to_string(),
        "officer@example.com".to_string(),
        UserRole::Officer,
    )
    .unwrap();

    assert!(admin.is_admin());
    assert!(!admin.is_officer());
    assert!(!officer.is_admin());
    assert!(officer.is_officer());
}

#[test]
fn user_role_names() {
    assert_eq!(UserRole::Viewer.as_str(), "viewer");
    assert_eq!(UserRole::from_str("officer").unwrap(), UserRole::Officer);
    assert!(UserRole::from_str("Admin").is_err());
    let u = User::new("u".to_string(), "h".to_string(), "U".to_string(), "u@x".to_string(), UserRole::Viewer)
        .unwrap();
    assert!(u.user_id.starts_with("USR-"));
    assert!(User::new("u".to_string(), "".to_string(), "U".to_string(), "u@x".to_string(), UserRole::Viewer)
        .is_err());
}

#[test]
fn registration_rules() {
    assert!(check_registration("alice", "longenough", "a@b.c").is_ok());
    assert!(check_registration("alice", "short", "a@b.c").is_err());
    assert!(check_registration(" ", "longenough", "a@b.c").is_err());
    assert!(check_registration("alice", "longenough", "nobody").is_err());
}
