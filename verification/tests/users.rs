use peek_widget::collections::{find_by_id, map_collection};
use peek_widget::users::{User, UserManager, UserRole, ValidationError, Validator};
use peek_widget::utils::{format_user_info, is_valid_username};

#[test]
fn test_user_creation() {
    let user = User::new("Test".to_string(), "test@example.com".to_string(), UserRole::User);
    assert_eq!(user.name, "Test");
    assert!(user.active);
}

#[test]
fn test_user_manager() {
    let mut manager = UserManager::new();
    let user = User::new("Alice".to_string(), "alice@example.com".to_string(), UserRole::User);
    let id = manager.add_user(user);
    assert!(manager.get_user(id).is_some());
}

#[test]
fn fresh_user_has_placeholder_id() {
    let user = User::new("Bob".to_string(), "bob@example.com".to_string(), UserRole::Guest);
    assert_eq!(user.id, 0);
    assert_eq!(user.email, "bob@example.com");
}

#[test]
fn is_admin_only_for_admin_role() {
    let admin = User::new(
        "Alice".to_string(),
        "alice@example.com".to_string(),
        UserRole::Admin { permissions: vec!["read".to_string(), "write".to_string()] },
    );
    let moderator = User::new(
        "Bob".to_string(),
        "bob@example.com".to_string(),
        UserRole::Moderator { level: 5 },
    );
    assert!(admin.is_admin());
    assert!(!moderator.is_admin());
}

#[test]
fn deactivate_clears_active_only() {
    let mut user = User::new("Cara".to_string(), "cara@example.com".to_string(), UserRole::User);
    user.deactivate();
    assert!(!user.active);
    assert_eq!(user.name, "Cara");
}

#[test]
fn validate_reports_empty_name_first() {
    let user = User::new("".to_string(), "not-an-email".to_string(), UserRole::User);
    assert!(matches!(user.validate(), Err(ValidationError::EmptyName)));
}

#[test]
fn validate_reports_invalid_email() {
    let user = User::new("Dana".to_string(), "dana-at-example".to_string(), UserRole::User);
    assert!(matches!(user.validate(), Err(ValidationError::InvalidEmail)));
}

#[test]
fn validate_accepts_plausible_user() {
    let user = User::new("Eve".to_string(), "eve@example.com".to_string(), UserRole::User);
    assert!(user.validate().is_ok());
}

#[test]
fn validation_error_messages() {
    assert_eq!(ValidationError::EmptyName.message(), "Name cannot be empty");
    assert_eq!(ValidationError::InvalidEmail.message(), "Invalid email format");
    assert_eq!(
        ValidationError::UnknownError("boom".to_string()).message(),
        "Error: boom"
    );
}

#[test]
fn ids_are_assigned_in_order() {
    let mut manager = UserManager::new();
    let a = manager.add_user(User::new(
        "A".to_string(),
        "a@example.com".to_string(),
        UserRole::User,
    ));
    let b = manager.add_user(User::new(
        "B".to_string(),
        "b@example.com".to_string(),
        UserRole::User,
    ));
    assert_eq!(a, 1);
    assert_eq!(b, 2);
    assert_eq!(manager.get_user(a).unwrap().name, "A");
    assert_eq!(manager.get_user(b).unwrap().name, "B");
    assert!(manager.get_user(3).is_none());
}

#[test]
fn get_user_mut_edits_in_place() {
    let mut manager = UserManager::new();
    let id = manager.add_user(User::new(
        "Mod".to_string(),
        "mod@example.com".to_string(),
        UserRole::Moderator { level: 1 },
    ));
    if let Some(user) = manager.get_user_mut(id) {
        user.deactivate();
    }
    assert!(!manager.get_user(id).unwrap().active);
    assert!(manager.get_user_mut(99).is_none());
}

#[test]
fn remove_user_takes_the_entry_out() {
    let mut manager = UserManager::new();
    let id = manager.add_user(User::new(
        "Gone".to_string(),
        "gone@example.com".to_string(),
        UserRole::User,
    ));
    let removed = manager.remove_user(id);
    assert_eq!(removed.unwrap().name, "Gone");
    assert!(manager.get_user(id).is_none());
    assert!(manager.remove_user(id).is_none());
}

#[test]
fn find_by_name_keeps_insertion_order() {
    let mut manager = UserManager::new();
    manager.add_user(User::new("X".to_string(), "x1@example.com".to_string(), UserRole::User));
    manager.add_user(User::new("Y".to_string(), "y@example.com".to_string(), UserRole::User));
    manager.add_user(User::new("X".to_string(), "x2@example.com".to_string(), UserRole::User));
    let found = manager.find_by_name("X");
    assert_eq!(found.len(), 2);
    assert_eq!(found[0].email, "x1@example.com");
    assert_eq!(found[1].email, "x2@example.com");
    assert!(manager.find_by_name("Z").is_empty());
}

#[test]
fn active_users_excludes_deactivated() {
    let mut manager = UserManager::new();
    let a = manager.add_user(User::new(
        "A".to_string(),
        "a@example.com".to_string(),
        UserRole::User,
    ));
    manager.add_user(User::new("B".to_string(), "b@example.com".to_string(), UserRole::User));
    if let Some(user) = manager.get_user_mut(a) {
        user.deactivate();
    }
    let active = manager.active_users();
    assert_eq!(active.len(), 1);
    assert_eq!(active[0].name, "B");
}

#[test]
fn default_manager_is_empty() {
    let manager = UserManager::default();
    assert!(manager.get_user(1).is_none());
}

#[test]
fn find_by_id_returns_first_match() {
    let items = [10u32, 25, 30, 25];
    let found = find_by_id(&items, |x: &u32| *x == 25);
    assert_eq!(found, Some(&25));
    assert_eq!(find_by_id(&items, |x: &u32| *x > 100), None);
}

#[test]
fn map_collection_keeps_order() {
    let items = vec![1u32, 2, 3];
    let doubled = map_collection(items, |x: u32| x * 2);
    assert_eq!(doubled, vec![2, 4, 6]);
}

#[test]
fn username_validation() {
    assert!(is_valid_username("test_user_123"));
    assert!(is_valid_username("abc"));
    assert!(!is_valid_username("ab"));
    assert!(!is_valid_username("bad name"));
    assert!(!is_valid_username("nope!"));
}

#[test]
fn format_user_info_renders_contact_line() {
    let user = User::new("Alice".to_string(), "alice@example.com".to_string(), UserRole::User);
    assert_eq!(format_user_info(&user), "Alice <alice@example.com>");
}
