use server_manager::error::StoreError;
use server_manager::users::{Role, User, UserManager};

#[test]
fn test_user_management() {
    let mut manager = UserManager::default();

    // Add User
    assert!(manager
        .add_user("testuser", "password123", Role::Observer, None)
        .is_ok());
    assert!(manager
        .add_user("testuser", "password123", Role::Observer, None)
        .is_err()); // Duplicate

    // Verify
    let user = manager.verify("testuser", "password123");
    assert!(user.is_some());
    assert_eq!(user.unwrap().role, Role::Observer);

    assert!(manager.verify("testuser", "wrongpass").is_none());

    // Update Password
    assert!(manager.update_password("testuser", "newpass").is_ok());
    assert!(manager.verify("testuser", "password123").is_none());
    assert!(manager.verify("testuser", "newpass").is_some());

    // Delete
    assert!(manager.delete_user("testuser").is_ok());
    assert!(manager.verify("testuser", "newpass").is_none());
}

#[test]
fn test_admin_protection() {
    let mut manager = UserManager::default();
    manager
        .add_user("admin", "admin", Role::Admin, None)
        .unwrap();

    // Should fail to delete last admin
    assert!(manager.delete_user("admin").is_err());

    // Add another admin
    manager
        .add_user("admin2", "admin", Role::Admin, None)
        .unwrap();
    // Now can delete one
    assert!(manager.delete_user("admin").is_ok());
}

fn record(name: &str, role: Role) -> User {
    User { username: name.to_string(), password_hash: format!("hash-{}", name), role, quota_gb: None }
}

#[test]
fn last_admin_error_kinds() {
    let mut m = UserManager::with_cost(4);
    assert_eq!(m.add_user_hashed("root", "h".to_string(), Role::Admin, None), Ok(()));
    assert_eq!(m.add_user_hashed("viewer", "h".to_string(), Role::Observer, Some(10)), Ok(()));
    assert_eq!(m.add_user_hashed("viewer", "h2".to_string(), Role::Admin, None), Err(StoreError::AlreadyExists));
    assert_eq!(m.delete_user("root"), Err(StoreError::LastAdminProtected));
    assert_eq!(m.delete_user("ghost"), Err(StoreError::NotFound));
    assert_eq!(m.list_users().len(), 2);
    assert_eq!(m.delete_user("viewer"), Ok(()));
    assert_eq!(m.list_users().len(), 1);
    assert_eq!(m.add_user_hashed("root2", "h".to_string(), Role::Admin, None), Ok(()));
    assert_eq!(m.delete_user("root"), Ok(()));
    assert!(m.get_user("root").is_none());
    assert_eq!(m.get_user("root2").unwrap().role, Role::Admin);
}

#[test]
fn update_hash_and_not_found() {
    let mut m = UserManager::with_cost(4);
    m.add_user_hashed("a", "h1".to_string(), Role::Admin, Some(5)).unwrap();
    m.add_user_hashed("b", "h2".to_string(), Role::Observer, None).unwrap();
    assert_eq!(m.update_password_hashed("b", "h3".to_string()), Ok(()));
    assert_eq!(m.get_user("b").unwrap().password_hash, "h3");
    assert_eq!(m.get_user("a").unwrap().password_hash, "h1");
    assert_eq!(m.get_user("a").unwrap().quota_gb, Some(5));
    assert_eq!(m.update_password_hashed("c", "h".to_string()), Err(StoreError::NotFound));
    assert_eq!(m.update_password("c", "pw"), Err(StoreError::NotFound));
}

#[test]
fn verify_rejects_malformed_hash_and_unknown_user() {
    let mut m = UserManager::with_cost(4);
    m.add_user_hashed("x", "not-a-bcrypt-hash".to_string(), Role::Observer, None).unwrap();
    assert!(m.verify("x", "anything").is_none());
    assert!(m.verify("nobody", "anything").is_none());
}

#[test]
fn from_users_rejects_duplicates() {
    let ok = UserManager::from_users(vec![record("a", Role::Admin), record("b", Role::Observer)], 4);
    assert_eq!(ok.unwrap().list_users().len(), 2);
    let dup = UserManager::from_users(vec![record("a", Role::Admin), record("a", Role::Observer)], 4);
    assert_eq!(dup.err(), Some(StoreError::PersistenceFailed));
}

#[test]
fn default_admin_bootstrap() {
    let mut m = UserManager::with_cost(4);
    assert_eq!(m.ensure_default_admin(), Ok(true));
    let admin = m.verify("admin", "admin").unwrap();
    assert_eq!(admin.role, Role::Admin);
    assert_eq!(m.ensure_default_admin(), Ok(false));
    assert_eq!(m.list_users().len(), 1);
}

#[test]
fn bad_cost_is_hashing_failure() {
    let mut m = UserManager::with_cost(3);
    assert_eq!(m.add_user("u", "pw", Role::Admin, None), Err(StoreError::HashingFailed));
    assert!(m.list_users().is_empty());
}

#[test]
fn cheap_cost_round_trip() {
    let mut m = UserManager::with_cost(4);
    m.add_user("alice", "s3cret", Role::Observer, Some(3)).unwrap();
    let u = m.verify("alice", "s3cret").unwrap();
    assert_eq!(u.username, "alice");
    assert_eq!(u.quota_gb, Some(3));
    assert!(u.password_hash.starts_with("$2b$04$"));
    assert!(m.verify("alice", "s3cret!").is_none());
}
