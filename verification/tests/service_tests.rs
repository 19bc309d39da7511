use user_service::data::{CreateUserRequest, UpdateUserRequest, UploadedFile};
use user_service::error::AppError;
use user_service::service::UserService;

fn create_request(name: &str, email: &str) -> CreateUserRequest {
    CreateUserRequest { name: name.to_string(), email: email.to_string() }
}

fn service_with(users: &[(&str, &str, &str)]) -> UserService {
    let mut service = UserService::create_service();
    for (id, name, email) in users {
        let r = service.create_user(
            create_request(name, email),
            None,
            id.to_string(),
            None,
            None,
        );
        assert!(r.is_ok());
    }
    service
}

#[test]
fn get_user_by_id_returns_requested_id() {
    let service = service_with(&[("u1", "Ada", "ada@example.com"), ("u2", "Bob", "bob@example.com")]);
    let view = service.get_user_by_id("u2".to_string(), None).unwrap();
    assert_eq!(view.id, "u2");
    assert_eq!(view.name, "Bob");
    assert_eq!(view.email, "bob@example.com");
}

#[test]
fn get_user_by_id_missing_is_not_found() {
    let service = service_with(&[("u1", "Ada", "ada@example.com")]);
    match service.get_user_by_id("nope".to_string(), None) {
        Err(AppError::NotFound(msg)) => assert_eq!(msg, "User not found"),
        other => panic!("expected NotFound, got {:?}", other.is_ok()),
    }
}

#[test]
fn get_user_by_id_store_failure_is_database_error() {
    let service = service_with(&[("u1", "Ada", "ada@example.com")]);
    match service.get_user_by_id("u1".to_string(), Some("connection reset".to_string())) {
        Err(AppError::DatabaseError(cause)) => assert_eq!(cause, "connection reset"),
        other => panic!("expected DatabaseError, got {:?}", other.is_ok()),
    }
}

#[test]
fn get_users_returns_all_in_repository_order() {
    let service = service_with(&[
        ("u1", "Ada", "ada@example.com"),
        ("u2", "Bob", "bob@example.com"),
        ("u3", "Cyd", "cyd@example.com"),
    ]);
    let views = service.get_users(None).unwrap();
    assert_eq!(views.len(), 3);
    assert_eq!(views[0].id, "u1");
    assert_eq!(views[1].id, "u2");
    assert_eq!(views[2].id, "u3");
    assert_eq!(views[1].name, "Bob");
}

#[test]
fn get_users_store_failure_is_database_error() {
    let service = service_with(&[("u1", "Ada", "ada@example.com")]);
    match service.get_users(Some("timeout".to_string())) {
        Err(AppError::DatabaseError(cause)) => assert_eq!(cause, "timeout"),
        other => panic!("expected DatabaseError, got {:?}", other.is_ok()),
    }
}

#[test]
fn create_then_get_matches_request() {
    let mut service = UserService::create_service();
    let created = service
        .create_user(create_request("Ada", "ada@example.com"), None, "u1".to_string(), None, None)
        .unwrap();
    assert_eq!(created.id, "u1");
    assert_eq!(created.name, "Ada");
    assert_eq!(created.email, "ada@example.com");
    let fetched = service.get_user_by_id("u1".to_string(), None).unwrap();
    assert_eq!(fetched.id, "u1");
    assert_eq!(fetched.name, "Ada");
    assert_eq!(fetched.email, "ada@example.com");
}

#[test]
fn create_duplicate_id_fails_and_rolls_back() {
    let mut service = service_with(&[("u1", "Ada", "ada@example.com")]);
    match service.create_user(
        create_request("Imposter", "imp@example.com"),
        None,
        "u1".to_string(),
        None,
        None,
    ) {
        Err(AppError::DatabaseError(cause)) => assert_eq!(cause, "duplicate user id"),
        other => panic!("expected DatabaseError, got {:?}", other.is_ok()),
    }
    assert_eq!(service.store.users.len(), 1);
    assert_eq!(service.store.users[0].name, "Ada");
}

#[test]
fn create_with_file_links_owner_and_commits_both() {
    let mut service = UserService::create_service();
    let file = UploadedFile { user_id: None, file_name: "avatar.png".to_string() };
    let created = service
        .create_user(
            create_request("Ada", "ada@example.com"),
            Some(file),
            "u1".to_string(),
            None,
            None,
        )
        .unwrap();
    assert_eq!(created.id, "u1");
    assert_eq!(service.store.users.len(), 1);
    assert_eq!(service.store.files.len(), 1);
    assert_eq!(service.store.files[0].user_id.as_deref(), Some("u1"));
    assert_eq!(service.store.files[0].file_name, "avatar.png");
}

#[test]
fn create_file_failure_leaves_no_user_row() {
    let mut service = UserService::create_service();
    let file = UploadedFile { user_id: None, file_name: "avatar.png".to_string() };
    match service.create_user(
        create_request("Ada", "ada@example.com"),
        Some(file),
        "u1".to_string(),
        None,
        Some("upload rejected".to_string()),
    ) {
        Err(AppError::DatabaseError(cause)) => assert_eq!(cause, "upload rejected"),
        other => panic!("expected DatabaseError, got {:?}", other.is_ok()),
    }
    assert_eq!(service.store.users.len(), 0);
    assert_eq!(service.store.files.len(), 0);
}

#[test]
fn create_store_failure_rolls_back() {
    let mut service = service_with(&[("u1", "Ada", "ada@example.com")]);
    match service.create_user(
        create_request("Bob", "bob@example.com"),
        None,
        "u2".to_string(),
        Some("deadlock".to_string()),
        None,
    ) {
        Err(AppError::DatabaseError(cause)) => assert_eq!(cause, "deadlock"),
        other => panic!("expected DatabaseError, got {:?}", other.is_ok()),
    }
    assert_eq!(service.store.users.len(), 1);
}

#[test]
fn update_changes_only_present_fields() {
    let mut service = service_with(&[
        ("u1", "Ada", "ada@example.com"),
        ("u2", "Bob", "bob@example.com"),
    ]);
    let payload = UpdateUserRequest { name: Some("Adele".to_string()), email: None };
    let view = service.update_user("u1".to_string(), payload, None).unwrap();
    assert_eq!(view.id, "u1");
    assert_eq!(view.name, "Adele");
    assert_eq!(view.email, "ada@example.com");
    // the other record is untouched
    let other = service.get_user_by_id("u2".to_string(), None).unwrap();
    assert_eq!(other.name, "Bob");
    assert_eq!(other.email, "bob@example.com");
}

#[test]
fn update_twice_with_same_payload_is_idempotent() {
    let mut service = service_with(&[("u1", "Ada", "ada@example.com")]);
    let first = service
        .update_user(
            "u1".to_string(),
            UpdateUserRequest { name: Some("Adele".to_string()), email: Some("adele@example.com".to_string()) },
            None,
        )
        .unwrap();
    let second = service
        .update_user(
            "u1".to_string(),
            UpdateUserRequest { name: Some("Adele".to_string()), email: Some("adele@example.com".to_string()) },
            None,
        )
        .unwrap();
    assert_eq!(first.id, second.id);
    assert_eq!(first.name, second.name);
    assert_eq!(first.email, second.email);
    assert_eq!(service.store.users.len(), 1);
}

#[test]
fn update_missing_is_not_found_without_effect() {
    let mut service = service_with(&[("u1", "Ada", "ada@example.com")]);
    let payload = UpdateUserRequest { name: Some("Ghost".to_string()), email: None };
    match service.update_user("nope".to_string(), payload, None) {
        Err(AppError::NotFound(msg)) => assert_eq!(msg, "User not found"),
        other => panic!("expected NotFound, got {:?}", other.is_ok()),
    }
    assert_eq!(service.store.users.len(), 1);
    assert_eq!(service.store.users[0].name, "Ada");
}

#[test]
fn update_store_failure_rolls_back() {
    let mut service = service_with(&[("u1", "Ada", "ada@example.com")]);
    let payload = UpdateUserRequest { name: Some("Adele".to_string()), email: None };
    match service.update_user("u1".to_string(), payload, Some("io error".to_string())) {
        Err(AppError::DatabaseError(cause)) => assert_eq!(cause, "io error"),
        other => panic!("expected DatabaseError, got {:?}", other.is_ok()),
    }
    assert_eq!(service.store.users[0].name, "Ada");
}

#[test]
fn delete_succeeds_once_then_not_found() {
    let mut service = service_with(&[("u1", "Ada", "ada@example.com")]);
    let confirmation = service.delete_user("u1".to_string(), None).unwrap();
    assert_eq!(confirmation, "User deleted");
    assert_eq!(service.store.users.len(), 0);
    match service.delete_user("u1".to_string(), None) {
        Err(AppError::NotFound(msg)) => assert_eq!(msg, "User not found"),
        other => panic!("expected NotFound, got {:?}", other.is_ok()),
    }
}

#[test]
fn delete_keeps_the_other_records_in_order() {
    let mut service = service_with(&[
        ("u1", "Ada", "ada@example.com"),
        ("u2", "Bob", "bob@example.com"),
        ("u3", "Cyd", "cyd@example.com"),
    ]);
    service.delete_user("u2".to_string(), None).unwrap();
    let views = service.get_users(None).unwrap();
    assert_eq!(views.len(), 2);
    assert_eq!(views[0].id, "u1");
    assert_eq!(views[1].id, "u3");
}

#[test]
fn delete_store_failure_rolls_back() {
    let mut service = service_with(&[("u1", "Ada", "ada@example.com")]);
    match service.delete_user("u1".to_string(), Some("lost connection".to_string())) {
        Err(AppError::DatabaseError(cause)) => assert_eq!(cause, "lost connection"),
        other => panic!("expected DatabaseError, got {:?}", other.is_ok()),
    }
    assert_eq!(service.store.users.len(), 1);
}

#[test]
fn error_message_accessor() {
    let not_found = AppError::NotFound("User not found".to_string());
    assert_eq!(not_found.message(), "User not found");
    let db = AppError::DatabaseError("duplicate user id".to_string());
    assert_eq!(db.message(), "duplicate user id");
}
