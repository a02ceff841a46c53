use rust_for_web::frontend::{button_id, ApiRequest, Dashboard, SharedUser};

fn user(id: Option<i32>, name: &str, email: &str) -> SharedUser {
    SharedUser { id, name: name.to_string(), email: email.to_string() }
}

fn logged_in() -> Dashboard {
    let mut d = Dashboard::new();
    d.login_finished(Some("tok".to_string()));
    d
}

#[test]
fn starts_empty_and_logged_out() {
    let d = Dashboard::new();
    assert!(d.token.is_none());
    assert!(!d.shows_message());
    assert_eq!(d.submit_label(), "Create User");
}

#[test]
fn login_round() {
    let mut d = Dashboard::new();
    d.set_login_email("a@b.c".to_string());
    d.set_login_password("pw".to_string());
    match d.login_clicked() {
        ApiRequest::Login { email, password } => assert_eq!((email.as_str(), password.as_str()), ("a@b.c", "pw")),
        other => panic!("{:?}", other),
    }
    d.login_finished(None);
    assert_eq!(d.message, "Login failed");
    assert!(d.token.is_none());
    assert_eq!((d.login_email.as_str(), d.login_password.as_str()), ("", ""));
    d.login_finished(Some("jwt".to_string()));
    assert_eq!(d.token.as_deref(), Some("jwt"));
    assert_eq!(d.message, "Logged in successfully");
    assert!(d.shows_message());
    d.logout();
    assert!(d.token.is_none());
    assert_eq!(d.message, "Logged out");
}

#[test]
fn create_flow() {
    let mut d = Dashboard::new();
    d.set_name("Ada".to_string());
    d.set_email("ada@x".to_string());
    match d.submit_clicked() {
        Some(ApiRequest::CreateUser { name, email }) => assert_eq!((name.as_str(), email.as_str()), ("Ada", "ada@x")),
        other => panic!("{:?}", other),
    }
    assert!(matches!(d.create_finished(true), Some(ApiRequest::FetchUsers)));
    assert_eq!(d.message, "User created successfully");
    assert_eq!((d.name.as_str(), d.email.as_str(), d.editing), ("", "", None));
    d.set_name("B".to_string());
    assert!(d.create_finished(false).is_none());
    assert_eq!(d.message, "Failed to create user");
    assert_eq!(d.name, "");
}

#[test]
fn edit_then_submit_updates_that_user() {
    let mut d = logged_in();
    assert!(matches!(d.fetch_clicked(), ApiRequest::FetchUsers));
    d.users_fetched(Some(vec![user(Some(1), "Ada", "ada@x"), user(Some(2), "Bob", "bob@x"), user(Some(2), "Dup", "dup@x")]));
    d.edit_clicked(2);
    assert_eq!((d.name.as_str(), d.email.as_str(), d.editing), ("Bob", "bob@x", Some(2)));
    assert_eq!(d.submit_label(), "Update User");
    match d.submit_clicked() {
        Some(ApiRequest::UpdateUser { id, authorization, name, email }) => {
            assert_eq!((id, authorization.as_str(), name.as_str(), email.as_str()), (2, "Bearer tok", "Bob", "bob@x"))
        }
        other => panic!("{:?}", other),
    }
    assert!(matches!(d.update_finished(true), Some(ApiRequest::FetchUsers)));
    assert_eq!(d.message, "User updated successfully");
    assert_eq!(d.editing, None);
    d.edit_clicked(42);
    assert_eq!(d.editing, None);
    assert!(d.update_finished(false).is_none());
    assert_eq!(d.message, "Failed to update user");
}

#[test]
fn writes_need_a_token() {
    let mut d = Dashboard::new();
    d.users_fetched(Some(vec![user(Some(1), "Ada", "ada@x")]));
    d.edit_clicked(1);
    assert!(d.submit_clicked().is_none());
    assert_eq!(d.message, "Unauthorized to update user");
    assert_eq!(d.editing, Some(1));
    assert!(d.delete_clicked(1).is_none());
    assert_eq!(d.message, "Unauthorized to delete");
}

#[test]
fn delete_flow() {
    let mut d = logged_in();
    match d.delete_clicked(5) {
        Some(ApiRequest::DeleteUser { id, authorization }) => assert_eq!((id, authorization.as_str()), (5, "Bearer tok")),
        other => panic!("{:?}", other),
    }
    assert!(matches!(d.delete_finished(true), Some(ApiRequest::FetchUsers)));
    assert_eq!(d.message, "User deleted successfully");
    assert!(d.delete_finished(false).is_none());
    assert_eq!(d.message, "Failed to delete user");
    d.logout();
    assert!(d.delete_clicked(5).is_none());
}

#[test]
fn fetch_failure_keeps_the_list() {
    let mut d = Dashboard::new();
    d.users_fetched(Some(vec![user(None, "Anon", "a@x")]));
    d.users_fetched(None);
    assert_eq!(d.message, "Failed to fetch users");
    assert_eq!(d.users.len(), 1);
    assert_eq!(button_id(&d.users[0]), 0);
    assert_eq!(button_id(&user(Some(9), "x", "y")), 9);
}
