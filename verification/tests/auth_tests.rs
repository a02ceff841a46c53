use rust_for_web::auth::{
    authenticate, bearer_token, login_after_check, login_claims, register_account,
    registration_from_hash, require_admin, requested_role, role_from_name, token_expiry, AdminUser,
    AuthError, AuthPayload, AuthResponse, AuthenticatedUser, Claims, PasswordCheck, Role,
    StoredAccount,
};

fn payload(password: &str, role: Option<&str>) -> AuthPayload {
    AuthPayload {
        email: "ada@example.org".to_string(),
        password: password.to_string(),
        role: role.map(|r| r.to_string()),
    }
}

#[test]
fn roles_by_name() {
    assert_eq!(role_from_name("admin"), Role::Admin);
    assert_eq!(role_from_name("user"), Role::User);
    assert_eq!(role_from_name("Admin"), Role::User);
    assert_eq!(role_from_name(""), Role::User);
    assert_eq!(requested_role(&None), "user");
    assert_eq!(requested_role(&Some("admin".to_string())), "admin");
}

#[test]
fn expiry_is_one_hour_later() {
    assert_eq!(token_expiry(1_700_000_000), 1_700_003_600);
    assert_eq!(token_expiry(0), 3600);
}

#[test]
fn registered_password_logs_in() {
    let account = register_account(&payload("hunter42", Some("admin"))).unwrap();
    assert_eq!(account.email, "ada@example.org");
    assert_eq!(account.role, "admin");
    assert_ne!(account.password_hash, "hunter42");
    assert!(account.password_hash.starts_with("$argon2id$"));
    let stored = StoredAccount { password_hash: account.password_hash, id: 12, role: account.role };
    assert_eq!(
        login_claims(Some(&stored), "hunter42", 1000),
        Ok(Claims { user_id: 12, exp: 4600, role: Role::Admin })
    );
}

#[test]
fn registration_defaults_to_user_role() {
    let account = register_account(&payload("pw", None)).unwrap();
    assert_eq!(account.role, "user");
    let stored = StoredAccount { password_hash: account.password_hash, id: 3, role: account.role };
    assert_eq!(login_claims(Some(&stored), "pw", 0), Ok(Claims { user_id: 3, exp: 3600, role: Role::User }));
}

#[test]
fn wrong_password_is_unauthorized() {
    let account = register_account(&payload("right", None)).unwrap();
    let stored = StoredAccount { password_hash: account.password_hash, id: 1, role: account.role };
    assert_eq!(login_claims(Some(&stored), "wrong", 0), Err(AuthError::Unauthorized));
}

#[test]
fn unknown_account_is_unauthorized_and_bad_hash_internal() {
    assert_eq!(login_claims(None, "x", 0), Err(AuthError::Unauthorized));
    let stored = StoredAccount { password_hash: "not a phc string".to_string(), id: 1, role: "admin".to_string() };
    assert_eq!(login_claims(Some(&stored), "x", 0), Err(AuthError::InternalServerError));
    assert_eq!(AuthError::InternalServerError.status(), 500);
    assert_eq!(AuthError::Unauthorized.status(), 401);
    assert_eq!(AuthError::Forbidden.status(), 403);
}

#[test]
fn login_decisions_for_each_check() {
    let stored = StoredAccount { password_hash: String::new(), id: 8, role: "admin".to_string() };
    assert_eq!(login_after_check(Some(&stored), PasswordCheck::Malformed, 5), Err(AuthError::InternalServerError));
    assert_eq!(login_after_check(Some(&stored), PasswordCheck::Mismatch, 5), Err(AuthError::Unauthorized));
    assert_eq!(
        login_after_check(Some(&stored), PasswordCheck::Match, 5),
        Ok(Claims { user_id: 8, exp: 3605, role: Role::Admin })
    );
    assert_eq!(login_after_check(None, PasswordCheck::Match, 5), Err(AuthError::Unauthorized));
}

#[test]
fn failed_hash_is_internal_error() {
    let p = payload("pw", Some("admin"));
    assert!(matches!(registration_from_hash(&p, None), Err(AuthError::InternalServerError)));
    let ok = registration_from_hash(&p, Some("$argon2id$x".to_string())).unwrap();
    assert_eq!(ok.password_hash, "$argon2id$x");
    assert_eq!(ok.role, "admin");
}

#[test]
fn replies() {
    assert_eq!(AuthResponse::account_created().token, "Account created");
    assert_eq!(AuthResponse::with_token("abc".to_string()).token, "abc");
}

#[test]
fn bearer_tokens() {
    assert_eq!(bearer_token(Some("Bearer abc.def")), Some("abc.def"));
    assert_eq!(bearer_token(Some("Bearer ")), Some(""));
    assert_eq!(bearer_token(Some("bearer abc")), None);
    assert_eq!(bearer_token(Some("Basic abc")), None);
    assert_eq!(bearer_token(Some("Bear")), None);
    assert_eq!(bearer_token(None), None);
    assert_eq!(bearer_token(Some("Bearer \u{e9}t\u{e9}")), Some("\u{e9}t\u{e9}"));
}

#[test]
fn guards() {
    let admin = Claims { user_id: 1, exp: 10, role: Role::Admin };
    let user = Claims { user_id: 2, exp: 10, role: Role::User };
    assert_eq!(authenticate(true, Some(admin)), Ok(AuthenticatedUser { user_id: 1, role: Role::Admin }));
    assert_eq!(authenticate(false, Some(admin)), Err(AuthError::Unauthorized));
    assert_eq!(authenticate(true, None), Err(AuthError::Unauthorized));
    assert_eq!(require_admin(authenticate(true, Some(admin))), Ok(AdminUser));
    assert_eq!(require_admin(authenticate(true, Some(user))), Err(AuthError::Forbidden));
    assert_eq!(require_admin(authenticate(true, None)), Err(AuthError::Forbidden));
}

#[test]
fn registration_succeeds_for_any_ordinary_password() {
    for pw in ["", "p", "\u{e9}\u{e8} long passphrase with spaces"].iter() {
        let account = register_account(&payload(pw, None)).unwrap();
        let stored = StoredAccount { password_hash: account.password_hash, id: 4, role: account.role };
        assert_eq!(login_claims(Some(&stored), pw, 10), Ok(Claims { user_id: 4, exp: 3610, role: Role::User }));
    }
}
