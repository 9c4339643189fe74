use course_auth::error::ApiError;
use course_auth::handlers::{
    auth_response, auth_response_at, login, login_at, parse_course_id, profile_owner, register,
    require_found,
};
use course_auth::auth::AuthenticatedUser;
use course_auth::models::{LoginRequest, RegisterRequest, User, UserResponse, UserRole};
use course_auth::password::{hash_password, verify_password};
use course_auth::token::check_token;

const SECRET: &str = "account-secret";

fn user_with_hash(hash: String) -> User {
    User {
        id: 1,
        email: "a@x.com".to_string(),
        password_hash: hash,
        name: "Ann".to_string(),
        role: UserRole::Student,
        created_at: 10,
        updated_at: 10,
    }
}

fn quick_hash(pw: &str) -> String {
    bcrypt::hash(pw, 4).unwrap()
}

fn login_req(pw: &str) -> LoginRequest {
    LoginRequest { email: "a@x.com".to_string(), password: pw.to_string() }
}

#[test]
fn hash_then_verify_accepts() {
    let h = hash_password("correct horse").unwrap();
    assert_ne!(h, "correct horse");
    assert_eq!(verify_password("correct horse", &h), Ok(true));
}

#[test]
fn verify_rejects_other_password() {
    let h = quick_hash("second");
    assert_eq!(verify_password("first", &h), Ok(false));
    assert_eq!(verify_password("", &h), Ok(false));
    assert_eq!(verify_password("second", &h), Ok(true));
}

#[test]
fn verify_with_malformed_digest_is_internal() {
    assert_eq!(
        verify_password("pw", "not a digest"),
        Err(ApiError::Internal("Failed to verify password".to_string()))
    );
}

#[test]
fn register_then_login_scenario() {
    let req = RegisterRequest {
        email: "a@x.com".to_string(),
        password: "pw".to_string(),
        name: "Ann".to_string(),
        role: UserRole::Student,
    };
    let new_user = register(&req).unwrap();
    assert_eq!(new_user.email, "a@x.com");
    assert_eq!(new_user.name, "Ann");
    assert_eq!(new_user.role, UserRole::Student);
    let stored = User {
        id: new_user.id,
        email: new_user.email.clone(),
        password_hash: new_user.password_hash.clone(),
        name: new_user.name.clone(),
        role: new_user.role,
        created_at: 0,
        updated_at: 0,
    };
    let registered = auth_response(stored.clone(), SECRET).unwrap();
    assert!(!registered.token.is_empty());
    assert_eq!(registered.user.name, "Ann");
    let resp = login(Some(stored), &login_req("pw"), SECRET).unwrap();
    assert!(!resp.token.is_empty());
    assert_eq!(resp.user.email, "a@x.com");
    assert_eq!(resp.user.role, UserRole::Student);
}

#[test]
fn login_with_wrong_password_is_unauthorized() {
    let stored = user_with_hash(quick_hash("pw"));
    let e = login(Some(stored), &login_req("wrong"), SECRET).unwrap_err();
    assert_eq!(e.status(), 401);
    assert_eq!(e.to_response().error, "Unauthorized: Invalid credentials");
}

#[test]
fn login_with_unknown_email_is_unauthorized() {
    let e = login(None, &login_req("pw"), SECRET).unwrap_err();
    assert_eq!(e, ApiError::Unauthorized("Invalid credentials".to_string()));
    assert_eq!(e.message(), "Unauthorized: Invalid credentials");
}

#[test]
fn login_with_corrupt_digest_is_internal() {
    let stored = user_with_hash("$2b$xx".to_string());
    let e = login_at(Some(stored), &login_req("pw"), SECRET, 0).unwrap_err();
    assert_eq!(e, ApiError::Internal("Failed to verify password".to_string()));
    assert_eq!(e.status(), 500);
}

#[test]
fn login_token_names_the_account() {
    let stored = user_with_hash(quick_hash("pw"));
    let resp = login_at(Some(stored), &login_req("pw"), SECRET, 500).unwrap();
    let c = check_token(&resp.token, SECRET, 500).unwrap();
    assert_eq!(c.sub, "00000000-0000-0000-0000-000000000001");
    assert_eq!(c.role, UserRole::Student);
    assert_eq!(c.exp, 500 + 86400);
    assert_eq!(resp.user.id, 1);
}

#[test]
fn response_leaves_out_password_hash() {
    let stored = user_with_hash("secret-digest".to_string());
    let resp = auth_response_at(stored.clone(), SECRET, 0).unwrap();
    let view: UserResponse = resp.user;
    assert_eq!(format!("{:?}", view).contains("secret-digest"), false);
    assert_eq!(UserResponse::from_user(stored).name, "Ann");
}

#[test]
fn course_id_must_be_a_uuid() {
    assert_eq!(
        parse_course_id("nope").unwrap_err(),
        ApiError::BadRequest("Invalid course ID".to_string())
    );
    assert_eq!(parse_course_id("00000000-0000-0000-0000-00000000002a").unwrap(), 42);
}

#[test]
fn profile_owner_reads_user_id() {
    let u = AuthenticatedUser {
        user_id: "00000000-0000-0000-0000-000000000007".to_string(),
        role: UserRole::Student,
    };
    assert_eq!(profile_owner(&u).unwrap(), 7);
    let bad = AuthenticatedUser { user_id: "7".to_string(), role: UserRole::Student };
    assert_eq!(profile_owner(&bad).unwrap_err(), ApiError::Internal("Invalid user ID".to_string()));
}

#[test]
fn missing_item_is_not_found() {
    let e = require_found::<u8>(None, "Course not found").unwrap_err();
    assert_eq!(e, ApiError::NotFound("Course not found".to_string()));
    assert_eq!(e.status(), 404);
    assert_eq!(require_found(Some(3u8), "x").unwrap(), 3);
}

#[test]
fn only_the_first_72_bytes_of_a_password_count() {
    let base = "a".repeat(72);
    let h = quick_hash(&format!("{}x", base));
    assert_eq!(verify_password(&format!("{}y", base), &h), Ok(true));
}
