use course_auth::auth::{create_token, issue_for_user, validate_token, TOKEN_LIFETIME};
use course_auth::claims::{parse_claims, parse_decimal, write_claims};
use course_auth::error::ApiError;
use course_auth::models::{User, UserRole};
use course_auth::token::{check_token, issue_token};

const SECRET: &str = "test-secret";

fn invalid() -> ApiError {
    ApiError::Unauthorized("Invalid token".to_string())
}

fn sample_user(role: UserRole) -> User {
    User {
        id: 0x6f9619ff_8b86_d011_b42d_00cf4fc964ff,
        email: "a@x.com".to_string(),
        password_hash: String::new(),
        name: "Ann".to_string(),
        role,
        created_at: 0,
        updated_at: 0,
    }
}

#[test]
fn issued_token_validates_with_same_claims() {
    let t = issue_token("user-1", UserRole::Teacher, 1_000, SECRET).unwrap();
    let c = check_token(&t, SECRET, 999).unwrap();
    assert_eq!(c.sub, "user-1");
    assert_eq!(c.role, UserRole::Teacher);
    assert_eq!(c.exp, 1_000);
}

#[test]
fn expired_token_is_unauthorized() {
    let t = issue_token("user-1", UserRole::Student, 1_000, SECRET).unwrap();
    assert_eq!(check_token(&t, SECRET, 1_000).unwrap_err(), invalid());
    assert_eq!(check_token(&t, SECRET, 5_000).unwrap_err(), invalid());
}

#[test]
fn flipped_signature_is_unauthorized() {
    let t = issue_token("user-1", UserRole::Student, 1_000, SECRET).unwrap();
    let mut chars: Vec<char> = t.chars().collect();
    let last = chars.len() - 1;
    chars[last] = if chars[last] == 'A' { 'B' } else { 'A' };
    let forged: String = chars.into_iter().collect();
    assert_ne!(forged, t);
    assert_eq!(check_token(&forged, SECRET, 10).unwrap_err(), invalid());
}

#[test]
fn altered_payload_is_unauthorized() {
    let t = issue_token("user-1", UserRole::Student, 1_000, SECRET).unwrap();
    let other = issue_token("user-1", UserRole::Teacher, 1_000, SECRET).unwrap();
    let parts: Vec<&str> = t.split('.').collect();
    let other_parts: Vec<&str> = other.split('.').collect();
    let forged = format!("{}.{}.{}", parts[0], other_parts[1], parts[2]);
    assert_eq!(check_token(&forged, SECRET, 10).unwrap_err(), invalid());
}

#[test]
fn wrong_secret_is_unauthorized() {
    let t = issue_token("user-1", UserRole::Student, 1_000, SECRET).unwrap();
    assert_eq!(check_token(&t, "another-secret", 10).unwrap_err(), invalid());
}

#[test]
fn malformed_tokens_are_unauthorized() {
    for t in ["", "abc", "a.b", "a.b.c", "...", "eyJ0eXAiOiJKV1QiLCJhbGciOiJIUzI1NiJ9.@@.x"] {
        assert_eq!(check_token(t, SECRET, 10).unwrap_err(), invalid());
    }
}

#[test]
fn token_has_standard_layout() {
    let t = issue_token("user-1", UserRole::Student, 1_000, SECRET).unwrap();
    let parts: Vec<&str> = t.split('.').collect();
    assert_eq!(parts.len(), 3);
    assert_eq!(parts[0], "eyJ0eXAiOiJKV1QiLCJhbGciOiJIUzI1NiJ9");
    let payload = base64::Engine::decode(
        &base64::engine::general_purpose::URL_SAFE_NO_PAD,
        parts[1],
    )
    .unwrap();
    assert_eq!(
        String::from_utf8(payload).unwrap(),
        "{\"sub\":\"user-1\",\"role\":\"Student\",\"exp\":1000}"
    );
    let message = format!("{}.{}", parts[0], parts[1]);
    let ok = jsonwebtoken::crypto::verify(
        parts[2],
        message.as_bytes(),
        &jsonwebtoken::DecodingKey::from_secret(SECRET.as_bytes()),
        jsonwebtoken::Algorithm::HS256,
    )
    .unwrap();
    assert!(ok);
}

#[test]
fn subject_needing_escapes_is_refused() {
    assert_eq!(
        issue_token("a\"b", UserRole::Student, 1_000, SECRET).unwrap_err(),
        ApiError::Internal("Failed to create token".to_string())
    );
    assert!(issue_token("a\\b", UserRole::Student, 1_000, SECRET).is_err());
}

#[test]
fn user_token_expires_one_day_after_issue() {
    let user = sample_user(UserRole::Teacher);
    let t = issue_for_user(&user, SECRET, 1_700_000_000).unwrap();
    let c = check_token(&t, SECRET, 1_700_000_000).unwrap();
    assert_eq!(c.sub, "6f9619ff-8b86-d011-b42d-00cf4fc964ff");
    assert_eq!(c.role, UserRole::Teacher);
    assert_eq!(c.exp, 1_700_000_000 + TOKEN_LIFETIME);
    assert!(check_token(&t, SECRET, 1_700_000_000 + TOKEN_LIFETIME).is_err());
}

#[test]
fn issue_at_the_end_of_time_fails() {
    let user = sample_user(UserRole::Teacher);
    assert_eq!(
        issue_for_user(&user, SECRET, u64::MAX - 10).unwrap_err(),
        ApiError::Internal("Failed to create token".to_string())
    );
}

#[test]
fn create_then_validate_now() {
    let user = sample_user(UserRole::Student);
    let t = create_token(&user, SECRET).unwrap();
    let c = validate_token(&t, SECRET).unwrap();
    assert_eq!(c.sub, "6f9619ff-8b86-d011-b42d-00cf4fc964ff");
    assert_eq!(c.role, UserRole::Student);
    assert_eq!(validate_token(&t, "other").unwrap_err(), invalid());
}

#[test]
fn claims_text_round_trip() {
    let text = write_claims("abc", UserRole::Teacher, 42);
    assert_eq!(text, "{\"sub\":\"abc\",\"role\":\"Teacher\",\"exp\":42}");
    let c = parse_claims(&text).unwrap();
    assert_eq!(c.sub, "abc");
    assert_eq!(c.role, UserRole::Teacher);
    assert_eq!(c.exp, 42);
    let edge = write_claims("", UserRole::Student, u64::MAX);
    let c = parse_claims(&edge).unwrap();
    assert_eq!(c.sub, "");
    assert_eq!(c.exp, u64::MAX);
}

#[test]
fn claims_text_other_forms_refused() {
    for t in [
        "{\"sub\":\"abc\",\"role\":\"Teacher\",\"exp\":042}",
        "{\"sub\":\"abc\",\"role\":\"Admin\",\"exp\":42}",
        "{\"sub\":\"abc\", \"role\":\"Teacher\",\"exp\":42}",
        "{\"sub\":\"abc\",\"role\":\"Teacher\",\"exp\":42",
        "{\"sub\":\"abc\",\"role\":\"Teacher\",\"exp\":18446744073709551616}",
        "",
    ] {
        assert!(parse_claims(&t.to_string()).is_none(), "{}", t);
    }
}

#[test]
fn decimal_parsing() {
    assert_eq!(parse_decimal("0"), Some(0));
    assert_eq!(parse_decimal("1234"), Some(1234));
    assert_eq!(parse_decimal("18446744073709551615"), Some(u64::MAX));
    assert_eq!(parse_decimal("18446744073709551616"), None);
    assert_eq!(parse_decimal("12a"), None);
    assert_eq!(parse_decimal(""), Some(0));
}

#[test]
fn token_in_another_layout_is_refused() {
    let engine = &base64::engine::general_purpose::URL_SAFE_NO_PAD;
    let header = "eyJ0eXAiOiJKV1QiLCJhbGciOiJIUzI1NiJ9";
    let payload = base64::Engine::encode(engine, "{\"role\":\"Student\",\"sub\":\"user-1\",\"exp\":1000}");
    let message = format!("{}.{}", header, payload);
    let sig = jsonwebtoken::crypto::sign(
        message.as_bytes(),
        &jsonwebtoken::EncodingKey::from_secret(SECRET.as_bytes()),
        jsonwebtoken::Algorithm::HS256,
    )
    .unwrap();
    let t = format!("{}.{}", message, sig);
    assert_eq!(check_token(&t, SECRET, 10).unwrap_err(), invalid());
}

#[test]
fn issued_digest_has_bcrypt_form() {
    let h = course_auth::password::hash_password("pw").unwrap();
    assert_eq!(h.len(), 60);
    assert!(h.starts_with("$2b$12$"));
    assert_ne!(h, "pw");
}
