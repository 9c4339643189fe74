use crate::auth::{clock_seconds, issue_for_user, require_role, AuthenticatedUser, TOKEN_LIFETIME};
use crate::error::{ApiError, ErrorKind};
use crate::ids::{fresh_uuid, uuid_parse, uuid_parsed, uuid_text};
use crate::models::{AuthResponse, LoginRequest, NewUser, RegisterRequest, User, UserResponse, UserRole};
use crate::password::{bcrypt_verdict, default_cost_digest, hash_password, verify_password};
use crate::token::genuine;
use vstd::prelude::*;

verus! {

/// `resp` answers a login or registration of `user` with a token issued at
/// `now`.
pub open spec fn answers(resp: AuthResponse, user: User, secret: Seq<char>, now: u64) -> bool {
    &&& genuine(secret, resp.token@, uuid_text(user.id), user.role, (now + TOKEN_LIFETIME) as u64)
    &&& resp.user.id == user.id
    &&& resp.user.email@ == user.email@
    &&& resp.user.name@ == user.name@
    &&& resp.user.role == user.role
}

/// The answer to a login or registration of `user` at time `now`: a token
/// and the account's outward view.
pub fn auth_response_at(user: User, secret: &str, now: u64) -> (r: Result<AuthResponse, ApiError>)
    ensures
        now <= u64::MAX - TOKEN_LIFETIME ==> r is Ok && answers(r->Ok_0, user, secret@, now),
        now > u64::MAX - TOKEN_LIFETIME ==> r is Err && r->Err_0.is(
            ErrorKind::Internal,
            "Failed to create token"@,
        ),
{
    let token = match issue_for_user(&user, secret, now) {
        Ok(t) => t,
        Err(e) => return Err(e),
    };
    Ok(AuthResponse { token, user: UserResponse::from_user(user) })
}

/// The answer to a login or registration of `user`, with a token issued now.
pub fn auth_response(user: User, secret: &str) -> (r: Result<AuthResponse, ApiError>)
    ensures
        r is Ok,
        exists|now: u64| now <= i64::MAX && #[trigger] answers(r->Ok_0, user, secret@, now),
{
    let now = clock_seconds();
    let ghost u = user;
    let r = auth_response_at(user, secret, now);
    assert(answers(r->Ok_0, u, secret@, now));
    r
}

/// Decides a login at time `now`, given the account found under the email
/// (if any). A missing account and a wrong password give the same
/// `Unauthorized` error.
pub fn login_at(found: Option<User>, request: &LoginRequest, secret: &str, now: u64) -> (r: Result<
    AuthResponse,
    ApiError,
>)
    requires
        now <= u64::MAX - TOKEN_LIFETIME,
    ensures
        match found {
            None => r is Err && r->Err_0.is(ErrorKind::Unauthorized, "Invalid credentials"@),
            Some(u) => match bcrypt_verdict(request.password@, u.password_hash@) {
                None => r is Err && r->Err_0.is(ErrorKind::Internal, "Failed to verify password"@),
                Some(false) => r is Err && r->Err_0.is(
                    ErrorKind::Unauthorized,
                    "Invalid credentials"@,
                ),
                Some(true) => r is Ok && answers(r->Ok_0, u, secret@, now),
            },
        },
{
    let user = match found {
        None => return Err(ApiError::new(ErrorKind::Unauthorized, "Invalid credentials")),
        Some(u) => u,
    };
    match verify_password(request.password.as_str(), user.password_hash.as_str()) {
        Err(e) => Err(e),
        Ok(false) => Err(ApiError::new(ErrorKind::Unauthorized, "Invalid credentials")),
        Ok(true) => auth_response_at(user, secret, now),
    }
}

/// Decides a login now, given the account found under the email (if any).
pub fn login(found: Option<User>, request: &LoginRequest, secret: &str) -> (r: Result<
    AuthResponse,
    ApiError,
>)
    ensures
        found is None ==> r is Err && r->Err_0.is(ErrorKind::Unauthorized, "Invalid credentials"@),
        found is Some && bcrypt_verdict(request.password@, found->0.password_hash@) == Some(false)
            ==> r is Err && r->Err_0.is(ErrorKind::Unauthorized, "Invalid credentials"@),
        found is Some && bcrypt_verdict(request.password@, found->0.password_hash@) is None ==> r is Err
            && r->Err_0.is(ErrorKind::Internal, "Failed to verify password"@),
        found is Some && bcrypt_verdict(request.password@, found->0.password_hash@) == Some(true)
            ==> r is Ok && exists|now: u64|
            now <= i64::MAX && #[trigger] answers(r->Ok_0, found->0, secret@, now),
{
    let now = clock_seconds();
    let ghost f = found;
    let r = login_at(found, request, secret, now);
    proof {
        if f is Some && bcrypt_verdict(request.password@, f->0.password_hash@) == Some(true) {
            assert(answers(r->Ok_0, f->0, secret@, now));
        }
    }
    r
}

/// The record to store for a registration: a fresh id and a salted digest
/// of the password, which `verify_password` accepts for that password.
pub fn register(request: &RegisterRequest) -> (r: Result<NewUser, ApiError>)
    ensures
        r is Ok ==> bcrypt_verdict(request.password@, r->Ok_0.password_hash@) == Some(true)
            && r->Ok_0.email@ == request.email@ && r->Ok_0.name@ == request.name@
            && r->Ok_0.role == request.role,
        r is Ok ==> default_cost_digest(r->Ok_0.password_hash@),
        r is Err ==> r->Err_0.is(ErrorKind::Internal, "Failed to hash password"@),
{
    let password_hash = match hash_password(request.password.as_str()) {
        Ok(h) => h,
        Err(e) => return Err(e),
    };
    Ok(NewUser {
        id: fresh_uuid(),
        email: request.email.clone(),
        password_hash,
        name: request.name.clone(),
        role: request.role,
    })
}

/// The id under which a caller owns profile data.
pub fn profile_owner(auth: &AuthenticatedUser) -> (r: Result<u128, ApiError>)
    ensures
        match uuid_parsed(auth.user_id@) {
            Some(id) => r == Ok::<u128, ApiError>(id),
            None => r is Err && r->Err_0.is(ErrorKind::Internal, "Invalid user ID"@),
        },
{
    match uuid_parse(auth.user_id.as_str()) {
        Ok(id) => Ok(id),
        Err(_) => Err(ApiError::new(ErrorKind::Internal, "Invalid user ID")),
    }
}

/// The teacher id under which a caller may create a course: only a
/// `Teacher` may.
pub fn course_author(auth: &AuthenticatedUser) -> (r: Result<u128, ApiError>)
    ensures
        auth.role != UserRole::Teacher ==> r is Err && r->Err_0.is(
            ErrorKind::Forbidden,
            "Only teachers can create courses"@,
        ),
        auth.role == UserRole::Teacher ==> match uuid_parsed(auth.user_id@) {
            Some(id) => r == Ok::<u128, ApiError>(id),
            None => r is Err && r->Err_0.is(ErrorKind::Internal, "Invalid user ID"@),
        },
{
    match require_role(auth, UserRole::Teacher, "Only teachers can create courses") {
        Ok(()) => {},
        Err(e) => return Err(e),
    }
    profile_owner(auth)
}

/// The id a client names a course by.
pub fn parse_course_id(text: &str) -> (r: Result<u128, ApiError>)
    ensures
        match uuid_parsed(text@) {
            Some(id) => r == Ok::<u128, ApiError>(id),
            None => r is Err && r->Err_0.is(ErrorKind::BadRequest, "Invalid course ID"@),
        },
{
    match uuid_parse(text) {
        Ok(id) => Ok(id),
        Err(_) => Err(ApiError::new(ErrorKind::BadRequest, "Invalid course ID")),
    }
}

/// A looked-up item, or `NotFound` with `message` where there is none.
pub fn require_found<T>(item: Option<T>, message: &str) -> (r: Result<T, ApiError>)
    ensures
        match item {
            Some(x) => r == Ok::<T, ApiError>(x),
            None => r is Err && r->Err_0.is(ErrorKind::NotFound, message@),
        },
{
    match item {
        Some(x) => Ok(x),
        None => Err(ApiError::new(ErrorKind::NotFound, message)),
    }
}

} // verus!
