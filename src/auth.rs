use crate::claims::{plain, plain_char, same_text, Claims};
use crate::error::{ApiError, ErrorKind};
use crate::ids::{hex_or_hyphen, unix_now, uuid_string, uuid_text};
use crate::models::{User, UserRole};
use crate::token::{
    check_token, genuine, hs256_sig, issue_token, lemma_split, payload_segment, signing_input,
    url_safe, header_segment,
};
use vstd::prelude::*;

verus! {

/// How long a token stays valid after issuance, in seconds.
pub const TOKEN_LIFETIME: u64 = 86400;

/// The identity a validated token establishes for one request.
#[derive(Clone, Debug)]
pub struct AuthenticatedUser {
    pub user_id: String,
    pub role: UserRole,
}

/// `header` presents a bearer token.
pub open spec fn is_bearer(header: Seq<char>) -> bool {
    header.len() >= 7 && header.subrange(0, 7) == "Bearer "@
}

/// The token a bearer header presents.
pub open spec fn bearer_token(header: Seq<char>) -> Seq<char> {
    header.subrange(7, header.len() as int)
}

/// Signs a token for `user` issued at `now`: it expires exactly one token
/// lifetime later. Fails only where that instant does not fit.
pub fn issue_for_user(user: &User, secret: &str, now: u64) -> (r: Result<String, ApiError>)
    ensures
        now <= u64::MAX - TOKEN_LIFETIME ==> r is Ok && genuine(
            secret@,
            r->Ok_0@,
            uuid_text(user.id),
            user.role,
            (now + TOKEN_LIFETIME) as u64,
        ),
        now > u64::MAX - TOKEN_LIFETIME ==> r is Err && r->Err_0.is(
            ErrorKind::Internal,
            "Failed to create token"@,
        ),
{
    if now > u64::MAX - TOKEN_LIFETIME {
        return Err(ApiError::new(ErrorKind::Internal, "Failed to create token"));
    }
    let sub = uuid_string(user.id);
    proof {
        crate::ids::lemma_uuid_text(user.id);
    }
    assert forall|i: int| 0 <= i < sub@.len() implies plain_char(#[trigger] sub@[i]) by {
        assert(hex_or_hyphen(sub@[i]));
    }
    issue_token(sub.as_str(), user.role, now + TOKEN_LIFETIME, secret)
}

/// The current time as seconds since the Unix epoch; a clock set before the
/// epoch reads as the epoch. Any reading fits in an `i64`.
pub(crate) fn clock_seconds() -> (r: u64)
    ensures
        r <= i64::MAX as u64,
{
    let t = unix_now();
    if t < 0 {
        0
    } else {
        t as u64
    }
}

/// Signs a token for `user` that expires one token lifetime from now.
pub fn create_token(user: &User, secret: &str) -> (r: Result<String, ApiError>)
    ensures
        r is Ok,
        exists|now: u64|
            now <= i64::MAX && #[trigger] genuine(
                secret@,
                r->Ok_0@,
                uuid_text(user.id),
                user.role,
                (now + TOKEN_LIFETIME) as u64,
            ),
{
    let now = clock_seconds();
    let r = issue_for_user(user, secret, now);
    assert(genuine(secret@, r->Ok_0@, uuid_text(user.id), user.role, (now + TOKEN_LIFETIME) as u64));
    r
}

/// Validates `token` against `secret` at the current time.
pub fn validate_token(token: &str, secret: &str) -> (r: Result<Claims, ApiError>)
    ensures
        r is Ok ==> genuine(secret@, token@, r->Ok_0.sub@, r->Ok_0.role, r->Ok_0.exp),
        r is Err ==> r->Err_0.is(ErrorKind::Unauthorized, "Invalid token"@),
{
    let now = clock_seconds();
    check_token(token, secret, now)
}

/// A token whose signature segment is replaced by any other text is
/// genuine for no claims at all, so validation rejects it.
pub proof fn lemma_altered_signature_rejected(
    secret: Seq<char>,
    sub: Seq<char>,
    role: UserRole,
    exp: u64,
    forged: Seq<char>,
)
    requires
        plain(sub),
        url_safe(header_segment()),
        url_safe(payload_segment(sub, role, exp)),
        forged != hs256_sig(secret, signing_input(sub, role, exp)),
    ensures
        forall|sub2: Seq<char>, role2: UserRole, exp2: u64|
            !(#[trigger] genuine(
                secret,
                signing_input(sub, role, exp) + seq!['.'] + forged,
                sub2,
                role2,
                exp2,
            )),
{
    let t = signing_input(sub, role, exp) + seq!['.'] + forged;
    assert forall|sub2: Seq<char>, role2: UserRole, exp2: u64|
        !(#[trigger] genuine(secret, t, sub2, role2, exp2)) by {
        if genuine(secret, t, sub2, role2, exp2) {
            let h = header_segment();
            let p = payload_segment(sub, role, exp);
            let other_payload = payload_segment(sub2, role2, exp2);
            let other_sig = hs256_sig(secret, signing_input(sub2, role2, exp2));
            lemma_split(h, p, forged);
            lemma_split(h, other_payload, other_sig);
            assert(t =~= h + seq!['.'] + p + seq!['.'] + forged);
            assert(t =~= h + seq!['.'] + other_payload + seq!['.'] + other_sig);
            assert(p.len() == other_payload.len());
            assert(p == other_payload);
            assert(signing_input(sub2, role2, exp2) == signing_input(sub, role, exp));
        }
    }
}

impl AuthenticatedUser {
    /// The identity that an `Authorization` header establishes at time
    /// `now`: the header must be present, start with `Bearer `, and carry a
    /// token that validates. Every failure is `Unauthorized`.
    pub fn from_request_at(authorization: Option<&str>, secret: &str, now: u64) -> (r: Result<
        AuthenticatedUser,
        ApiError,
    >)
        ensures
            authorization is None ==> r is Err && r->Err_0.is(
                ErrorKind::Unauthorized,
                "No token provided"@,
            ),
            authorization is Some ==> (r is Err ==> r->Err_0.is(
                ErrorKind::Unauthorized,
                "Invalid token"@,
            )),
            authorization is Some && !is_bearer(authorization->0@) ==> r is Err,
            authorization is Some && r is Ok ==> is_bearer(authorization->0@) && exists|exp: u64|
                now < exp && #[trigger] genuine(
                    secret@,
                    bearer_token(authorization->0@),
                    r->Ok_0.user_id@,
                    r->Ok_0.role,
                    exp,
                ),
            authorization is Some && is_bearer(authorization->0@) ==> forall|
                sub: Seq<char>,
                role: UserRole,
                exp: u64,
            |
                #[trigger] genuine(secret@, bearer_token(authorization->0@), sub, role, exp) ==> (r is Ok
                    <==> now < exp) && (r is Ok ==> r->Ok_0.user_id@ == sub && r->Ok_0.role
                    == role),
    {
        let header = match authorization {
            None => return Err(ApiError::new(ErrorKind::Unauthorized, "No token provided")),
            Some(h) => h,
        };
        let n = header.unicode_len();
        if n < 7 || !same_text(header.substring_char(0, 7), "Bearer ") {
            return Err(ApiError::new(ErrorKind::Unauthorized, "Invalid token"));
        }
        let token = header.substring_char(7, n);
        match check_token(token, secret, now) {
            Ok(c) => {
                assert(token@ == bearer_token(header@));
                let u = AuthenticatedUser { user_id: c.sub, role: c.role };
                assert(is_bearer(header@));
                assert(now < c.exp && genuine(secret@, bearer_token(header@), u.user_id@, u.role, c.exp));
                Ok(u)
            },
            Err(e) => Err(e),
        }
    }

    /// The identity that an `Authorization` header establishes now.
    pub fn from_request(authorization: Option<&str>, secret: &str) -> (r: Result<
        AuthenticatedUser,
        ApiError,
    >)
        ensures
            authorization is None ==> r is Err && r->Err_0.is(
                ErrorKind::Unauthorized,
                "No token provided"@,
            ),
            authorization is Some ==> (r is Err ==> r->Err_0.is(
                ErrorKind::Unauthorized,
                "Invalid token"@,
            )),
            authorization is Some && !is_bearer(authorization->0@) ==> r is Err,
            authorization is Some && r is Ok ==> is_bearer(authorization->0@) && exists|exp: u64|
                #[trigger] genuine(
                    secret@,
                    bearer_token(authorization->0@),
                    r->Ok_0.user_id@,
                    r->Ok_0.role,
                    exp,
                ),
    {
        let now = clock_seconds();
        Self::from_request_at(authorization, secret, now)
    }
}

/// Authorizes `user` for an operation that requires `required`: there is no
/// hierarchy, only equality of roles. A mismatch is `Forbidden` with `denial`.
pub fn require_role(user: &AuthenticatedUser, required: UserRole, denial: &str) -> (r: Result<
    (),
    ApiError,
>)
    ensures
        r is Ok <==> user.role == required,
        r is Err ==> r->Err_0.is(ErrorKind::Forbidden, denial@),
{
    if user.role == required {
        Ok(())
    } else {
        Err(ApiError::new(ErrorKind::Forbidden, denial))
    }
}

} // verus!
