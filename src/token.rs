use crate::claims::{claims_json, find_char, parse_claims, plain, is_plain, same_text, write_claims, Claims};
use crate::error::{ApiError, ErrorKind};
use crate::models::UserRole;
use vstd::prelude::*;
use vstd::utf8::{decode_utf8, encode_utf8, valid_utf8};

verus! {

#[verifier::external_type_specification]
#[verifier::external_body]
pub struct ExJwtError(jsonwebtoken::errors::Error);

#[verifier::external_type_specification]
#[verifier::external_body]
pub struct ExDecodeError(base64::DecodeError);

#[verifier::external_type_specification]
#[verifier::external_body]
pub struct ExFromUtf8Error(std::string::FromUtf8Error);

/// The unpadded URL-safe base64 text of some bytes.
pub uninterp spec fn b64url(bytes: Seq<u8>) -> Seq<char>;

/// The HMAC-SHA256 signature, as unpadded URL-safe base64, of a message
/// under a secret.
pub uninterp spec fn hs256_sig(secret: Seq<char>, message: Seq<char>) -> Seq<char>;

/// A character of the URL-safe base64 alphabet.
pub open spec fn url_safe_char(c: char) -> bool {
    let v = c as u32;
    (65 <= v <= 90) || (97 <= v <= 122) || (48 <= v <= 57) || v == 45 || v == 95
}

pub open spec fn url_safe(s: Seq<char>) -> bool {
    forall|i: int| 0 <= i < s.len() ==> url_safe_char(#[trigger] s[i])
}

/// Relies on base64's URL_SAFE_NO_PAD engine: its encoding of the text's
/// bytes, drawn from the URL-safe alphabet.
#[verifier::external_body]
fn b64url_encode(text: &str) -> (r: String)
    ensures
        r@ == b64url(encode_utf8(text@)),
        url_safe(r@),
{
    base64::Engine::encode(&base64::engine::general_purpose::URL_SAFE_NO_PAD, text.as_bytes())
}

/// Relies on base64's URL_SAFE_NO_PAD engine: decoding inverts encoding, and
/// since that engine refuses padding and stray trailing bits, whatever it
/// decodes is the encoding of the bytes it returns.
#[verifier::external_body]
fn b64url_decode(seg: &str) -> (r: Result<Vec<u8>, base64::DecodeError>)
    ensures
        r is Ok ==> b64url(r->Ok_0@) == seg@,
        forall|b: Seq<u8>| #[trigger] b64url(b) == seg@ ==> r is Ok && r->Ok_0@ == b,
{
    base64::Engine::decode(&base64::engine::general_purpose::URL_SAFE_NO_PAD, seg)
}

/// Relies on String::from_utf8: it accepts exactly the valid UTF-8 byte
/// strings and decodes them.
#[verifier::external_body]
fn utf8_string(bytes: Vec<u8>) -> (r: Result<String, std::string::FromUtf8Error>)
    ensures
        r is Ok <==> valid_utf8(bytes@),
        r is Ok ==> r->Ok_0@ == decode_utf8(bytes@),
{
    String::from_utf8(bytes)
}

/// Relies on jsonwebtoken::crypto::sign with HS256, which never fails for an
/// HMAC algorithm.
#[verifier::external_body]
fn hs256_sign(secret: &str, message: &str) -> (r: Result<String, jsonwebtoken::errors::Error>)
    ensures
        r is Ok,
        r is Ok ==> r->Ok_0@ == hs256_sig(secret@, message@),
{
    jsonwebtoken::crypto::sign(
        message.as_bytes(),
        &jsonwebtoken::EncodingKey::from_secret(secret.as_bytes()),
        jsonwebtoken::Algorithm::HS256,
    )
}

/// Relies on jsonwebtoken::crypto::verify with HS256: it signs the message
/// again and compares the two texts in constant time, never failing.
#[verifier::external_body]
fn hs256_verify(signature: &str, message: &str, secret: &str) -> (r: Result<
    bool,
    jsonwebtoken::errors::Error,
>)
    ensures
        r is Ok,
        r is Ok ==> r->Ok_0 == (signature@ == hs256_sig(secret@, message@)),
{
    jsonwebtoken::crypto::verify(
        signature,
        message.as_bytes(),
        &jsonwebtoken::DecodingKey::from_secret(secret.as_bytes()),
        jsonwebtoken::Algorithm::HS256,
    )
}

/// The JSON header of every token: HMAC-SHA256, type JWT.
pub open spec fn header_json() -> Seq<char> {
    "{\"typ\":\"JWT\",\"alg\":\"HS256\"}"@
}

pub open spec fn header_segment() -> Seq<char> {
    b64url(encode_utf8(header_json()))
}

pub open spec fn payload_segment(sub: Seq<char>, role: UserRole, exp: u64) -> Seq<char> {
    b64url(encode_utf8(claims_json(sub, role, exp)))
}

/// The part of a token that its signature covers: header and payload.
pub open spec fn signing_input(sub: Seq<char>, role: UserRole, exp: u64) -> Seq<char> {
    header_segment() + seq!['.'] + payload_segment(sub, role, exp)
}

/// The token that carries the given claims, signed with `secret`.
pub open spec fn token_text(secret: Seq<char>, sub: Seq<char>, role: UserRole, exp: u64) -> Seq<
    char,
> {
    signing_input(sub, role, exp) + seq!['.'] + hs256_sig(secret, signing_input(sub, role, exp))
}

/// `t` is a token this service signed with `secret` for the given claims.
pub open spec fn genuine(
    secret: Seq<char>,
    t: Seq<char>,
    sub: Seq<char>,
    role: UserRole,
    exp: u64,
) -> bool {
    &&& plain(sub)
    &&& url_safe(header_segment())
    &&& url_safe(payload_segment(sub, role, exp))
    &&& t == token_text(secret, sub, role, exp)
}

/// Where the dots of a token stand when its first two segments have none.
pub proof fn lemma_split(h: Seq<char>, p: Seq<char>, s: Seq<char>)
    requires
        url_safe(h),
        url_safe(p),
    ensures
        ({
            let t = h + seq!['.'] + p + seq!['.'] + s;
            let d1 = h.len() as int;
            let d2 = d1 + 1 + p.len();
            &&& t[d1] == '.'
            &&& forall|j: int| 0 <= j < d1 ==> t[j] != '.'
            &&& t[d2] == '.'
            &&& forall|j: int| d1 + 1 <= j < d2 ==> t[j] != '.'
            &&& t.subrange(0, d1) == h
            &&& t.subrange(d1 + 1, d2) == p
            &&& t.subrange(0, d2) == h + seq!['.'] + p
            &&& t.subrange(d2 + 1, t.len() as int) == s
        }),
{
    let t = h + seq!['.'] + p + seq!['.'] + s;
    let d1 = h.len() as int;
    let d2 = d1 + 1 + p.len();
    assert forall|j: int| 0 <= j < d1 implies t[j] != '.' by {
        assert(t[j] == h[j]);
        assert(url_safe_char(h[j]));
    }
    assert forall|j: int| d1 + 1 <= j < d2 implies t[j] != '.' by {
        assert(t[j] == p[j - d1 - 1]);
        assert(url_safe_char(p[j - d1 - 1]));
    }
    assert(t.subrange(0, d1) =~= h);
    assert(t.subrange(d1 + 1, d2) =~= p);
    assert(t.subrange(0, d2) =~= h + seq!['.'] + p);
    assert(t.subrange(d2 + 1, t.len() as int) =~= s);
}

/// Whether every character of `s` is of the URL-safe base64 alphabet.
fn is_url_safe(s: &str) -> (r: bool)
    ensures
        r == url_safe(s@),
{
    let n = s.unicode_len();
    let mut i: usize = 0;
    while i < n
        invariant
            n == s@.len(),
            i <= n,
            forall|j: int| 0 <= j < i ==> url_safe_char(#[trigger] s@[j]),
        decreases n - i,
    {
        let v = s.get_char(i) as u32;
        if !((65 <= v && v <= 90) || (97 <= v && v <= 122) || (48 <= v && v <= 57) || v == 45
            || v == 95) {
            return false;
        }
        i = i + 1;
    }
    true
}

/// Signs a token for the given subject, role and expiry. It fails, with an
/// `Internal` error, exactly when the subject holds a character that cannot
/// stand in a payload string unescaped.
pub fn issue_token(sub: &str, role: UserRole, exp: u64, secret: &str) -> (r: Result<
    String,
    ApiError,
>)
    ensures
        r is Ok <==> plain(sub@),
        r is Ok ==> genuine(secret@, r->Ok_0@, sub@, role, exp),
        r is Err ==> r->Err_0.is(ErrorKind::Internal, "Failed to create token"@),
{
    if !is_plain(sub) {
        return Err(ApiError::new(ErrorKind::Internal, "Failed to create token"));
    }
    let json = write_claims(sub, role, exp);
    let header = b64url_encode("{\"typ\":\"JWT\",\"alg\":\"HS256\"}");
    let payload = b64url_encode(json.as_str());
    let message = header.concat(".").concat(payload.as_str());
    proof {
        reveal_strlit(".");
        assert(message@ =~= signing_input(sub@, role, exp));
    }
    let sig = match hs256_sign(secret, message.as_str()) {
        Ok(s) => s,
        Err(_) => return Err(ApiError::new(ErrorKind::Internal, "Failed to create token")),
    };
    let t = message.concat(".").concat(sig.as_str());
    assert(t@ =~= token_text(secret@, sub@, role, exp));
    Ok(t)
}

fn invalid_token() -> (r: ApiError)
    ensures
        r.is(ErrorKind::Unauthorized, "Invalid token"@),
{
    ApiError::new(ErrorKind::Unauthorized, "Invalid token")
}

/// Validates a token at time `now`: its signature must verify against
/// `secret` and `now` must come before its expiry. Every failure is the same
/// `Unauthorized` error.
///
/// Only tokens in the layout that `issue_token` writes are accepted: the
/// fixed HS256 header, and a payload whose JSON names `sub`, `role` and
/// `exp` in that order, without whitespace or escapes. A token signed with
/// the secret in any other layout (fields reordered, spaces, other header
/// fields) is refused. The secret never leaves this service, so every token
/// it accepts from a client was written by `issue_token`.
pub fn check_token(token: &str, secret: &str, now: u64) -> (r: Result<Claims, ApiError>)
    ensures
        r is Ok ==> genuine(secret@, token@, r->Ok_0.sub@, r->Ok_0.role, r->Ok_0.exp) && now
            < r->Ok_0.exp,
        r is Err ==> r->Err_0.is(ErrorKind::Unauthorized, "Invalid token"@),
        forall|sub: Seq<char>, role: UserRole, exp: u64|
            #[trigger] genuine(secret@, token@, sub, role, exp) ==> (r is Ok <==> now < exp) && (
            r is Ok ==> r->Ok_0.sub@ == sub && r->Ok_0.role == role && r->Ok_0.exp == exp),
{
    let ghost w = exists|sub: Seq<char>, role: UserRole, exp: u64|
        #[trigger] genuine(secret@, token@, sub, role, exp);
    proof {
        reveal_strlit(".");
        if w {
            let (s0, r0, e0) = choose|sub: Seq<char>, role: UserRole, exp: u64|
                #[trigger] genuine(secret@, token@, sub, role, exp);
            lemma_split(
                header_segment(),
                payload_segment(s0, r0, e0),
                hs256_sig(secret@, signing_input(s0, r0, e0)),
            );
            vstd::utf8::encode_utf8_valid_utf8(claims_json(s0, r0, e0));
            vstd::utf8::encode_utf8_decode_utf8(claims_json(s0, r0, e0));
            assert(token@ =~= header_segment() + seq!['.'] + payload_segment(s0, r0, e0) + seq![
                '.',
            ] + hs256_sig(secret@, signing_input(s0, r0, e0)));
        }
    }
    let n = token.unicode_len();
    let d1 = match find_char(token, 0, '.') {
        Some(d) => d,
        None => return Err(invalid_token()),
    };
    let d2 = match find_char(token, d1 + 1, '.') {
        Some(d) => d,
        None => return Err(invalid_token()),
    };
    let h = token.substring_char(0, d1);
    let p = token.substring_char(d1 + 1, d2);
    let m = token.substring_char(0, d2);
    let s = token.substring_char(d2 + 1, n);
    proof {
        assert(token@ =~= h@ + seq!['.'] + p@ + seq!['.'] + s@);
        assert(m@ =~= h@ + seq!['.'] + p@);
    }
    let expected = b64url_encode("{\"typ\":\"JWT\",\"alg\":\"HS256\"}");
    if !same_text(h, expected.as_str()) {
        return Err(invalid_token());
    }
    if !is_url_safe(p) {
        return Err(invalid_token());
    }
    match hs256_verify(s, m, secret) {
        Ok(true) => {},
        _ => return Err(invalid_token()),
    }
    let bytes = match b64url_decode(p) {
        Ok(b) => b,
        Err(_) => return Err(invalid_token()),
    };
    let ghost raw = bytes@;
    let text = match utf8_string(bytes) {
        Ok(t) => t,
        Err(_) => return Err(invalid_token()),
    };
    let c = match parse_claims(&text) {
        Some(c) => c,
        None => return Err(invalid_token()),
    };
    proof {
        vstd::utf8::decode_utf8_encode_utf8(raw);
        assert forall|sub: Seq<char>, role: UserRole, exp: u64|
            #[trigger] genuine(secret@, token@, sub, role, exp) implies c.sub@ == sub && c.role
            == role && c.exp == exp by {
            lemma_split(
                header_segment(),
                payload_segment(sub, role, exp),
                hs256_sig(secret@, signing_input(sub, role, exp)),
            );
            vstd::utf8::encode_utf8_decode_utf8(claims_json(sub, role, exp));
            assert(token@ =~= header_segment() + seq!['.'] + payload_segment(sub, role, exp)
                + seq!['.'] + hs256_sig(secret@, signing_input(sub, role, exp)));
            assert(b64url(encode_utf8(claims_json(sub, role, exp))) == p@);
            assert(text@ == claims_json(sub, role, exp));
        }
    }
    if now < c.exp {
        Ok(c)
    } else {
        Err(invalid_token())
    }
}

} // verus!
