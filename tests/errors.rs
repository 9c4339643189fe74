use course_auth::cors::CORS;
use course_auth::error::{ApiError, ErrorKind};

#[test]
fn status_of_each_kind() {
    assert_eq!(ApiError::Internal("a".to_string()).status(), 500);
    assert_eq!(ApiError::NotFound("a".to_string()).status(), 404);
    assert_eq!(ApiError::Unauthorized("a".to_string()).status(), 401);
    assert_eq!(ApiError::BadRequest("a".to_string()).status(), 400);
    assert_eq!(ApiError::Forbidden("a".to_string()).status(), 403);
}

#[test]
fn message_of_each_kind() {
    assert_eq!(ApiError::Internal("db".to_string()).message(), "Internal server error: db");
    assert_eq!(ApiError::NotFound("x".to_string()).message(), "Not found: x");
    assert_eq!(ApiError::Unauthorized("y".to_string()).message(), "Unauthorized: y");
    assert_eq!(ApiError::BadRequest("z".to_string()).message(), "Bad request: z");
    assert_eq!(ApiError::Forbidden("w".to_string()).message(), "Forbidden: w");
}

#[test]
fn new_builds_the_named_kind() {
    let e = ApiError::new(ErrorKind::Forbidden, "nope");
    assert_eq!(e, ApiError::Forbidden("nope".to_string()));
    assert_eq!(e.kind(), ErrorKind::Forbidden);
    assert_eq!(e.to_response().error, "Forbidden: nope");
}

#[test]
fn cors_headers() {
    let h = CORS.headers();
    assert_eq!(h.len(), 4);
    assert_eq!(h[0], ("Access-Control-Allow-Origin", "*"));
    assert_eq!(h[1], ("Access-Control-Allow-Methods", "POST, GET, PATCH, DELETE, OPTIONS"));
    assert_eq!(h[2], ("Access-Control-Allow-Headers", "*"));
    assert_eq!(h[3], ("Access-Control-Allow-Credentials", "true"));
    assert_eq!(CORS.name(), "Add CORS headers to responses");
}
