use vstd::prelude::*;

verus! {

/// The kinds of failure a request can end in.
#[derive(Clone, Copy, Debug, PartialEq, Eq, Structural)]
pub enum ErrorKind {
    Internal,
    NotFound,
    Unauthorized,
    BadRequest,
    Forbidden,
}

/// A failure with its human-readable detail.
#[derive(Clone, Debug, PartialEq, Eq)]
pub enum ApiError {
    Internal(String),
    NotFound(String),
    Unauthorized(String),
    BadRequest(String),
    Forbidden(String),
}

/// The body sent with a failed request.
#[derive(Clone, Debug)]
pub struct ErrorResponse {
    pub error: String,
}

/// The text that introduces the message of each kind.
pub open spec fn kind_prefix(k: ErrorKind) -> Seq<char> {
    match k {
        ErrorKind::Internal => "Internal server error: "@,
        ErrorKind::NotFound => "Not found: "@,
        ErrorKind::Unauthorized => "Unauthorized: "@,
        ErrorKind::BadRequest => "Bad request: "@,
        ErrorKind::Forbidden => "Forbidden: "@,
    }
}

/// The HTTP status of each kind.
pub open spec fn kind_status(k: ErrorKind) -> u16 {
    match k {
        ErrorKind::Internal => 500,
        ErrorKind::NotFound => 404,
        ErrorKind::Unauthorized => 401,
        ErrorKind::BadRequest => 400,
        ErrorKind::Forbidden => 403,
    }
}

impl ApiError {
    pub open spec fn kind_of(&self) -> ErrorKind {
        match self {
            ApiError::Internal(_) => ErrorKind::Internal,
            ApiError::NotFound(_) => ErrorKind::NotFound,
            ApiError::Unauthorized(_) => ErrorKind::Unauthorized,
            ApiError::BadRequest(_) => ErrorKind::BadRequest,
            ApiError::Forbidden(_) => ErrorKind::Forbidden,
        }
    }

    pub open spec fn detail(&self) -> Seq<char> {
        match self {
            ApiError::Internal(m) => m@,
            ApiError::NotFound(m) => m@,
            ApiError::Unauthorized(m) => m@,
            ApiError::BadRequest(m) => m@,
            ApiError::Forbidden(m) => m@,
        }
    }

    /// The error is of kind `k` with detail `d`.
    pub open spec fn is(&self, k: ErrorKind, d: Seq<char>) -> bool {
        self.kind_of() == k && self.detail() == d
    }

    /// An error of kind `k` with detail `d`.
    pub fn new(k: ErrorKind, d: &str) -> (r: ApiError)
        ensures
            r.is(k, d@),
    {
        let m = String::from_str(d);
        match k {
            ErrorKind::Internal => ApiError::Internal(m),
            ErrorKind::NotFound => ApiError::NotFound(m),
            ErrorKind::Unauthorized => ApiError::Unauthorized(m),
            ErrorKind::BadRequest => ApiError::BadRequest(m),
            ErrorKind::Forbidden => ApiError::Forbidden(m),
        }
    }

    pub fn kind(&self) -> (r: ErrorKind)
        ensures
            r == self.kind_of(),
    {
        match self {
            ApiError::Internal(_) => ErrorKind::Internal,
            ApiError::NotFound(_) => ErrorKind::NotFound,
            ApiError::Unauthorized(_) => ErrorKind::Unauthorized,
            ApiError::BadRequest(_) => ErrorKind::BadRequest,
            ApiError::Forbidden(_) => ErrorKind::Forbidden,
        }
    }

    /// The HTTP status that answers this error.
    pub fn status(&self) -> (r: u16)
        ensures
            r == kind_status(self.kind_of()),
    {
        match self {
            ApiError::Internal(_) => 500,
            ApiError::NotFound(_) => 404,
            ApiError::Unauthorized(_) => 401,
            ApiError::BadRequest(_) => 400,
            ApiError::Forbidden(_) => 403,
        }
    }

    /// The full message: the kind's prefix, then the detail.
    pub fn message(&self) -> (r: String)
        ensures
            r@ == kind_prefix(self.kind_of()) + self.detail(),
    {
        match self {
            ApiError::Internal(m) => String::from_str("Internal server error: ").concat(m.as_str()),
            ApiError::NotFound(m) => String::from_str("Not found: ").concat(m.as_str()),
            ApiError::Unauthorized(m) => String::from_str("Unauthorized: ").concat(m.as_str()),
            ApiError::BadRequest(m) => String::from_str("Bad request: ").concat(m.as_str()),
            ApiError::Forbidden(m) => String::from_str("Forbidden: ").concat(m.as_str()),
        }
    }

    /// The body that answers this error.
    pub fn to_response(&self) -> (r: ErrorResponse)
        ensures
            r.error@ == kind_prefix(self.kind_of()) + self.detail(),
    {
        ErrorResponse { error: self.message() }
    }
}

} // verus!
