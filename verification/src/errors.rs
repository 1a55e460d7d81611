//! The failures of the authentication core and how each is shown to a client.

use crate::model::option_view;
use vstd::prelude::*;
use vstd::std_specs::convert::FromSpecImpl;

verus! {

/// HTTP status of a registration conflict.
pub const STATUS_CONFLICT: u16 = 409;

/// HTTP status of a rejected token or a failed login.
pub const STATUS_UNAUTHORIZED: u16 = 401;

/// HTTP status of a fault on the server's side.
pub const STATUS_INTERNAL_SERVER_ERROR: u16 = 500;

/// What the persistence layer reported when an operation failed.
#[derive(Debug, Clone, PartialEq, Eq)]
pub enum StoreError {
    /// The database refused the statement. `code` is its SQLSTATE, `constraint`
    /// the name of the constraint that was violated, where it gave them.
    Database { code: Option<String>, constraint: Option<String> },
    /// Any other failure: no connection, a protocol error, a missing row.
    Other,
}

/// A `StoreError` in specifications.
pub enum StoreErrorView {
    Database { code: Option<Seq<char>>, constraint: Option<Seq<char>> },
    Other,
}

impl View for StoreError {
    type V = StoreErrorView;

    open spec fn view(&self) -> StoreErrorView {
        match self {
            StoreError::Database { code, constraint } => StoreErrorView::Database {
                code: option_view(*code),
                constraint: option_view(*constraint),
            },
            StoreError::Other => StoreErrorView::Other,
        }
    }
}

/// Every way in which registering, logging in or authenticating can fail.
#[derive(Debug, Clone, PartialEq, Eq)]
pub enum AuthError {
    /// The email address belongs to an account already.
    RegisterEmailExists,
    /// The username is taken.
    RegisterUsernameExists,
    /// The persistence layer failed.
    DatabaseError(StoreError),
    /// A password could not be hashed, or a stored hash is not a hash string.
    PasswordHashingError,
    /// Another fault on the server's side; the text is for the operator.
    Internal(String),
    /// Unknown email address or wrong password; the two are not told apart.
    InvalidCredentials,
    /// The token is missing, malformed, forged or expired.
    Unauthorized,
}

/// An `AuthError` in specifications.
pub enum AuthErrorView {
    RegisterEmailExists,
    RegisterUsernameExists,
    DatabaseError(StoreErrorView),
    PasswordHashingError,
    Internal(Seq<char>),
    InvalidCredentials,
    Unauthorized,
}

impl View for AuthError {
    type V = AuthErrorView;

    open spec fn view(&self) -> AuthErrorView {
        match self {
            AuthError::RegisterEmailExists => AuthErrorView::RegisterEmailExists,
            AuthError::RegisterUsernameExists => AuthErrorView::RegisterUsernameExists,
            AuthError::DatabaseError(e) => AuthErrorView::DatabaseError(e@),
            AuthError::PasswordHashingError => AuthErrorView::PasswordHashingError,
            AuthError::Internal(detail) => AuthErrorView::Internal(detail@),
            AuthError::InvalidCredentials => AuthErrorView::InvalidCredentials,
            AuthError::Unauthorized => AuthErrorView::Unauthorized,
        }
    }
}

/// What a client is sent when a request fails: the status, a sentence for
/// people and a stable code for programs.
#[derive(Debug, Clone, PartialEq, Eq)]
pub struct ErrorResponse {
    pub status: u16,
    pub error: String,
    pub code: String,
}

/// An `ErrorResponse` in specifications.
pub struct ErrorResponseView {
    pub status: u16,
    pub error: Seq<char>,
    pub code: Seq<char>,
}

impl View for ErrorResponse {
    type V = ErrorResponseView;

    open spec fn view(&self) -> ErrorResponseView {
        ErrorResponseView { status: self.status, error: self.error@, code: self.code@ }
    }
}

impl AuthErrorView {
    /// The HTTP status that goes with the failure. Conflicts are 409. A rejected
    /// token and a failed login are 401: both are the caller's to mend. What is
    /// left is a fault of the server, 500.
    pub open spec fn status_code(self) -> u16 {
        match self {
            AuthErrorView::RegisterEmailExists | AuthErrorView::RegisterUsernameExists => {
                STATUS_CONFLICT
            },
            AuthErrorView::InvalidCredentials | AuthErrorView::Unauthorized => STATUS_UNAUTHORIZED,
            AuthErrorView::DatabaseError(_)
            | AuthErrorView::PasswordHashingError
            | AuthErrorView::Internal(_) => STATUS_INTERNAL_SERVER_ERROR,
        }
    }

    /// The stable code by which a program tells the failures apart.
    pub open spec fn code(self) -> Seq<char> {
        match self {
            AuthErrorView::RegisterEmailExists => "EMAIL_EXISTS"@,
            AuthErrorView::RegisterUsernameExists => "USERNAME_EXISTS"@,
            AuthErrorView::PasswordHashingError => "CRYPTO_ERROR"@,
            AuthErrorView::DatabaseError(_) => "DATABASE_ERROR"@,
            AuthErrorView::InvalidCredentials => "INVALID_CREDENTIALS"@,
            AuthErrorView::Internal(_) => "INTERNAL_SERVER_ERROR"@,
            AuthErrorView::Unauthorized => "UNAUTHORIZED"@,
        }
    }

    /// The sentence shown to people. It depends on the kind of failure alone:
    /// neither what the database said nor the operator's text leaves the server.
    pub open spec fn message(self) -> Seq<char> {
        match self {
            AuthErrorView::RegisterEmailExists => "a user with this email already exists"@,
            AuthErrorView::RegisterUsernameExists => "this username is already taken"@,
            AuthErrorView::DatabaseError(_) => "database error occurred"@,
            AuthErrorView::PasswordHashingError => "password hashing error"@,
            AuthErrorView::Internal(_) => "internal server error"@,
            AuthErrorView::InvalidCredentials => "invalid credentials"@,
            AuthErrorView::Unauthorized => "Unauthorized: missing or invalid token"@,
        }
    }

    /// The whole answer to the client.
    pub open spec fn error_response(self) -> ErrorResponseView {
        ErrorResponseView { status: self.status_code(), error: self.message(), code: self.code() }
    }
}

impl AuthError {
    /// The HTTP status that goes with the failure.
    pub fn status_code(&self) -> (status: u16)
        ensures
            status == self@.status_code(),
    {
        match self {
            AuthError::RegisterEmailExists | AuthError::RegisterUsernameExists => STATUS_CONFLICT,
            AuthError::InvalidCredentials | AuthError::Unauthorized => STATUS_UNAUTHORIZED,
            AuthError::DatabaseError(_) | AuthError::PasswordHashingError | AuthError::Internal(_) => {
                STATUS_INTERNAL_SERVER_ERROR
            },
        }
    }

    /// The stable code by which a program tells the failures apart.
    pub fn code(&self) -> (code: &'static str)
        ensures
            code@ == self@.code(),
    {
        match self {
            AuthError::RegisterEmailExists => "EMAIL_EXISTS",
            AuthError::RegisterUsernameExists => "USERNAME_EXISTS",
            AuthError::PasswordHashingError => "CRYPTO_ERROR",
            AuthError::DatabaseError(_) => "DATABASE_ERROR",
            AuthError::InvalidCredentials => "INVALID_CREDENTIALS",
            AuthError::Internal(_) => "INTERNAL_SERVER_ERROR",
            AuthError::Unauthorized => "UNAUTHORIZED",
        }
    }

    /// The sentence shown to people.
    pub fn message(&self) -> (message: &'static str)
        ensures
            message@ == self@.message(),
    {
        match self {
            AuthError::RegisterEmailExists => "a user with this email already exists",
            AuthError::RegisterUsernameExists => "this username is already taken",
            AuthError::DatabaseError(_) => "database error occurred",
            AuthError::PasswordHashingError => "password hashing error",
            AuthError::Internal(_) => "internal server error",
            AuthError::InvalidCredentials => "invalid credentials",
            AuthError::Unauthorized => "Unauthorized: missing or invalid token",
        }
    }

    /// The whole answer to the client: status, sentence and code.
    pub fn error_response(&self) -> (response: ErrorResponse)
        ensures
            response@ == self@.error_response(),
    {
        ErrorResponse {
            status: self.status_code(),
            error: self.message().to_owned(),
            code: self.code().to_owned(),
        }
    }
}

impl From<StoreError> for AuthError {
    fn from(e: StoreError) -> (err: AuthError) {
        AuthError::DatabaseError(e)
    }
}

impl FromSpecImpl<StoreError> for AuthError {
    open spec fn obeys_from_spec() -> bool {
        true
    }

    open spec fn from_spec(e: StoreError) -> AuthError {
        AuthError::DatabaseError(e)
    }
}

/// What a client is sent depends on the kind of failure alone. Two database
/// failures are answered alike whatever the database said, and two internal
/// faults alike whatever the operator's text: no detail leaves the server.
pub proof fn error_response_hides_detail(a: AuthErrorView, b: AuthErrorView)
    requires
        (a is DatabaseError && b is DatabaseError) || (a is Internal && b is Internal),
    ensures
        a.error_response() == b.error_response(),
{
}

} // verus!
