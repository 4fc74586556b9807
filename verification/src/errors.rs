//! The errors that a request can end in, with their HTTP status and the
//! two texts of the error body.

use vstd::prelude::*;
use vstd::string::StringExecFns;

verus! {

/// Every way in which a request can fail.
#[derive(Debug)]
pub enum LambdaError {
    InvalidEmail,
    InvalidUsername,
    InvalidPassword,
    InvalidOrganizationName,
    InvalidToken,
    InvalidRefreshToken,
    AuthenticationFailed,
    TokenExpired,
    InvalidSignature,
    UserNotFound,
    UserAlreadyExists,
    InsufficientPermissions,
    OrganizationNotFound,
    MissingOrganizationId,
    MissingRoles,
    MissingBody,
    MissingToken,
    UserCreationFailed(String),
    UserDeletionFailed(String),
    UserUpdateFailed(String),
    UserRetrievalFailed(String),
    TokenRefreshFailed(String),
    InternalError(String),
}

/// A `LambdaError`, with its detail as a sequence of characters.
pub enum LambdaErrorView {
    InvalidEmail,
    InvalidUsername,
    InvalidPassword,
    InvalidOrganizationName,
    InvalidToken,
    InvalidRefreshToken,
    AuthenticationFailed,
    TokenExpired,
    InvalidSignature,
    UserNotFound,
    UserAlreadyExists,
    InsufficientPermissions,
    OrganizationNotFound,
    MissingOrganizationId,
    MissingRoles,
    MissingBody,
    MissingToken,
    UserCreationFailed(Seq<char>),
    UserDeletionFailed(Seq<char>),
    UserUpdateFailed(Seq<char>),
    UserRetrievalFailed(Seq<char>),
    TokenRefreshFailed(Seq<char>),
    InternalError(Seq<char>),
}

impl View for LambdaError {
    type V = LambdaErrorView;

    open spec fn view(&self) -> LambdaErrorView {
        match self {
            LambdaError::InvalidEmail => LambdaErrorView::InvalidEmail,
            LambdaError::InvalidUsername => LambdaErrorView::InvalidUsername,
            LambdaError::InvalidPassword => LambdaErrorView::InvalidPassword,
            LambdaError::InvalidOrganizationName => LambdaErrorView::InvalidOrganizationName,
            LambdaError::InvalidToken => LambdaErrorView::InvalidToken,
            LambdaError::InvalidRefreshToken => LambdaErrorView::InvalidRefreshToken,
            LambdaError::AuthenticationFailed => LambdaErrorView::AuthenticationFailed,
            LambdaError::TokenExpired => LambdaErrorView::TokenExpired,
            LambdaError::InvalidSignature => LambdaErrorView::InvalidSignature,
            LambdaError::UserNotFound => LambdaErrorView::UserNotFound,
            LambdaError::UserAlreadyExists => LambdaErrorView::UserAlreadyExists,
            LambdaError::InsufficientPermissions => LambdaErrorView::InsufficientPermissions,
            LambdaError::OrganizationNotFound => LambdaErrorView::OrganizationNotFound,
            LambdaError::MissingOrganizationId => LambdaErrorView::MissingOrganizationId,
            LambdaError::MissingRoles => LambdaErrorView::MissingRoles,
            LambdaError::MissingBody => LambdaErrorView::MissingBody,
            LambdaError::MissingToken => LambdaErrorView::MissingToken,
            LambdaError::UserCreationFailed(s) => LambdaErrorView::UserCreationFailed(s@),
            LambdaError::UserDeletionFailed(s) => LambdaErrorView::UserDeletionFailed(s@),
            LambdaError::UserUpdateFailed(s) => LambdaErrorView::UserUpdateFailed(s@),
            LambdaError::UserRetrievalFailed(s) => LambdaErrorView::UserRetrievalFailed(s@),
            LambdaError::TokenRefreshFailed(s) => LambdaErrorView::TokenRefreshFailed(s@),
            LambdaError::InternalError(s) => LambdaErrorView::InternalError(s@),
        }
    }
}

/// The HTTP status of an error: 400 for input that is invalid or missing,
/// 401 for failed authentication, 403 for missing permission, 404 for what
/// is not found, 409 for a duplicate, 500 for everything else.
pub open spec fn status_of(e: LambdaErrorView) -> i64 {
    match e {
        LambdaErrorView::InvalidEmail
        | LambdaErrorView::InvalidUsername
        | LambdaErrorView::InvalidPassword
        | LambdaErrorView::InvalidOrganizationName
        | LambdaErrorView::InvalidToken
        | LambdaErrorView::InvalidRefreshToken
        | LambdaErrorView::MissingBody
        | LambdaErrorView::MissingToken
        | LambdaErrorView::MissingOrganizationId
        | LambdaErrorView::MissingRoles => 400,
        LambdaErrorView::AuthenticationFailed
        | LambdaErrorView::TokenExpired
        | LambdaErrorView::InvalidSignature => 401,
        LambdaErrorView::InsufficientPermissions => 403,
        LambdaErrorView::UserNotFound | LambdaErrorView::OrganizationNotFound => 404,
        LambdaErrorView::UserAlreadyExists => 409,
        LambdaErrorView::UserCreationFailed(_)
        | LambdaErrorView::UserDeletionFailed(_)
        | LambdaErrorView::UserUpdateFailed(_)
        | LambdaErrorView::UserRetrievalFailed(_)
        | LambdaErrorView::TokenRefreshFailed(_)
        | LambdaErrorView::InternalError(_) => 500,
    }
}

/// The text for the person who made the request. It never holds the detail
/// of an error.
pub open spec fn user_message_of(e: LambdaErrorView) -> Seq<char> {
    match e {
        LambdaErrorView::InvalidEmail => "Please provide a valid email address"@,
        LambdaErrorView::InvalidUsername =>
            "Username must be 3-30 characters long and contain only letters, numbers, underscores, or hyphens"@,
        LambdaErrorView::InvalidPassword =>
            "Password must be at least 8 characters long and contain uppercase, lowercase, and numbers"@,
        LambdaErrorView::InvalidOrganizationName =>
            "Organization name must be between 2 and 100 characters"@,
        LambdaErrorView::InvalidToken => "Invalid token provided"@,
        LambdaErrorView::InvalidRefreshToken => "Invalid refresh token"@,
        LambdaErrorView::AuthenticationFailed => "Invalid credentials"@,
        LambdaErrorView::TokenExpired => "Token has expired"@,
        LambdaErrorView::InvalidSignature => "Token signature verification failed"@,
        LambdaErrorView::UserNotFound => "User not found"@,
        LambdaErrorView::UserAlreadyExists => "A user with this email already exists"@,
        LambdaErrorView::InsufficientPermissions =>
            "You don't have permission to perform this action"@,
        LambdaErrorView::OrganizationNotFound => "Organization not found"@,
        LambdaErrorView::MissingOrganizationId => "Organization ID is required"@,
        LambdaErrorView::MissingRoles => "At least one role must be specified"@,
        LambdaErrorView::MissingBody => "Request body is required"@,
        LambdaErrorView::MissingToken => "Token is required"@,
        LambdaErrorView::UserCreationFailed(_) => "Failed to create user. Please try again later"@,
        LambdaErrorView::UserDeletionFailed(_) => "Failed to delete user. Please try again later"@,
        LambdaErrorView::UserUpdateFailed(_) => "Failed to update user. Please try again later"@,
        LambdaErrorView::UserRetrievalFailed(_) =>
            "Failed to retrieve user information. Please try again later"@,
        LambdaErrorView::TokenRefreshFailed(_) =>
            "Failed to refresh token. Please try again later"@,
        LambdaErrorView::InternalError(_) => "An internal error occurred. Please try again later"@,
    }
}

/// The text that names the error to a machine; it ends in the detail where
/// the error has one.
pub open spec fn error_text_of(e: LambdaErrorView) -> Seq<char> {
    match e {
        LambdaErrorView::InvalidEmail => "Invalid email format"@,
        LambdaErrorView::InvalidUsername =>
            "Invalid username format (3-30 alphanumeric characters, _ or -)"@,
        LambdaErrorView::InvalidPassword => "Invalid password format"@,
        LambdaErrorView::InvalidOrganizationName => "Invalid organization name"@,
        LambdaErrorView::InvalidToken => "Invalid token format"@,
        LambdaErrorView::InvalidRefreshToken => "Invalid refresh token"@,
        LambdaErrorView::AuthenticationFailed => "Authentication failed"@,
        LambdaErrorView::TokenExpired => "Token expired"@,
        LambdaErrorView::InvalidSignature => "Invalid signature"@,
        LambdaErrorView::UserNotFound => "User not found"@,
        LambdaErrorView::UserAlreadyExists => "User already exists"@,
        LambdaErrorView::InsufficientPermissions => "Insufficient permissions"@,
        LambdaErrorView::OrganizationNotFound => "Organization not found"@,
        LambdaErrorView::MissingOrganizationId => "Organization ID is required"@,
        LambdaErrorView::MissingRoles => "At least one role must be specified"@,
        LambdaErrorView::MissingBody => "Missing request body"@,
        LambdaErrorView::MissingToken => "Missing token"@,
        LambdaErrorView::UserCreationFailed(d) => "Failed to create user: "@ + d,
        LambdaErrorView::UserDeletionFailed(d) => "Failed to delete user: "@ + d,
        LambdaErrorView::UserUpdateFailed(d) => "Failed to update user: "@ + d,
        LambdaErrorView::UserRetrievalFailed(d) => "Failed to retrieve users: "@ + d,
        LambdaErrorView::TokenRefreshFailed(d) => "Failed to refresh token: "@ + d,
        LambdaErrorView::InternalError(d) => "Internal server error: "@ + d,
    }
}

/// The body and status with which an error is answered.
#[derive(Debug)]
pub struct ErrorResponse {
    pub status_code: i64,
    pub error: String,
    pub message: String,
}

impl Clone for LambdaError {
    fn clone(&self) -> (r: LambdaError)
        ensures
            r@ == self@,
    {
        match self {
            LambdaError::InvalidEmail => LambdaError::InvalidEmail,
            LambdaError::InvalidUsername => LambdaError::InvalidUsername,
            LambdaError::InvalidPassword => LambdaError::InvalidPassword,
            LambdaError::InvalidOrganizationName => LambdaError::InvalidOrganizationName,
            LambdaError::InvalidToken => LambdaError::InvalidToken,
            LambdaError::InvalidRefreshToken => LambdaError::InvalidRefreshToken,
            LambdaError::AuthenticationFailed => LambdaError::AuthenticationFailed,
            LambdaError::TokenExpired => LambdaError::TokenExpired,
            LambdaError::InvalidSignature => LambdaError::InvalidSignature,
            LambdaError::UserNotFound => LambdaError::UserNotFound,
            LambdaError::UserAlreadyExists => LambdaError::UserAlreadyExists,
            LambdaError::InsufficientPermissions => LambdaError::InsufficientPermissions,
            LambdaError::OrganizationNotFound => LambdaError::OrganizationNotFound,
            LambdaError::MissingOrganizationId => LambdaError::MissingOrganizationId,
            LambdaError::MissingRoles => LambdaError::MissingRoles,
            LambdaError::MissingBody => LambdaError::MissingBody,
            LambdaError::MissingToken => LambdaError::MissingToken,
            LambdaError::UserCreationFailed(s) => LambdaError::UserCreationFailed(s.clone()),
            LambdaError::UserDeletionFailed(s) => LambdaError::UserDeletionFailed(s.clone()),
            LambdaError::UserUpdateFailed(s) => LambdaError::UserUpdateFailed(s.clone()),
            LambdaError::UserRetrievalFailed(s) => LambdaError::UserRetrievalFailed(s.clone()),
            LambdaError::TokenRefreshFailed(s) => LambdaError::TokenRefreshFailed(s.clone()),
            LambdaError::InternalError(s) => LambdaError::InternalError(s.clone()),
        }
    }
}

impl LambdaError {
    /// The HTTP status of this error.
    pub fn status_code(&self) -> (r: i64)
        ensures
            r == status_of(self@),
            r == 400 || r == 401 || r == 403 || r == 404 || r == 409 || r == 500,
    {
        match self {
            LambdaError::InvalidEmail
            | LambdaError::InvalidUsername
            | LambdaError::InvalidPassword
            | LambdaError::InvalidOrganizationName
            | LambdaError::InvalidToken
            | LambdaError::InvalidRefreshToken
            | LambdaError::MissingBody
            | LambdaError::MissingToken
            | LambdaError::MissingOrganizationId
            | LambdaError::MissingRoles => 400,
            LambdaError::AuthenticationFailed
            | LambdaError::TokenExpired
            | LambdaError::InvalidSignature => 401,
            LambdaError::InsufficientPermissions => 403,
            LambdaError::UserNotFound | LambdaError::OrganizationNotFound => 404,
            LambdaError::UserAlreadyExists => 409,
            LambdaError::UserCreationFailed(_)
            | LambdaError::UserDeletionFailed(_)
            | LambdaError::UserUpdateFailed(_)
            | LambdaError::UserRetrievalFailed(_)
            | LambdaError::TokenRefreshFailed(_)
            | LambdaError::InternalError(_) => 500,
        }
    }

    /// The text for the person who made the request.
    pub fn user_message(&self) -> (r: &'static str)
        ensures
            r@ == user_message_of(self@),
    {
        match self {
            LambdaError::InvalidEmail => "Please provide a valid email address",
            LambdaError::InvalidUsername =>
                "Username must be 3-30 characters long and contain only letters, numbers, underscores, or hyphens",
            LambdaError::InvalidPassword =>
                "Password must be at least 8 characters long and contain uppercase, lowercase, and numbers",
            LambdaError::InvalidOrganizationName =>
                "Organization name must be between 2 and 100 characters",
            LambdaError::InvalidToken => "Invalid token provided",
            LambdaError::InvalidRefreshToken => "Invalid refresh token",
            LambdaError::AuthenticationFailed => "Invalid credentials",
            LambdaError::TokenExpired => "Token has expired",
            LambdaError::InvalidSignature => "Token signature verification failed",
            LambdaError::UserNotFound => "User not found",
            LambdaError::UserAlreadyExists => "A user with this email already exists",
            LambdaError::InsufficientPermissions =>
                "You don't have permission to perform this action",
            LambdaError::OrganizationNotFound => "Organization not found",
            LambdaError::MissingOrganizationId => "Organization ID is required",
            LambdaError::MissingRoles => "At least one role must be specified",
            LambdaError::MissingBody => "Request body is required",
            LambdaError::MissingToken => "Token is required",
            LambdaError::UserCreationFailed(_) => "Failed to create user. Please try again later",
            LambdaError::UserDeletionFailed(_) => "Failed to delete user. Please try again later",
            LambdaError::UserUpdateFailed(_) => "Failed to update user. Please try again later",
            LambdaError::UserRetrievalFailed(_) =>
                "Failed to retrieve user information. Please try again later",
            LambdaError::TokenRefreshFailed(_) => "Failed to refresh token. Please try again later",
            LambdaError::InternalError(_) => "An internal error occurred. Please try again later",
        }
    }

    /// The text that names this error to a machine.
    pub fn to_string(&self) -> (r: String)
        ensures
            r@ == error_text_of(self@),
    {
        match self {
            LambdaError::InvalidEmail => "Invalid email format".to_owned(),
            LambdaError::InvalidUsername =>
                "Invalid username format (3-30 alphanumeric characters, _ or -)".to_owned(),
            LambdaError::InvalidPassword => "Invalid password format".to_owned(),
            LambdaError::InvalidOrganizationName => "Invalid organization name".to_owned(),
            LambdaError::InvalidToken => "Invalid token format".to_owned(),
            LambdaError::InvalidRefreshToken => "Invalid refresh token".to_owned(),
            LambdaError::AuthenticationFailed => "Authentication failed".to_owned(),
            LambdaError::TokenExpired => "Token expired".to_owned(),
            LambdaError::InvalidSignature => "Invalid signature".to_owned(),
            LambdaError::UserNotFound => "User not found".to_owned(),
            LambdaError::UserAlreadyExists => "User already exists".to_owned(),
            LambdaError::InsufficientPermissions => "Insufficient permissions".to_owned(),
            LambdaError::OrganizationNotFound => "Organization not found".to_owned(),
            LambdaError::MissingOrganizationId => "Organization ID is required".to_owned(),
            LambdaError::MissingRoles => "At least one role must be specified".to_owned(),
            LambdaError::MissingBody => "Missing request body".to_owned(),
            LambdaError::MissingToken => "Missing token".to_owned(),
            LambdaError::UserCreationFailed(d) => "Failed to create user: ".to_owned().concat(
                d.as_str(),
            ),
            LambdaError::UserDeletionFailed(d) => "Failed to delete user: ".to_owned().concat(
                d.as_str(),
            ),
            LambdaError::UserUpdateFailed(d) => "Failed to update user: ".to_owned().concat(
                d.as_str(),
            ),
            LambdaError::UserRetrievalFailed(d) => "Failed to retrieve users: ".to_owned().concat(
                d.as_str(),
            ),
            LambdaError::TokenRefreshFailed(d) => "Failed to refresh token: ".to_owned().concat(
                d.as_str(),
            ),
            LambdaError::InternalError(d) => "Internal server error: ".to_owned().concat(
                d.as_str(),
            ),
        }
    }

    /// The body and status with which this error is answered.
    pub fn to_response(&self) -> (r: ErrorResponse)
        ensures
            r.status_code == status_of(self@),
            r.error@ == error_text_of(self@),
            r.message@ == user_message_of(self@),
    {
        ErrorResponse {
            status_code: self.status_code(),
            error: self.to_string(),
            message: self.user_message().to_owned(),
        }
    }
}

/// The result of a step of a request.
pub type LambdaResult<T> = Result<T, LambdaError>;

/// What can be turned into a `LambdaError`.
pub trait ToLambdaError {
    /// The error that `self` becomes.
    fn to_lambda_error(self) -> LambdaError;
}

} // verus!
