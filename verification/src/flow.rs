//! What the flows of the requests have in common: the actions that a flow
//! asks for, the answers that it gives, and how the texts of the
//! provider's refusals become errors.

use crate::errors::{LambdaError, LambdaErrorView};
use crate::repository::UpdateRequest;
use crate::requests::{
    CreateUserResponse, LoginResponse, MessageResponse, RefreshTokenResponse, SignupResponse,
    TokenValidateResponse,
};
use crate::text::{contains, seq_contains};
use crate::user::{Item, User};
use vstd::prelude::*;

verus! {

/// The request that the identity provider refused.
#[derive(Clone, Copy, Debug, PartialEq, Eq, Structural)]
pub enum ProviderCall {
    /// To authenticate with a password.
    Login,
    /// To create the account of somebody who signs up.
    Signup,
    /// To authenticate with a refresh token.
    Refresh,
    /// To create an account for somebody else.
    CreateUser,
}

/// The error that a refusal of the provider becomes, by the name of the
/// exception that its text holds.
pub open spec fn provider_error(call: ProviderCall, text: Seq<char>) -> LambdaErrorView {
    match call {
        ProviderCall::Login => if seq_contains(text, "NotAuthorizedException"@) {
            LambdaErrorView::AuthenticationFailed
        } else if seq_contains(text, "UserNotFoundException"@) {
            LambdaErrorView::UserNotFound
        } else {
            LambdaErrorView::InternalError(text)
        },
        ProviderCall::Signup => if seq_contains(text, "UsernameExistsException"@) {
            LambdaErrorView::UserAlreadyExists
        } else if seq_contains(text, "InvalidPasswordException"@) {
            LambdaErrorView::InvalidPassword
        } else {
            LambdaErrorView::InternalError(text)
        },
        ProviderCall::Refresh => if seq_contains(text, "NotAuthorizedException"@) {
            LambdaErrorView::InvalidRefreshToken
        } else if seq_contains(text, "ExpiredToken"@) {
            LambdaErrorView::TokenExpired
        } else {
            LambdaErrorView::InternalError(text)
        },
        ProviderCall::CreateUser => if seq_contains(text, "UsernameExistsException"@) {
            LambdaErrorView::UserAlreadyExists
        } else {
            LambdaErrorView::UserCreationFailed(text)
        },
    }
}

/// The error that a refusal of the provider becomes.
pub fn classify_provider_error(call: ProviderCall, text: String) -> (r: LambdaError)
    ensures
        r@ == provider_error(call, text@),
{
    match call {
        ProviderCall::Login => {
            if contains(text.as_str(), "NotAuthorizedException") {
                LambdaError::AuthenticationFailed
            } else if contains(text.as_str(), "UserNotFoundException") {
                LambdaError::UserNotFound
            } else {
                LambdaError::InternalError(text)
            }
        },
        ProviderCall::Signup => {
            if contains(text.as_str(), "UsernameExistsException") {
                LambdaError::UserAlreadyExists
            } else if contains(text.as_str(), "InvalidPasswordException") {
                LambdaError::InvalidPassword
            } else {
                LambdaError::InternalError(text)
            }
        },
        ProviderCall::Refresh => {
            if contains(text.as_str(), "NotAuthorizedException") {
                LambdaError::InvalidRefreshToken
            } else if contains(text.as_str(), "ExpiredToken") {
                LambdaError::TokenExpired
            } else {
                LambdaError::InternalError(text)
            }
        },
        ProviderCall::CreateUser => {
            if contains(text.as_str(), "UsernameExistsException") {
                LambdaError::UserAlreadyExists
            } else {
                LambdaError::UserCreationFailed(text)
            }
        },
    }
}

/// The text of an optional token, or `fallback` for a token that is
/// missing.
pub open spec fn token_or(token: Option<String>, fallback: Seq<char>) -> Seq<char> {
    match token {
        Some(text) => text@,
        None => fallback,
    }
}

/// The text of an optional token, or `fallback` for a token that is
/// missing.
pub fn token_or_fallback(token: Option<String>, fallback: &str) -> (r: String)
    ensures
        r@ == token_or(token, fallback@),
{
    match token {
        Some(text) => text,
        None => fallback.to_owned(),
    }
}

/// The body of a successful answer.
#[derive(Debug)]
pub enum Response {
    Login(LoginResponse),
    Signup(SignupResponse),
    Refresh(RefreshTokenResponse),
    Validated(TokenValidateResponse),
    Created(CreateUserResponse),
    Message(MessageResponse),
    User(User),
    Users(Vec<User>),
}

/// What a flow asks to be done next. Each action but the last two is
/// answered by the event of the same step of the flow; the last two end the
/// flow.
#[derive(Debug)]
pub enum Action {
    /// Ask the provider to authenticate with a password.
    Authenticate { username: String, email: String, password: String, hash: String },
    /// Ask the provider to authenticate with a refresh token.
    Refresh { refresh_token: String, hash: String },
    /// Ask the provider to create an account.
    CreateAccount { username: String },
    /// Ask the provider to set the password of an account.
    SetPassword { username: String, password: String, permanent: bool },
    /// Ask the provider to mark the email of an account as verified.
    VerifyEmail { username: String },
    /// Ask the provider to delete an account.
    DeleteAccount { username: String },
    /// Fetch the issuer's key set from this address.
    FetchKeys { url: String },
    /// Ask the store for the user with this identifier.
    LoadUser { user_id: String },
    /// Ask the store for the users of this organization.
    LoadOrganizationUsers { organization_id: String },
    /// Ask the store for all its records.
    ScanRecords,
    /// Write this record of a new user into the store.
    WriteUser { item: Item },
    /// Update a user in the store.
    UpdateUser { request: UpdateRequest },
    /// Delete the record with this key from the store.
    DeleteUser { key: Item },
    /// Answer the request with success.
    Respond(Response),
    /// Answer the request with this error.
    Fail(LambdaError),
}

/// Whether `action` ends a flow with the error `e`.
pub open spec fn fails_with(action: Action, e: LambdaErrorView) -> bool {
    action is Fail && action->Fail_0@ == e
}

/// The error of a step that is taken out of turn.
pub open spec fn out_of_turn() -> LambdaErrorView {
    LambdaErrorView::InternalError("unexpected step"@)
}

/// The action of a step that is taken out of turn.
pub fn refuse_step() -> (r: Action)
    ensures
        fails_with(r, out_of_turn()),
{
    Action::Fail(LambdaError::InternalError("unexpected step".to_owned()))
}

/// Whether an action changes something at the provider or in the store.
pub open spec fn is_mutation(action: Action) -> bool {
    action is CreateAccount || action is SetPassword || action is VerifyEmail
        || action is DeleteAccount || action is WriteUser || action is UpdateUser
        || action is DeleteUser
}

/// Whether an action changes something at the provider or in the store.
pub fn changes_something(action: &Action) -> (r: bool)
    ensures
        r == is_mutation(*action),
{
    match action {
        Action::CreateAccount { .. }
        | Action::SetPassword { .. }
        | Action::VerifyEmail { .. }
        | Action::DeleteAccount { .. }
        | Action::WriteUser { .. }
        | Action::UpdateUser { .. }
        | Action::DeleteUser { .. } => true,
        _ => false,
    }
}

} // verus!
