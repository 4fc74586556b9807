//! The flows of the requests to log in, to get new tokens, to sign up and
//! to validate a token: what each step decides and what it asks for next.

use crate::cache::CacheManager;
use crate::cognito::{created_subject, subject_of, AuthenticationResult, CognitoClient, ProviderUser};
use crate::errors::{LambdaError, LambdaErrorView, ToLambdaError};
use crate::flow::{
    classify_provider_error, fails_with, out_of_turn, provider_error, refuse_step, token_or,
    token_or_fallback, Action, ProviderCall, Response,
};
use crate::keyset::{fetch_error_text, is_stale, FetchError, KeySetPlan, SigningKeySet};
use crate::orchestrator::{
    calculate_hash_with_cache, hash_looked_up, remember_user, same_entries, user_remembered,
};
use crate::patterns::Patterns;
use crate::permissions::{Role, RoleSet};
use crate::repository::{
    find_organization_id_by_name, is_record_of, organization_id_in, user_item,
};
use crate::requests::{
    LoginRequest, LoginResponse, RefreshTokenRequest, RefreshTokenResponse, SignupRequest,
    SignupResponse, TokenValidateRequest, TokenValidateResponse,
};
use crate::token::{
    extract_user_id_from_token, lambda_error_of, token_verdict, unverified_subject, Claims,
    CognitoTokenAuthorizer,
};
use crate::user::{user_of_item, Item, ItemErrorView, User, UserView};
use vstd::prelude::*;

verus! {

/// The tokens of somebody who has authenticated, while the user is looked
/// up.
#[derive(Debug)]
pub struct LoginTokens {
    pub access_token: String,
    pub id_token: String,
    pub refresh_token: String,
}

/// Where a login stands.
#[derive(Debug)]
pub enum LoginFlow {
    /// Nothing was done yet.
    Start,
    /// The provider was asked to authenticate.
    Authenticating,
    /// The store was asked for the user.
    LoadingUser(LoginTokens),
    /// The request is answered.
    Done,
}

/// What the first step of a login does: a request that is not valid fails
/// with its error; else the secret hash of the email is looked up and the
/// provider is asked to authenticate under the email as the user name.
pub open spec fn login_begun(
    before: LoginFlow,
    cache_before: &CacheManager,
    cache_after: &CacheManager,
    client: &CognitoClient,
    request: LoginRequest,
    after: LoginFlow,
    action: Action,
) -> bool {
    if !(before is Start) {
        after is Done && fails_with(action, out_of_turn()) && same_entries(
            cache_before,
            cache_after,
        )
    } else if request.verdict() is Some {
        after is Done && fails_with(action, request.verdict()->0) && same_entries(
            cache_before,
            cache_after,
        )
    } else {
        &&& after is Authenticating
        &&& action matches Action::Authenticate { username, email, password, hash }
        &&& username@ == request.email@
        &&& email@ == request.email@
        &&& password@ == request.password@
        &&& hash_looked_up(cache_before, cache_after, client, request.email@, Ok(hash))
    }
}

/// What the step after the provider's answer does: a refusal fails with
/// the error that its text stands for; an answer without tokens, without an
/// identity token, or with one that names no subject fails with an internal
/// error; else the store is asked for the user that the identity token
/// names.
pub open spec fn login_authenticated(
    before: LoginFlow,
    outcome: Result<Option<AuthenticationResult>, String>,
    after: LoginFlow,
    action: Action,
) -> bool {
    if !(before is Authenticating) {
        after is Done && fails_with(action, out_of_turn())
    } else {
        match outcome {
            Err(text) => after is Done && fails_with(
                action,
                provider_error(ProviderCall::Login, text@),
            ),
            Ok(None) => after is Done && fails_with(
                action,
                LambdaErrorView::InternalError("Failed to authenticate"@),
            ),
            Ok(Some(result)) => match result.id_token {
                None => after is Done && fails_with(
                    action,
                    LambdaErrorView::InternalError("Missing id_token"@),
                ),
                Some(id_token) => match unverified_subject(id_token@) {
                    Err(text) => after is Done && fails_with(
                        action,
                        LambdaErrorView::InternalError(text),
                    ),
                    Ok(subject) => {
                        &&& after matches LoginFlow::LoadingUser(tokens)
                        &&& tokens.access_token@ == token_or(
                            result.access_token,
                            "Missing access_token"@,
                        )
                        &&& tokens.id_token@ == id_token@
                        &&& tokens.refresh_token@ == token_or(
                            result.refresh_token,
                            "Missing refresh_token"@,
                        )
                        &&& action matches Action::LoadUser { user_id }
                        &&& user_id@ == subject
                    },
                },
            },
        }
    }
}

/// What the last step of a login does: without the user the request fails
/// with the error that the user is not found; else it is answered with the
/// tokens and with the identifiers of the user and of its organization.
pub open spec fn login_finished(
    before: LoginFlow,
    loaded: Result<User, String>,
    after: LoginFlow,
    action: Action,
) -> bool {
    &&& after is Done
    &&& match before {
        LoginFlow::LoadingUser(tokens) => match loaded {
            Err(_) => fails_with(action, LambdaErrorView::UserNotFound),
            Ok(user) => {
                &&& action matches Action::Respond(Response::Login(response))
                &&& response.access_token@ == tokens.access_token@
                &&& response.id_token@ == tokens.id_token@
                &&& response.refresh_token@ == tokens.refresh_token@
                &&& response.user_id@ == user@.id
                &&& response.organization_id@ == user@.organization_id
            },
        },
        _ => fails_with(action, out_of_turn()),
    }
}

impl LoginFlow {
    /// A login of which nothing was done yet.
    pub fn new() -> (r: LoginFlow)
        ensures
            r is Start,
    {
        LoginFlow::Start
    }

    /// The first step: takes in the request.
    pub fn begin(
        self,
        cache: &mut CacheManager,
        client: &CognitoClient,
        patterns: &Patterns,
        request: LoginRequest,
    ) -> (r: (LoginFlow, Action))
        ensures
            login_begun(self, old(cache), final(cache), client, request, r.0, r.1),
    {
        match self {
            LoginFlow::Start => {},
            _ => {
                return (LoginFlow::Done, refuse_step());
            },
        }
        if let Err(e) = request.validate_with(patterns) {
            return (LoginFlow::Done, Action::Fail(e));
        }
        match calculate_hash_with_cache(cache, client, request.email.as_str()) {
            Err(e) => (LoginFlow::Done, Action::Fail(e)),
            Ok(hash) => (
                LoginFlow::Authenticating,
                Action::Authenticate {
                    username: request.email.clone(),
                    email: request.email,
                    password: request.password,
                    hash,
                },
            ),
        }
    }

    /// The second step: takes in what the provider answered.
    pub fn on_authenticated(self, outcome: Result<Option<AuthenticationResult>, String>) -> (r: (
        LoginFlow,
        Action,
    ))
        ensures
            login_authenticated(self, outcome, r.0, r.1),
    {
        match self {
            LoginFlow::Authenticating => {},
            _ => {
                return (LoginFlow::Done, refuse_step());
            },
        }
        let result = match outcome {
            Err(text) => {
                return (
                    LoginFlow::Done,
                    Action::Fail(classify_provider_error(ProviderCall::Login, text)),
                );
            },
            Ok(None) => {
                return (
                    LoginFlow::Done,
                    Action::Fail(LambdaError::InternalError("Failed to authenticate".to_owned())),
                );
            },
            Ok(Some(result)) => result,
        };
        let id_token = match result.id_token {
            Some(id_token) => id_token,
            None => {
                return (
                    LoginFlow::Done,
                    Action::Fail(LambdaError::InternalError("Missing id_token".to_owned())),
                );
            },
        };
        match extract_user_id_from_token(id_token.as_str()) {
            Err(text) => (LoginFlow::Done, Action::Fail(LambdaError::InternalError(text))),
            Ok(user_id) => {
                let tokens = LoginTokens {
                    access_token: token_or_fallback(result.access_token, "Missing access_token"),
                    id_token,
                    refresh_token: token_or_fallback(result.refresh_token, "Missing refresh_token"),
                };
                (LoginFlow::LoadingUser(tokens), Action::LoadUser { user_id })
            },
        }
    }

    /// The last step: takes in what the store answered.
    pub fn on_user(self, loaded: Result<User, String>) -> (r: (LoginFlow, Action))
        ensures
            login_finished(self, loaded, r.0, r.1),
    {
        match self {
            LoginFlow::LoadingUser(tokens) => match loaded {
                Err(_) => (LoginFlow::Done, Action::Fail(LambdaError::UserNotFound)),
                Ok(user) => (
                    LoginFlow::Done,
                    Action::Respond(
                        Response::Login(
                            LoginResponse {
                                access_token: tokens.access_token,
                                id_token: tokens.id_token,
                                refresh_token: tokens.refresh_token,
                                user_id: user.id,
                                organization_id: user.organization_id,
                            },
                        ),
                    ),
                ),
            },
            _ => (LoginFlow::Done, refuse_step()),
        }
    }
}

/// Where a request for new tokens stands.
#[derive(Debug)]
pub enum RefreshFlow {
    /// Nothing was done yet.
    Start,
    /// The provider was asked to authenticate.
    Refreshing,
    /// The request is answered.
    Done,
}

/// What the first step of a request for new tokens does: a request that is
/// not valid fails with its error; else the secret hash of the caller's
/// identifier is looked up and the provider is asked to authenticate with
/// the refresh token.
pub open spec fn refresh_begun(
    before: RefreshFlow,
    cache_before: &CacheManager,
    cache_after: &CacheManager,
    client: &CognitoClient,
    user_id: Seq<char>,
    request: RefreshTokenRequest,
    after: RefreshFlow,
    action: Action,
) -> bool {
    if !(before is Start) {
        after is Done && fails_with(action, out_of_turn()) && same_entries(
            cache_before,
            cache_after,
        )
    } else if request.verdict() is Some {
        after is Done && fails_with(action, request.verdict()->0) && same_entries(
            cache_before,
            cache_after,
        )
    } else {
        &&& after is Refreshing
        &&& action matches Action::Refresh { refresh_token, hash }
        &&& refresh_token@ == request.refresh_token@
        &&& hash_looked_up(cache_before, cache_after, client, user_id, Ok(hash))
    }
}

/// What the last step of a request for new tokens does: a refusal fails
/// with the error that its text stands for; an answer without tokens fails
/// with an internal error; else the request is answered with the tokens.
pub open spec fn refresh_finished(
    before: RefreshFlow,
    outcome: Result<Option<AuthenticationResult>, String>,
    after: RefreshFlow,
    action: Action,
) -> bool {
    &&& after is Done
    &&& if !(before is Refreshing) {
        fails_with(action, out_of_turn())
    } else {
        match outcome {
            Err(text) => fails_with(action, provider_error(ProviderCall::Refresh, text@)),
            Ok(None) => fails_with(
                action,
                LambdaErrorView::InternalError("Failed to refresh token"@),
            ),
            Ok(Some(result)) => {
                &&& action matches Action::Respond(Response::Refresh(response))
                &&& response.access_token@ == token_or(
                    result.access_token,
                    "Missing access_token"@,
                )
                &&& response.refresh_token@ == token_or(
                    result.refresh_token,
                    "Missing refresh_token"@,
                )
            },
        }
    }
}

impl RefreshFlow {
    /// A request of which nothing was done yet.
    pub fn new() -> (r: RefreshFlow)
        ensures
            r is Start,
    {
        RefreshFlow::Start
    }

    /// The first step: takes in the request of the caller `user_id`.
    pub fn begin(
        self,
        cache: &mut CacheManager,
        client: &CognitoClient,
        user_id: &str,
        request: RefreshTokenRequest,
    ) -> (r: (RefreshFlow, Action))
        ensures
            refresh_begun(self, old(cache), final(cache), client, user_id@, request, r.0, r.1),
    {
        match self {
            RefreshFlow::Start => {},
            _ => {
                return (RefreshFlow::Done, refuse_step());
            },
        }
        if let Err(e) = request.validate() {
            return (RefreshFlow::Done, Action::Fail(e));
        }
        match calculate_hash_with_cache(cache, client, user_id) {
            Err(e) => (RefreshFlow::Done, Action::Fail(e)),
            Ok(hash) => (
                RefreshFlow::Refreshing,
                Action::Refresh { refresh_token: request.refresh_token, hash },
            ),
        }
    }

    /// The last step: takes in what the provider answered.
    pub fn on_refreshed(self, outcome: Result<Option<AuthenticationResult>, String>) -> (r: (
        RefreshFlow,
        Action,
    ))
        ensures
            refresh_finished(self, outcome, r.0, r.1),
    {
        match self {
            RefreshFlow::Refreshing => {},
            _ => {
                return (RefreshFlow::Done, refuse_step());
            },
        }
        match outcome {
            Err(text) => (
                RefreshFlow::Done,
                Action::Fail(classify_provider_error(ProviderCall::Refresh, text)),
            ),
            Ok(None) => (
                RefreshFlow::Done,
                Action::Fail(LambdaError::InternalError("Failed to refresh token".to_owned())),
            ),
            Ok(Some(result)) => (
                RefreshFlow::Done,
                Action::Respond(
                    Response::Refresh(
                        RefreshTokenResponse {
                            access_token: token_or_fallback(
                                result.access_token,
                                "Missing access_token",
                            ),
                            refresh_token: token_or_fallback(
                                result.refresh_token,
                                "Missing refresh_token",
                            ),
                        },
                    ),
                ),
            ),
        }
    }
}

/// How many characters a fresh identifier has.
pub const IDENTIFIER_LENGTH: usize = 36;

/// `Uuid::new_v4` of uuid, written with `to_string`, which gives the
/// hyphenated form of 36 characters: a random identifier.
#[verifier::external_body]
fn fresh_identifier() -> (r: String)
    ensures
        r@.len() == IDENTIFIER_LENGTH,
{
    uuid::Uuid::new_v4().to_string()
}

/// The user that signs up: into an organization that exists it comes as a
/// writer, with the identifier of that organization; a new organization it
/// founds as its administrator, with the identifier `fresh`.
pub open spec fn joined_user(
    id: Seq<char>,
    request: SignupRequest,
    existing: Option<Seq<char>>,
    fresh: Seq<char>,
) -> UserView {
    UserView {
        id,
        name: request.user_name@,
        email: request.email@,
        organization_id: match existing {
            Some(organization_id) => organization_id,
            None => fresh,
        },
        organization_name: request.organization_name@,
        roles: match existing {
            Some(_) => Set::<Role>::empty().insert(Role::Writer),
            None => Set::<Role>::empty().insert(Role::Admin),
        },
    }
}

/// The user that signs up, where `existing` is the identifier of the
/// organization that the request names, if there is one.
pub open spec fn signup_user(
    id: Seq<char>,
    request: SignupRequest,
    existing: Option<String>,
    fresh: Seq<char>,
) -> UserView {
    joined_user(
        id,
        request,
        match existing {
            Some(organization_id) => Some(organization_id@),
            None => None,
        },
        fresh,
    )
}

/// The user that signs up, where `existing` is the identifier of the
/// organization that the request names, if there is one, and `fresh` an
/// identifier for a new organization.
pub fn new_member(id: String, request: SignupRequest, existing: Option<String>, fresh: String) -> (r:
    User)
    ensures
        r@ == signup_user(id@, request, existing, fresh@),
{
    let mut roles = RoleSet::new();
    let organization_id = match existing {
        Some(organization_id) => {
            roles.insert(Role::Writer);
            organization_id
        },
        None => {
            roles.insert(Role::Admin);
            fresh
        },
    };
    User::new(id, request.user_name, request.email, organization_id, request.organization_name, roles)
}

/// The user that signs up, with a random identifier of 36 characters for
/// an organization that does not exist yet.
pub fn generate_new_user(id: String, request: SignupRequest, existing: Option<String>) -> (r: User)
    ensures
        r@ == signup_user(id@, request, existing, r@.organization_id),
        existing is None ==> r@.organization_id.len() == IDENTIFIER_LENGTH,
{
    let fresh = match &existing {
        Some(_) => String::new(),
        None => fresh_identifier(),
    };
    new_member(id, request, existing, fresh)
}

/// Where a signup stands.
#[derive(Debug)]
pub enum SignupFlow {
    /// Nothing was done yet.
    Start,
    /// The provider was asked to create the account.
    CreatingAccount(SignupRequest),
    /// The provider was asked to set the password.
    SettingPassword(SignupRequest, Option<ProviderUser>),
    /// The provider was asked to mark the email as verified.
    VerifyingEmail(SignupRequest, Option<ProviderUser>),
    /// The store was asked for its records, to find the organization.
    FindingOrganization(SignupRequest, String),
    /// The store was asked to write the user.
    WritingUser,
    /// The request is answered.
    Done,
}

/// What the first step of a signup does: a request that is not valid fails
/// with its error; else the provider is asked to create an account under
/// the email.
pub open spec fn signup_begun(
    before: SignupFlow,
    request: SignupRequest,
    after: SignupFlow,
    action: Action,
) -> bool {
    if !(before is Start) {
        after is Done && fails_with(action, out_of_turn())
    } else if request.verdict() is Some {
        after is Done && fails_with(action, request.verdict()->0)
    } else {
        &&& after == SignupFlow::CreatingAccount(request)
        &&& action matches Action::CreateAccount { username }
        &&& username@ == request.email@
    }
}

/// What the step after the creation of the account does: a refusal fails
/// with the error that its text stands for; else the provider is asked to
/// set the password for good.
pub open spec fn signup_account_created(
    before: SignupFlow,
    outcome: Result<Option<ProviderUser>, String>,
    after: SignupFlow,
    action: Action,
) -> bool {
    match before {
        SignupFlow::CreatingAccount(request) => match outcome {
            Err(text) => after is Done && fails_with(
                action,
                provider_error(ProviderCall::Signup, text@),
            ),
            Ok(created) => {
                &&& after == SignupFlow::SettingPassword(request, created)
                &&& action matches Action::SetPassword { username, password, permanent }
                &&& username@ == request.email@
                &&& password@ == request.password@
                &&& permanent
            },
        },
        _ => after is Done && fails_with(action, out_of_turn()),
    }
}

/// What the step after the setting of the password does: a refusal fails
/// with an internal error; else the provider is asked to mark the email as
/// verified.
pub open spec fn signup_password_set(
    before: SignupFlow,
    outcome: Result<(), String>,
    after: SignupFlow,
    action: Action,
) -> bool {
    match before {
        SignupFlow::SettingPassword(request, created) => match outcome {
            Err(text) => after is Done && fails_with(action, LambdaErrorView::InternalError(text@)),
            Ok(_) => {
                &&& after == SignupFlow::VerifyingEmail(request, created)
                &&& action matches Action::VerifyEmail { username }
                &&& username@ == request.email@
            },
        },
        _ => after is Done && fails_with(action, out_of_turn()),
    }
}

/// What the step after the verification of the email does: a refusal fails
/// with an internal error, and so does an account without a subject; else
/// the store is asked for its records.
pub open spec fn signup_email_verified(
    before: SignupFlow,
    outcome: Result<(), String>,
    after: SignupFlow,
    action: Action,
) -> bool {
    match before {
        SignupFlow::VerifyingEmail(request, created) => match outcome {
            Err(text) => after is Done && fails_with(action, LambdaErrorView::InternalError(text@)),
            Ok(_) => match subject_of(created) {
                Err(e) => after is Done && fails_with(action, e),
                Ok(subject) => {
                    &&& after matches SignupFlow::FindingOrganization(kept, id)
                    &&& kept == request
                    &&& id@ == subject
                    &&& action is ScanRecords
                },
            },
        },
        _ => after is Done && fails_with(action, out_of_turn()),
    }
}

/// What the step after the scan of the store does: a refusal fails with an
/// internal error; else the store is asked to write the record of the new
/// user, who is a writer of the organization that the request names if a
/// record names it, and the administrator of a new one if none does. The
/// record is read back as that user.
pub open spec fn signup_organization_found(
    before: SignupFlow,
    outcome: Result<Option<Vec<Item>>, String>,
    after: SignupFlow,
    action: Action,
) -> bool {
    match before {
        SignupFlow::FindingOrganization(request, subject) => match outcome {
            Err(text) => after is Done && fails_with(action, LambdaErrorView::InternalError(text@)),
            Ok(items) => {
                let existing = organization_id_in(items, request.organization_name@);
                &&& after is WritingUser
                &&& action matches Action::WriteUser { item }
                &&& item.text("organization_id"@) is Some
                &&& existing is None ==> item.text("organization_id"@)->0.len()
                    == IDENTIFIER_LENGTH
                &&& is_record_of(
                    item,
                    joined_user(subject@, request, existing, item.text("organization_id"@)->0),
                )
                &&& user_of_item(item) == Ok::<UserView, ItemErrorView>(
                    joined_user(subject@, request, existing, item.text("organization_id"@)->0),
                )
            },
        },
        _ => after is Done && fails_with(action, out_of_turn()),
    }
}

/// What the last step of a signup does: a refusal fails with the error of a
/// failed creation; else the request is answered.
pub open spec fn signup_finished(
    before: SignupFlow,
    outcome: Result<(), String>,
    after: SignupFlow,
    action: Action,
) -> bool {
    &&& after is Done
    &&& if !(before is WritingUser) {
        fails_with(action, out_of_turn())
    } else {
        match outcome {
            Err(text) => fails_with(action, LambdaErrorView::UserCreationFailed(text@)),
            Ok(_) => {
                &&& action matches Action::Respond(Response::Signup(response))
                &&& response.message@ == "signup successfully."@
            },
        }
    }
}

impl SignupFlow {
    /// A signup of which nothing was done yet.
    pub fn new() -> (r: SignupFlow)
        ensures
            r is Start,
    {
        SignupFlow::Start
    }

    /// The first step: takes in the request.
    pub fn begin(self, patterns: &Patterns, request: SignupRequest) -> (r: (SignupFlow, Action))
        ensures
            signup_begun(self, request, r.0, r.1),
    {
        match self {
            SignupFlow::Start => {},
            _ => {
                return (SignupFlow::Done, refuse_step());
            },
        }
        if let Err(e) = request.validate_with(patterns) {
            return (SignupFlow::Done, Action::Fail(e));
        }
        let username = request.email.clone();
        (SignupFlow::CreatingAccount(request), Action::CreateAccount { username })
    }

    /// Takes in what the provider answered to the creation of the account.
    pub fn on_account_created(self, outcome: Result<Option<ProviderUser>, String>) -> (r: (
        SignupFlow,
        Action,
    ))
        ensures
            signup_account_created(self, outcome, r.0, r.1),
    {
        match self {
            SignupFlow::CreatingAccount(request) => match outcome {
                Err(text) => (
                    SignupFlow::Done,
                    Action::Fail(classify_provider_error(ProviderCall::Signup, text)),
                ),
                Ok(created) => {
                    let action = Action::SetPassword {
                        username: request.email.clone(),
                        password: request.password.clone(),
                        permanent: true,
                    };
                    (SignupFlow::SettingPassword(request, created), action)
                },
            },
            _ => (SignupFlow::Done, refuse_step()),
        }
    }

    /// Takes in what the provider answered to the setting of the password.
    pub fn on_password_set(self, outcome: Result<(), String>) -> (r: (SignupFlow, Action))
        ensures
            signup_password_set(self, outcome, r.0, r.1),
    {
        match self {
            SignupFlow::SettingPassword(request, created) => match outcome {
                Err(text) => (SignupFlow::Done, Action::Fail(LambdaError::InternalError(text))),
                Ok(_) => {
                    let action = Action::VerifyEmail { username: request.email.clone() };
                    (SignupFlow::VerifyingEmail(request, created), action)
                },
            },
            _ => (SignupFlow::Done, refuse_step()),
        }
    }

    /// Takes in what the provider answered to the verification of the
    /// email.
    pub fn on_email_verified(self, outcome: Result<(), String>) -> (r: (SignupFlow, Action))
        ensures
            signup_email_verified(self, outcome, r.0, r.1),
    {
        match self {
            SignupFlow::VerifyingEmail(request, created) => match outcome {
                Err(text) => (SignupFlow::Done, Action::Fail(LambdaError::InternalError(text))),
                Ok(_) => match created_subject(&created) {
                    Err(e) => (SignupFlow::Done, Action::Fail(e)),
                    Ok(subject) => (
                        SignupFlow::FindingOrganization(request, subject),
                        Action::ScanRecords,
                    ),
                },
            },
            _ => (SignupFlow::Done, refuse_step()),
        }
    }

    /// Takes in the records of the store.
    pub fn on_records(self, outcome: Result<Option<Vec<Item>>, String>) -> (r: (
        SignupFlow,
        Action,
    ))
        ensures
            signup_organization_found(self, outcome, r.0, r.1),
    {
        match self {
            SignupFlow::FindingOrganization(request, subject) => match outcome {
                Err(text) => (SignupFlow::Done, Action::Fail(LambdaError::InternalError(text))),
                Ok(items) => {
                    let existing = find_organization_id_by_name(
                        &items,
                        request.organization_name.as_str(),
                    );
                    let user = generate_new_user(subject, request, existing);
                    let item = user_item(&user);
                    (SignupFlow::WritingUser, Action::WriteUser { item })
                },
            },
            _ => (SignupFlow::Done, refuse_step()),
        }
    }

    /// The last step: takes in what the store answered to the writing of
    /// the user.
    pub fn on_user_written(self, outcome: Result<(), String>) -> (r: (SignupFlow, Action))
        ensures
            signup_finished(self, outcome, r.0, r.1),
    {
        match self {
            SignupFlow::WritingUser => match outcome {
                Err(text) => (SignupFlow::Done, Action::Fail(LambdaError::UserCreationFailed(text))),
                Ok(_) => (
                    SignupFlow::Done,
                    Action::Respond(
                        Response::Signup(SignupResponse { message: "signup successfully.".to_owned() }),
                    ),
                ),
            },
            _ => (SignupFlow::Done, refuse_step()),
        }
    }
}

/// Where the validation of a token stands.
#[derive(Debug)]
pub enum ValidateFlow {
    /// Nothing was done yet.
    Start,
    /// The issuer's keys are being fetched; the token waits here.
    FetchingKeys(String),
    /// The store was asked for the user that the token names.
    LoadingUser(String),
    /// The request is answered.
    Done,
}

/// What the verification of `token` at `now` does: a token that is refused
/// fails with the error of its class; for one that is accepted, the
/// request is answered with the cached user that it names, or the store is
/// asked for that user.
pub open spec fn token_checked(
    authorizer: &CognitoTokenAuthorizer,
    cache: &CacheManager,
    token: Seq<char>,
    now: u64,
    after: ValidateFlow,
    action: Action,
) -> bool {
    match token_verdict(token, authorizer.cache().keys(), authorizer.spec_issuer(), now) {
        Err(e) => after is Done && fails_with(action, lambda_error_of(e)),
        Ok(claims) => {
            ||| {
                &&& after is Done
                &&& cache.users().contains_key(claims.sub)
                &&& action matches Action::Respond(Response::Validated(response))
                &&& response.user_id@ == cache.users()[claims.sub]@.id
                &&& response.organization_id@ == cache.users()[claims.sub]@.organization_id
            }
            ||| {
                &&& after matches ValidateFlow::LoadingUser(subject)
                &&& subject@ == claims.sub
                &&& action matches Action::LoadUser { user_id }
                &&& user_id@ == claims.sub
            }
        },
    }
}

/// What the first step of a validation does: a request that is not valid
/// fails with its error; if the keys are stale, they are fetched; else the
/// token is verified.
pub open spec fn validation_begun(
    before: ValidateFlow,
    authorizer: &CognitoTokenAuthorizer,
    cache: &CacheManager,
    request: TokenValidateRequest,
    now: u64,
    after: ValidateFlow,
    action: Action,
) -> bool {
    if !(before is Start) {
        after is Done && fails_with(action, out_of_turn())
    } else if request.verdict() is Some {
        after is Done && fails_with(action, request.verdict()->0)
    } else if is_stale(authorizer.cache().fetched_at(), now) {
        &&& after matches ValidateFlow::FetchingKeys(token)
        &&& token@ == request.token@
        &&& action matches Action::FetchKeys { url }
        &&& url@ == authorizer.spec_jwks_url()
    } else {
        token_checked(authorizer, cache, request.token@, now, after, action)
    }
}

/// What the step after the fetch of the keys does: a key set with a key
/// replaces the held one; after a failed fetch the held keys stay, and the
/// request fails only if no keys were ever fetched; then the token is
/// verified against the held keys.
pub open spec fn validation_keys_fetched(
    before: ValidateFlow,
    authorizer_before: &CognitoTokenAuthorizer,
    authorizer_after: &CognitoTokenAuthorizer,
    cache: &CacheManager,
    fetched: Result<SigningKeySet, FetchError>,
    now: u64,
    after: ValidateFlow,
    action: Action,
) -> bool {
    &&& authorizer_after.spec_user_pool_id() == authorizer_before.spec_user_pool_id()
    &&& authorizer_after.spec_region() == authorizer_before.spec_region()
    &&& authorizer_after.spec_jwks_url() == authorizer_before.spec_jwks_url()
    &&& match before {
        ValidateFlow::FetchingKeys(token) => {
            let replaced = fetched is Ok && fetched->Ok_0.keys@.len() > 0;
            &&& if replaced {
                &&& authorizer_after.cache().keys() == fetched->Ok_0.keys@
                &&& authorizer_after.cache().fetched_at() == Some(now)
            } else {
                authorizer_after.cache() == authorizer_before.cache()
            }
            &&& if !replaced && authorizer_before.cache().fetched_at() is None {
                &&& after is Done
                &&& fails_with(
                    action,
                    LambdaErrorView::InternalError(
                        fetch_error_text(
                            match fetched {
                                Ok(_) => FetchError::Empty,
                                Err(e) => e,
                            },
                        ),
                    ),
                )
            } else {
                token_checked(authorizer_after, cache, token@, now, after, action)
            }
        },
        _ => {
            &&& authorizer_after.cache() == authorizer_before.cache()
            &&& after is Done
            &&& fails_with(action, out_of_turn())
        },
    }
}

/// What the last step of a validation does: a user is cached and the
/// request is answered with the identifiers of the user and of its
/// organization; a failure caches nothing and becomes the error of a
/// failed retrieval.
pub open spec fn validation_finished(
    before: ValidateFlow,
    cache_before: &CacheManager,
    cache_after: &CacheManager,
    loaded: Result<User, String>,
    after: ValidateFlow,
    action: Action,
) -> bool {
    &&& after is Done
    &&& match before {
        ValidateFlow::LoadingUser(subject) => match loaded {
            Ok(user) => {
                &&& user_remembered(cache_before, cache_after, subject@, loaded, Ok(user))
                &&& action matches Action::Respond(Response::Validated(response))
                &&& response.user_id@ == user@.id
                &&& response.organization_id@ == user@.organization_id
            },
            Err(text) => {
                &&& same_entries(cache_before, cache_after)
                &&& fails_with(action, LambdaErrorView::UserRetrievalFailed(text@))
            },
        },
        _ => same_entries(cache_before, cache_after) && fails_with(action, out_of_turn()),
    }
}

/// Verifies `token` and decides what follows.
fn check_token(authorizer: &CognitoTokenAuthorizer, cache: &CacheManager, token: String, now: u64) -> (r:
    (ValidateFlow, Action))
    ensures
        token_checked(authorizer, cache, token@, now, r.0, r.1),
{
    match authorizer.validate_token_at(token.as_str(), now) {
        Err(e) => (ValidateFlow::Done, Action::Fail(e.to_lambda_error())),
        Ok(claims) => match cache.get_user(claims.sub.as_str()) {
            Some(user) => (
                ValidateFlow::Done,
                Action::Respond(
                    Response::Validated(
                        TokenValidateResponse {
                            user_id: user.id,
                            organization_id: user.organization_id,
                        },
                    ),
                ),
            ),
            None => {
                let user_id = claims.sub.clone();
                (ValidateFlow::LoadingUser(claims.sub), Action::LoadUser { user_id })
            },
        },
    }
}

impl ValidateFlow {
    /// A validation of which nothing was done yet.
    pub fn new() -> (r: ValidateFlow)
        ensures
            r is Start,
    {
        ValidateFlow::Start
    }

    /// The first step: takes in the request at the time `now`, in seconds
    /// since the Unix epoch.
    pub fn begin(
        self,
        authorizer: &CognitoTokenAuthorizer,
        cache: &CacheManager,
        request: TokenValidateRequest,
        now: u64,
    ) -> (r: (ValidateFlow, Action))
        ensures
            validation_begun(self, authorizer, cache, request, now, r.0, r.1),
    {
        match self {
            ValidateFlow::Start => {},
            _ => {
                return (ValidateFlow::Done, refuse_step());
            },
        }
        if let Err(e) = request.validate() {
            return (ValidateFlow::Done, Action::Fail(e));
        }
        match authorizer.key_set_plan(now) {
            KeySetPlan::Refresh => {
                let url = authorizer.jwks_url().to_owned();
                (ValidateFlow::FetchingKeys(request.token), Action::FetchKeys { url })
            },
            KeySetPlan::UseCached => check_token(authorizer, cache, request.token, now),
        }
    }

    /// Takes in what the fetch of the keys at the time `now` has brought.
    pub fn on_keys(
        self,
        authorizer: &mut CognitoTokenAuthorizer,
        cache: &CacheManager,
        fetched: Result<SigningKeySet, FetchError>,
        now: u64,
    ) -> (r: (ValidateFlow, Action))
        ensures
            validation_keys_fetched(
                self,
                old(authorizer),
                final(authorizer),
                cache,
                fetched,
                now,
                r.0,
                r.1,
            ),
    {
        let token = match self {
            ValidateFlow::FetchingKeys(token) => token,
            _ => {
                return (ValidateFlow::Done, refuse_step());
            },
        };
        let had_keys = authorizer.has_keys();
        match authorizer.record_key_set(fetched, now) {
            Ok(_) => check_token(authorizer, cache, token, now),
            Err(e) => {
                if had_keys {
                    check_token(authorizer, cache, token, now)
                } else {
                    (ValidateFlow::Done, Action::Fail(e.to_lambda_error()))
                }
            },
        }
    }

    /// Takes in that the keys need no fetch any more, because they were
    /// fetched for another request in the meantime: the token is verified
    /// against the held keys.
    pub fn on_keys_current(self, authorizer: &CognitoTokenAuthorizer, cache: &CacheManager, now: u64) -> (r:
        (ValidateFlow, Action))
        ensures
            match self {
                ValidateFlow::FetchingKeys(token) => token_checked(
                    authorizer,
                    cache,
                    token@,
                    now,
                    r.0,
                    r.1,
                ),
                _ => r.0 is Done && fails_with(r.1, out_of_turn()),
            },
    {
        match self {
            ValidateFlow::FetchingKeys(token) => check_token(authorizer, cache, token, now),
            _ => (ValidateFlow::Done, refuse_step()),
        }
    }

    /// The last step: takes in what the store answered.
    pub fn on_user(self, cache: &mut CacheManager, loaded: Result<User, String>) -> (r: (
        ValidateFlow,
        Action,
    ))
        ensures
            validation_finished(self, old(cache), final(cache), loaded, r.0, r.1),
    {
        let subject = match self {
            ValidateFlow::LoadingUser(subject) => subject,
            _ => {
                return (ValidateFlow::Done, refuse_step());
            },
        };
        match remember_user(cache, subject.as_str(), loaded) {
            Err(e) => (ValidateFlow::Done, Action::Fail(e)),
            Ok(user) => (
                ValidateFlow::Done,
                Action::Respond(
                    Response::Validated(
                        TokenValidateResponse {
                            user_id: user.id,
                            organization_id: user.organization_id,
                        },
                    ),
                ),
            ),
        }
    }
}

} // verus!
