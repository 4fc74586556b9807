//! The flows of the requests to create, to delete, to read and to update
//! users: what each step decides and what it asks for next.

use crate::cache::CacheManager;
use crate::cognito::{created_subject, subject_of, ProviderUser};
use crate::errors::{LambdaError, LambdaErrorView};
use crate::flow::{
    classify_provider_error, fails_with, is_mutation, out_of_turn, provider_error, refuse_step,
    Action, ProviderCall, Response,
};
use crate::orchestrator::{
    check_create_permission_with_cache, check_delete_permission_with_cache,
    check_update_permission, only_lists_change, permission_key, permission_looked_up,
    remember_user, same_entries, user_remembered,
};
use crate::password::{generate_password, is_temporary_password};
use crate::patterns::Patterns;
use crate::permissions::{
    bits_within, effective_bits, ordered_roles, Role, RoleSet, CREATE_BIT, DELETE_BIT, UPDATE_BIT,
};
use crate::repository::{
    is_record_of, is_update_of, update_request, user_from_update, user_in_update, user_item, user_key, UpdateRequest,
};
use crate::requests::{
    CreateUserRequest, CreateUserResponse, MessageResponse, UpdateUserRequest,
};
use crate::user::{encode_roles, user_of_item, Item, ItemErrorView, User, UserView};
use vstd::prelude::*;
use vstd::string::StringExecFns;

verus! {

/// The user that a request to create a user describes, with the
/// identifier `id`.
pub open spec fn created_user(id: Seq<char>, request: CreateUserRequest) -> UserView {
    UserView {
        id,
        name: request.user_name@,
        email: request.email@,
        organization_id: request.organization_id@,
        organization_name: request.organization_name@,
        roles: request.roles@.to_set(),
    }
}

/// The user that a request to create a user describes, with the
/// identifier `id`.
pub fn generate_new_user(id: String, request: CreateUserRequest) -> (r: Result<User, LambdaError>)
    ensures
        r is Ok,
        r->Ok_0@ == created_user(id@, request),
        request.roles@.len() > 0 ==> r->Ok_0@.roles != Set::<Role>::empty(),
{
    proof {
        if request.roles@.len() > 0 {
            assert(request.roles@.to_set().contains(request.roles@[0]));
        }
    }
    let mut user = User::new(
        id,
        request.user_name,
        request.email,
        request.organization_id,
        request.organization_name,
        RoleSet::new(),
    );
    user.set_from_roles(request.roles);
    assert(Set::<Role>::empty().union(request.roles@.to_set()) =~= request.roles@.to_set());
    Ok(user)
}

/// The answer to the creation of `user` with the temporary password
/// `tmp_password`.
pub fn build_create_user_response(user: &User, tmp_password: String) -> (r: Result<
    CreateUserResponse,
    LambdaError,
>)
    ensures
        r is Ok,
        r->Ok_0.user_name@ == user@.name,
        r->Ok_0.user_email@ == user@.email,
        r->Ok_0.user_roles@ == ordered_roles(user@.roles),
        r->Ok_0.user_tmp_password@ == tmp_password@,
{
    Ok(
        CreateUserResponse {
            user_name: user.name.clone(),
            user_email: user.email.clone(),
            user_roles: user.roles(),
            user_tmp_password: tmp_password,
        },
    )
}

/// Where the creation of a user stands.
#[derive(Debug)]
pub enum CreateUserFlow {
    /// Nothing was done yet.
    Start,
    /// The store was asked for the caller.
    LoadingCaller(String, CreateUserRequest),
    /// The provider was asked to create the account.
    CreatingAccount(CreateUserRequest, String),
    /// The provider was asked to set the temporary password.
    SettingPassword(CreateUserRequest, String, Option<ProviderUser>),
    /// The provider was asked to mark the email as verified.
    VerifyingEmail(CreateUserRequest, String, Option<ProviderUser>),
    /// The store was asked to write the user.
    WritingUser(User, String),
    /// The request is answered.
    Done,
}

/// What the first step of a creation does: a request that is not valid
/// fails with its error; else the store is asked for the caller.
pub open spec fn creation_begun(
    before: CreateUserFlow,
    caller_id: Seq<char>,
    request: CreateUserRequest,
    after: CreateUserFlow,
    action: Action,
) -> bool {
    if !(before is Start) {
        after is Done && fails_with(action, out_of_turn())
    } else if request.verdict() is Some {
        after is Done && fails_with(action, request.verdict()->0)
    } else {
        &&& after matches CreateUserFlow::LoadingCaller(id, kept)
        &&& id@ == caller_id
        &&& kept == request
        &&& action matches Action::LoadUser { user_id }
        &&& user_id@ == caller_id
    }
}

/// What the step after the lookup of the caller does: without the caller
/// the request fails with the error of a failed retrieval; a caller who may
/// not create users is refused; else the provider is asked to create an
/// account under the email of the request.
pub open spec fn creation_caller_loaded(
    before: CreateUserFlow,
    cache_before: &CacheManager,
    cache_after: &CacheManager,
    loaded: Result<User, String>,
    after: CreateUserFlow,
    action: Action,
) -> bool {
    match before {
        CreateUserFlow::LoadingCaller(caller_id, request) => match loaded {
            Err(text) => {
                &&& same_entries(cache_before, cache_after)
                &&& after is Done
                &&& fails_with(action, LambdaErrorView::UserRetrievalFailed(text@))
            },
            Ok(caller) => {
                ||| {
                    &&& permission_looked_up(
                        cache_before,
                        cache_after,
                        &caller,
                        caller_id@,
                        CREATE_BIT,
                        Err(LambdaError::InsufficientPermissions),
                    )
                    &&& after is Done
                    &&& fails_with(action, LambdaErrorView::InsufficientPermissions)
                }
                ||| {
                    &&& permission_looked_up(
                        cache_before,
                        cache_after,
                        &caller,
                        caller_id@,
                        CREATE_BIT,
                        Ok(()),
                    )
                    &&& after matches CreateUserFlow::CreatingAccount(kept, tmp_password)
                    &&& kept == request
                    &&& is_temporary_password(tmp_password@)
                    &&& action matches Action::CreateAccount { username }
                    &&& username@ == request.email@
                }
            },
        },
        _ => {
            &&& same_entries(cache_before, cache_after)
            &&& after is Done
            &&& fails_with(action, out_of_turn())
        },
    }
}

/// What the step after the creation of the account does: a refusal fails
/// with the error that its text stands for; else the provider is asked to
/// set the temporary password for good.
pub open spec fn creation_account_created(
    before: CreateUserFlow,
    outcome: Result<Option<ProviderUser>, String>,
    after: CreateUserFlow,
    action: Action,
) -> bool {
    match before {
        CreateUserFlow::CreatingAccount(request, tmp_password) => match outcome {
            Err(text) => after is Done && fails_with(
                action,
                provider_error(ProviderCall::CreateUser, text@),
            ),
            Ok(created) => {
                &&& after == CreateUserFlow::SettingPassword(request, tmp_password, created)
                &&& action matches Action::SetPassword { username, password, permanent }
                &&& username@ == request.email@
                &&& password@ == tmp_password@
                &&& permanent
            },
        },
        _ => after is Done && fails_with(action, out_of_turn()),
    }
}

/// What the step after the setting of the password does: a refusal fails
/// with an internal error; else the provider is asked to mark the email as
/// verified.
pub open spec fn creation_password_set(
    before: CreateUserFlow,
    outcome: Result<(), String>,
    after: CreateUserFlow,
    action: Action,
) -> bool {
    match before {
        CreateUserFlow::SettingPassword(request, tmp_password, created) => match outcome {
            Err(text) => after is Done && fails_with(action, LambdaErrorView::InternalError(text@)),
            Ok(_) => {
                &&& after == CreateUserFlow::VerifyingEmail(request, tmp_password, created)
                &&& action matches Action::VerifyEmail { username }
                &&& username@ == request.email@
            },
        },
        _ => after is Done && fails_with(action, out_of_turn()),
    }
}

/// What the step after the verification of the email does: a refusal fails
/// with an internal error, and so does an account without a subject; else
/// the store is asked to write the record of the user that the request
/// describes, which is read back as that user if the request names a role.
pub open spec fn creation_email_verified(
    before: CreateUserFlow,
    outcome: Result<(), String>,
    after: CreateUserFlow,
    action: Action,
) -> bool {
    match before {
        CreateUserFlow::VerifyingEmail(request, tmp_password, created) => match outcome {
            Err(text) => after is Done && fails_with(action, LambdaErrorView::InternalError(text@)),
            Ok(_) => match subject_of(created) {
                Err(e) => after is Done && fails_with(action, e),
                Ok(subject) => {
                    &&& after matches CreateUserFlow::WritingUser(user, kept)
                    &&& user@ == created_user(subject, request)
                    &&& kept == tmp_password
                    &&& action matches Action::WriteUser { item }
                    &&& is_record_of(item, created_user(subject, request))
                    &&& request.roles@.len() > 0 ==> user_of_item(item) == Ok::<
                        UserView,
                        ItemErrorView,
                    >(created_user(subject, request))
                },
            },
        },
        _ => after is Done && fails_with(action, out_of_turn()),
    }
}

/// What the last step of a creation does: a refusal fails with the error
/// of a failed creation; else the request is answered with name, email and
/// roles of the user and with the temporary password.
pub open spec fn creation_finished(
    before: CreateUserFlow,
    outcome: Result<(), String>,
    after: CreateUserFlow,
    action: Action,
) -> bool {
    &&& after is Done
    &&& match before {
        CreateUserFlow::WritingUser(user, tmp_password) => match outcome {
            Err(text) => fails_with(action, LambdaErrorView::UserCreationFailed(text@)),
            Ok(_) => {
                &&& action matches Action::Respond(Response::Created(response))
                &&& response.user_name@ == user@.name
                &&& response.user_email@ == user@.email
                &&& response.user_roles@ == ordered_roles(user@.roles)
                &&& response.user_tmp_password@ == tmp_password@
            },
        },
        _ => fails_with(action, out_of_turn()),
    }
}

impl CreateUserFlow {
    /// A creation of which nothing was done yet.
    pub fn new() -> (r: CreateUserFlow)
        ensures
            r is Start,
    {
        CreateUserFlow::Start
    }

    /// The first step: takes in the request of the caller `caller_id`.
    pub fn begin(self, patterns: &Patterns, caller_id: String, request: CreateUserRequest) -> (r: (
        CreateUserFlow,
        Action,
    ))
        ensures
            creation_begun(self, caller_id@, request, r.0, r.1),
    {
        match self {
            CreateUserFlow::Start => {},
            _ => {
                return (CreateUserFlow::Done, refuse_step());
            },
        }
        if let Err(e) = request.validate_with(patterns) {
            return (CreateUserFlow::Done, Action::Fail(e));
        }
        let user_id = caller_id.clone();
        (CreateUserFlow::LoadingCaller(caller_id, request), Action::LoadUser { user_id })
    }

    /// Takes in what the store answered to the lookup of the caller.
    pub fn on_caller(self, cache: &mut CacheManager, loaded: Result<User, String>) -> (r: (
        CreateUserFlow,
        Action,
    ))
        ensures
            creation_caller_loaded(self, old(cache), final(cache), loaded, r.0, r.1),
    {
        let (caller_id, request) = match self {
            CreateUserFlow::LoadingCaller(caller_id, request) => (caller_id, request),
            _ => {
                return (CreateUserFlow::Done, refuse_step());
            },
        };
        let caller = match loaded {
            Ok(caller) => caller,
            Err(text) => {
                return (
                    CreateUserFlow::Done,
                    Action::Fail(LambdaError::UserRetrievalFailed(text)),
                );
            },
        };
        if let Err(e) = check_create_permission_with_cache(cache, &caller, caller_id.as_str()) {
            return (CreateUserFlow::Done, Action::Fail(e));
        }
        match generate_password() {
            Err(text) => (
                CreateUserFlow::Done,
                Action::Fail(LambdaError::InternalError(text.to_owned())),
            ),
            Ok(tmp_password) => {
                let username = request.email.clone();
                (
                    CreateUserFlow::CreatingAccount(request, tmp_password),
                    Action::CreateAccount { username },
                )
            },
        }
    }

    /// Takes in what the provider answered to the creation of the account.
    pub fn on_account_created(self, outcome: Result<Option<ProviderUser>, String>) -> (r: (
        CreateUserFlow,
        Action,
    ))
        ensures
            creation_account_created(self, outcome, r.0, r.1),
    {
        match self {
            CreateUserFlow::CreatingAccount(request, tmp_password) => match outcome {
                Err(text) => (
                    CreateUserFlow::Done,
                    Action::Fail(classify_provider_error(ProviderCall::CreateUser, text)),
                ),
                Ok(created) => {
                    let action = Action::SetPassword {
                        username: request.email.clone(),
                        password: tmp_password.clone(),
                        permanent: true,
                    };
                    (CreateUserFlow::SettingPassword(request, tmp_password, created), action)
                },
            },
            _ => (CreateUserFlow::Done, refuse_step()),
        }
    }

    /// Takes in what the provider answered to the setting of the password.
    pub fn on_password_set(self, outcome: Result<(), String>) -> (r: (CreateUserFlow, Action))
        ensures
            creation_password_set(self, outcome, r.0, r.1),
    {
        match self {
            CreateUserFlow::SettingPassword(request, tmp_password, created) => match outcome {
                Err(text) => (CreateUserFlow::Done, Action::Fail(LambdaError::InternalError(text))),
                Ok(_) => {
                    let action = Action::VerifyEmail { username: request.email.clone() };
                    (CreateUserFlow::VerifyingEmail(request, tmp_password, created), action)
                },
            },
            _ => (CreateUserFlow::Done, refuse_step()),
        }
    }

    /// Takes in what the provider answered to the verification of the
    /// email.
    pub fn on_email_verified(self, outcome: Result<(), String>) -> (r: (CreateUserFlow, Action))
        ensures
            creation_email_verified(self, outcome, r.0, r.1),
    {
        match self {
            CreateUserFlow::VerifyingEmail(request, tmp_password, created) => match outcome {
                Err(text) => (CreateUserFlow::Done, Action::Fail(LambdaError::InternalError(text))),
                Ok(_) => match created_subject(&created) {
                    Err(e) => (CreateUserFlow::Done, Action::Fail(e)),
                    Ok(subject) => match generate_new_user(subject, request) {
                        Err(e) => (CreateUserFlow::Done, Action::Fail(e)),
                        Ok(user) => {
                            let item = user_item(&user);
                            (
                                CreateUserFlow::WritingUser(user, tmp_password),
                                Action::WriteUser { item },
                            )
                        },
                    },
                },
            },
            _ => (CreateUserFlow::Done, refuse_step()),
        }
    }

    /// The last step: takes in what the store answered to the writing of
    /// the user.
    pub fn on_user_written(self, outcome: Result<(), String>) -> (r: (CreateUserFlow, Action))
        ensures
            creation_finished(self, outcome, r.0, r.1),
    {
        match self {
            CreateUserFlow::WritingUser(user, tmp_password) => match outcome {
                Err(text) => (
                    CreateUserFlow::Done,
                    Action::Fail(LambdaError::UserCreationFailed(text)),
                ),
                Ok(_) => match build_create_user_response(&user, tmp_password) {
                    Ok(response) => (
                        CreateUserFlow::Done,
                        Action::Respond(Response::Created(response)),
                    ),
                    Err(e) => (CreateUserFlow::Done, Action::Fail(e)),
                },
            },
            _ => (CreateUserFlow::Done, refuse_step()),
        }
    }
}

/// Where the deletion of a user stands.
#[derive(Debug)]
pub enum DeleteUserFlow {
    /// Nothing was done yet.
    Start,
    /// The store was asked for the caller.
    LoadingCaller(String, String),
    /// The provider was asked to delete the account.
    DeletingAccount(String, String),
    /// The store was asked to delete the record.
    DeletingRecord(String),
    /// The request is answered.
    Done,
}

/// The message that a user is deleted.
pub open spec fn deleted_message(user_id: Seq<char>) -> Seq<char> {
    "User "@ + user_id + " has been deleted."@
}

/// The message that a user is updated.
pub open spec fn updated_message(user_id: Seq<char>) -> Seq<char> {
    "User "@ + user_id + " has been updated."@
}

/// What the step after the lookup of the caller does: without the caller
/// the request fails with the error of a failed retrieval; a caller who may
/// not delete users is refused, and nothing is changed anywhere; else the
/// provider is asked to delete the account.
pub open spec fn deletion_caller_loaded(
    before: DeleteUserFlow,
    cache_before: &CacheManager,
    cache_after: &CacheManager,
    loaded: Result<User, String>,
    after: DeleteUserFlow,
    action: Action,
) -> bool {
    match before {
        DeleteUserFlow::LoadingCaller(user_id, organization_id) => match loaded {
            Err(text) => {
                &&& same_entries(cache_before, cache_after)
                &&& after is Done
                &&& fails_with(action, LambdaErrorView::UserRetrievalFailed(text@))
            },
            Ok(caller) => {
                ||| {
                    &&& permission_looked_up(
                        cache_before,
                        cache_after,
                        &caller,
                        user_id@,
                        DELETE_BIT,
                        Err(LambdaError::InsufficientPermissions),
                    )
                    &&& after is Done
                    &&& fails_with(action, LambdaErrorView::InsufficientPermissions)
                }
                ||| {
                    &&& permission_looked_up(
                        cache_before,
                        cache_after,
                        &caller,
                        user_id@,
                        DELETE_BIT,
                        Ok(()),
                    )
                    &&& after == DeleteUserFlow::DeletingAccount(user_id, organization_id)
                    &&& action matches Action::DeleteAccount { username }
                    &&& username@ == user_id@
                }
            },
        },
        _ => {
            &&& same_entries(cache_before, cache_after)
            &&& after is Done
            &&& fails_with(action, out_of_turn())
        },
    }
}

/// What the step after the deletion of the account does: a refusal fails
/// with the error of a failed deletion; else the store is asked to delete
/// the record with the key of the user.
pub open spec fn deletion_account_deleted(
    before: DeleteUserFlow,
    outcome: Result<(), String>,
    after: DeleteUserFlow,
    action: Action,
) -> bool {
    match before {
        DeleteUserFlow::DeletingAccount(user_id, organization_id) => match outcome {
            Err(text) => after is Done && fails_with(
                action,
                LambdaErrorView::UserDeletionFailed(text@),
            ),
            Ok(_) => {
                &&& after == DeleteUserFlow::DeletingRecord(user_id)
                &&& action matches Action::DeleteUser { key }
                &&& key.text("id"@) == Some(user_id@)
                &&& key.text("organization_id"@) == Some(organization_id@)
            },
        },
        _ => after is Done && fails_with(action, out_of_turn()),
    }
}

/// What the last step of a deletion does: a refusal fails with the error
/// of a failed deletion; else the request is answered with the message that
/// the user is deleted.
pub open spec fn deletion_finished(
    before: DeleteUserFlow,
    outcome: Result<(), String>,
    after: DeleteUserFlow,
    action: Action,
) -> bool {
    &&& after is Done
    &&& match before {
        DeleteUserFlow::DeletingRecord(user_id) => match outcome {
            Err(text) => fails_with(action, LambdaErrorView::UserDeletionFailed(text@)),
            Ok(_) => {
                &&& action matches Action::Respond(Response::Message(response))
                &&& response.message@ == deleted_message(user_id@)
            },
        },
        _ => fails_with(action, out_of_turn()),
    }
}

impl DeleteUserFlow {
    /// A deletion of which nothing was done yet.
    pub fn new() -> (r: DeleteUserFlow)
        ensures
            r is Start,
    {
        DeleteUserFlow::Start
    }

    /// The first step: the store is asked for the caller `user_id`, who is
    /// also the user to delete.
    pub fn begin(self, user_id: String, organization_id: String) -> (r: (DeleteUserFlow, Action))
        ensures
            if self is Start {
                &&& r.0 == DeleteUserFlow::LoadingCaller(user_id, organization_id)
                &&& r.1 matches Action::LoadUser { user_id: asked }
                &&& asked@ == user_id@
            } else {
                r.0 is Done && fails_with(r.1, out_of_turn())
            },
    {
        match self {
            DeleteUserFlow::Start => {
                let asked = user_id.clone();
                (
                    DeleteUserFlow::LoadingCaller(user_id, organization_id),
                    Action::LoadUser { user_id: asked },
                )
            },
            _ => (DeleteUserFlow::Done, refuse_step()),
        }
    }

    /// Takes in what the store answered to the lookup of the caller.
    pub fn on_caller(self, cache: &mut CacheManager, loaded: Result<User, String>) -> (r: (
        DeleteUserFlow,
        Action,
    ))
        ensures
            deletion_caller_loaded(self, old(cache), final(cache), loaded, r.0, r.1),
    {
        let (user_id, organization_id) = match self {
            DeleteUserFlow::LoadingCaller(user_id, organization_id) => (user_id, organization_id),
            _ => {
                return (DeleteUserFlow::Done, refuse_step());
            },
        };
        let caller = match loaded {
            Ok(caller) => caller,
            Err(text) => {
                return (
                    DeleteUserFlow::Done,
                    Action::Fail(LambdaError::UserRetrievalFailed(text)),
                );
            },
        };
        if let Err(e) = check_delete_permission_with_cache(cache, &caller, user_id.as_str()) {
            return (DeleteUserFlow::Done, Action::Fail(e));
        }
        let username = user_id.clone();
        (
            DeleteUserFlow::DeletingAccount(user_id, organization_id),
            Action::DeleteAccount { username },
        )
    }

    /// Takes in what the provider answered to the deletion of the account.
    pub fn on_account_deleted(self, outcome: Result<(), String>) -> (r: (DeleteUserFlow, Action))
        ensures
            deletion_account_deleted(self, outcome, r.0, r.1),
    {
        match self {
            DeleteUserFlow::DeletingAccount(user_id, organization_id) => match outcome {
                Err(text) => (
                    DeleteUserFlow::Done,
                    Action::Fail(LambdaError::UserDeletionFailed(text)),
                ),
                Ok(_) => {
                    let key = user_key(user_id.as_str(), organization_id.as_str());
                    (DeleteUserFlow::DeletingRecord(user_id), Action::DeleteUser { key })
                },
            },
            _ => (DeleteUserFlow::Done, refuse_step()),
        }
    }

    /// The last step: takes in what the store answered to the deletion of
    /// the record.
    pub fn on_record_deleted(self, outcome: Result<(), String>) -> (r: (DeleteUserFlow, Action))
        ensures
            deletion_finished(self, outcome, r.0, r.1),
    {
        match self {
            DeleteUserFlow::DeletingRecord(user_id) => match outcome {
                Err(text) => (
                    DeleteUserFlow::Done,
                    Action::Fail(LambdaError::UserDeletionFailed(text)),
                ),
                Ok(_) => {
                    let mut message: String = "User ".to_owned();
                    message.append(user_id.as_str());
                    message.append(" has been deleted.");
                    (
                        DeleteUserFlow::Done,
                        Action::Respond(Response::Message(MessageResponse { message })),
                    )
                },
            },
            _ => (DeleteUserFlow::Done, refuse_step()),
        }
    }
}

/// A caller who lacks the permission to delete, and for whom no decision to
/// the contrary is cached, is refused with status 403, and the step that
/// refuses asks for no change at the provider or in the store; the flow is
/// over, so that no later step can ask for one either.
pub proof fn lemma_refused_deletion_changes_nothing(
    before: DeleteUserFlow,
    cache_before: &CacheManager,
    cache_after: &CacheManager,
    caller: User,
    after: DeleteUserFlow,
    action: Action,
)
    requires
        before is LoadingCaller,
        deletion_caller_loaded(before, cache_before, cache_after, Ok(caller), after, action),
        !bits_within(DELETE_BIT, effective_bits(caller@.roles)),
        ({
            let key = permission_key(before->LoadingCaller_0@, DELETE_BIT);
            cache_before.permissions().contains_key(key) ==> !cache_before.permissions()[key]
        }),
    ensures
        after is Done,
        fails_with(action, LambdaErrorView::InsufficientPermissions),
        crate::errors::status_of(action->Fail_0@) == 403,
        !is_mutation(action),
{
}

/// Once a flow of deletion is over, every further step is refused and asks
/// for no change at the provider or in the store.
pub proof fn lemma_finished_deletion_stays_finished(
    outcome: Result<(), String>,
    after: DeleteUserFlow,
    action: Action,
)
    requires
        deletion_account_deleted(DeleteUserFlow::Done, outcome, after, action)
            || deletion_finished(DeleteUserFlow::Done, outcome, after, action),
    ensures
        after is Done,
        fails_with(action, out_of_turn()),
        !is_mutation(action),
{
}

/// Where the reading of one user stands.
#[derive(Debug)]
pub enum GetUserFlow {
    /// Nothing was done yet.
    Start,
    /// The store was asked for the user.
    LoadingUser(String),
    /// The request is answered.
    Done,
}

impl GetUserFlow {
    /// A reading of which nothing was done yet.
    pub fn new() -> (r: GetUserFlow)
        ensures
            r is Start,
    {
        GetUserFlow::Start
    }

    /// The first step: the request is answered with the cached user, if
    /// the cache gives one; else the store is asked for the user.
    pub fn begin(self, cache: &CacheManager, user_id: String) -> (r: (GetUserFlow, Action))
        ensures
            if self is Start {
                ||| {
                    &&& r.0 is Done
                    &&& cache.users().contains_key(user_id@)
                    &&& r.1 matches Action::Respond(Response::User(user))
                    &&& user == cache.users()[user_id@]
                }
                ||| {
                    &&& r.0 matches GetUserFlow::LoadingUser(kept)
                    &&& kept@ == user_id@
                    &&& r.1 matches Action::LoadUser { user_id: asked }
                    &&& asked@ == user_id@
                }
            } else {
                r.0 is Done && fails_with(r.1, out_of_turn())
            },
    {
        match self {
            GetUserFlow::Start => match cache.get_user(user_id.as_str()) {
                Some(user) => (GetUserFlow::Done, Action::Respond(Response::User(user))),
                None => {
                    let asked = user_id.clone();
                    (GetUserFlow::LoadingUser(user_id), Action::LoadUser { user_id: asked })
                },
            },
            _ => (GetUserFlow::Done, refuse_step()),
        }
    }

    /// The last step: a user is cached and the request is answered with
    /// it; a failure caches nothing and becomes the error that the user is
    /// not found.
    pub fn on_user(self, cache: &mut CacheManager, loaded: Result<User, String>) -> (r: (
        GetUserFlow,
        Action,
    ))
        ensures
            r.0 is Done,
            match self {
                GetUserFlow::LoadingUser(user_id) => match loaded {
                    Ok(user) => {
                        &&& user_remembered(old(cache), final(cache), user_id@, loaded, Ok(user))
                        &&& r.1 matches Action::Respond(Response::User(answered))
                        &&& answered@ == user@
                    },
                    Err(_) => {
                        &&& same_entries(old(cache), final(cache))
                        &&& fails_with(r.1, LambdaErrorView::UserNotFound)
                    },
                },
                _ => same_entries(old(cache), final(cache)) && fails_with(r.1, out_of_turn()),
            },
    {
        match self {
            GetUserFlow::LoadingUser(user_id) => match remember_user(
                cache,
                user_id.as_str(),
                loaded,
            ) {
                Ok(user) => (GetUserFlow::Done, Action::Respond(Response::User(user))),
                Err(_) => (GetUserFlow::Done, Action::Fail(LambdaError::UserNotFound)),
            },
            _ => (GetUserFlow::Done, refuse_step()),
        }
    }
}

/// A copy of a list of users.
pub fn copy_users(users: &Vec<User>) -> (r: Vec<User>)
    ensures
        r@.len() == users@.len(),
        forall|i: int| 0 <= i < users@.len() ==> (#[trigger] r@[i])@ == users@[i]@,
{
    let n: usize = users.len();
    let mut out: Vec<User> = Vec::new();
    let mut i: usize = 0;
    while i < n
        invariant
            n == users@.len(),
            i <= n,
            out@.len() == i,
            forall|j: int| 0 <= j < i ==> (#[trigger] out@[j])@ == users@[j]@,
        decreases n - i,
    {
        out.push(users[i].clone());
        i = i + 1;
    }
    out
}

/// Where the reading of the users of an organization stands.
#[derive(Debug)]
pub enum GetUsersFlow {
    /// Nothing was done yet.
    Start,
    /// The store was asked for the users.
    LoadingUsers(String),
    /// The request is answered.
    Done,
}

impl GetUsersFlow {
    /// A reading of which nothing was done yet.
    pub fn new() -> (r: GetUsersFlow)
        ensures
            r is Start,
    {
        GetUsersFlow::Start
    }

    /// The first step: the request is answered with the cached list, if
    /// the cache gives one; else the store is asked for the users of the
    /// organization.
    pub fn begin(self, cache: &CacheManager, organization_id: String) -> (r: (GetUsersFlow, Action))
        ensures
            if self is Start {
                ||| {
                    &&& r.0 is Done
                    &&& cache.org_users().contains_key(organization_id@)
                    &&& r.1 matches Action::Respond(Response::Users(users))
                    &&& users == cache.org_users()[organization_id@]
                }
                ||| {
                    &&& r.0 matches GetUsersFlow::LoadingUsers(kept)
                    &&& kept@ == organization_id@
                    &&& r.1 matches Action::LoadOrganizationUsers { organization_id: asked }
                    &&& asked@ == organization_id@
                }
            } else {
                r.0 is Done && fails_with(r.1, out_of_turn())
            },
    {
        match self {
            GetUsersFlow::Start => match cache.get_org_users(organization_id.as_str()) {
                Some(users) => (GetUsersFlow::Done, Action::Respond(Response::Users(users))),
                None => {
                    let asked = organization_id.clone();
                    (
                        GetUsersFlow::LoadingUsers(organization_id),
                        Action::LoadOrganizationUsers { organization_id: asked },
                    )
                },
            },
            _ => (GetUsersFlow::Done, refuse_step()),
        }
    }

    /// The last step: a list of users is cached and the request is
    /// answered with it; a failure caches nothing and becomes the error
    /// that the organization is not found.
    pub fn on_users(self, cache: &mut CacheManager, loaded: Result<Vec<User>, String>) -> (r: (
        GetUsersFlow,
        Action,
    ))
        ensures
            r.0 is Done,
            match self {
                GetUsersFlow::LoadingUsers(organization_id) => match loaded {
                    Ok(users) => {
                        &&& only_lists_change(old(cache), final(cache))
                        &&& final(cache).org_users().contains_key(organization_id@)
                        &&& final(cache).org_users() == old(cache).org_users().insert(
                            organization_id@,
                            final(cache).org_users()[organization_id@],
                        )
                        &&& r.1 matches Action::Respond(Response::Users(answered))
                        &&& answered == users
                        &&& final(cache).org_users()[organization_id@]@.len() == users@.len()
                    },
                    Err(_) => {
                        &&& same_entries(old(cache), final(cache))
                        &&& fails_with(r.1, LambdaErrorView::OrganizationNotFound)
                    },
                },
                _ => same_entries(old(cache), final(cache)) && fails_with(r.1, out_of_turn()),
            },
    {
        match self {
            GetUsersFlow::LoadingUsers(organization_id) => match loaded {
                Ok(users) => {
                    let copy = copy_users(&users);
                    cache.set_org_users(organization_id, copy);
                    (GetUsersFlow::Done, Action::Respond(Response::Users(users)))
                },
                Err(_) => (GetUsersFlow::Done, Action::Fail(LambdaError::OrganizationNotFound)),
            },
            _ => (GetUsersFlow::Done, refuse_step()),
        }
    }
}

/// The user after an update: the names of the user and of the organization
/// are those of the request, and the roles of the request are added to the
/// user's.
pub open spec fn updated_user(user: UserView, request: UpdateUserRequest) -> UserView {
    UserView {
        name: request.user_name@,
        organization_name: request.organization_name@,
        roles: user.roles.union(request.roles@.to_set()),
        ..user
    }
}

/// Where the update of a user stands.
#[derive(Debug)]
pub enum UpdateUserFlow {
    /// Nothing was done yet.
    Start,
    /// The store was asked for the caller.
    LoadingCaller(String, UpdateUserRequest),
    /// The store was asked to update the user.
    Updating(String),
    /// The request is answered.
    Done,
}

/// What the step after the lookup of the caller does: without the caller
/// the request fails with the error of a failed retrieval; a caller who may
/// not update users is refused; else the store is asked to write the
/// changed user.
pub open spec fn update_caller_loaded(
    before: UpdateUserFlow,
    loaded: Result<User, String>,
    after: UpdateUserFlow,
    action: Action,
) -> bool {
    match before {
        UpdateUserFlow::LoadingCaller(user_id, request) => match loaded {
            Err(text) => after is Done && fails_with(
                action,
                LambdaErrorView::UserRetrievalFailed(text@),
            ),
            Ok(user) => if !bits_within(UPDATE_BIT, effective_bits(user@.roles)) {
                after is Done && fails_with(action, LambdaErrorView::InsufficientPermissions)
            } else {
                let changed = updated_user(user@, request);
                &&& after == UpdateUserFlow::Updating(user_id)
                &&& action matches Action::UpdateUser { request: update }
                &&& is_update_of(update, changed)
            },
        },
        _ => after is Done && fails_with(action, out_of_turn()),
    }
}

/// What the last step of an update does: a refusal fails with the error of
/// a failed update, and so does an answer that holds no user; else the
/// request is answered with the message that the user is updated.
pub open spec fn update_finished(
    before: UpdateUserFlow,
    outcome: Result<Option<Item>, String>,
    after: UpdateUserFlow,
    action: Action,
) -> bool {
    &&& after is Done
    &&& match before {
        UpdateUserFlow::Updating(user_id) => match outcome {
            Err(text) => fails_with(action, LambdaErrorView::UserUpdateFailed(text@)),
            Ok(attributes) => match user_in_update(attributes) {
                Err(e) => fails_with(
                    action,
                    LambdaErrorView::UserUpdateFailed(
                        crate::repository::repository_error_message(e),
                    ),
                ),
                Ok(_) => {
                    &&& action matches Action::Respond(Response::Message(response))
                    &&& response.message@ == updated_message(user_id@)
                },
            },
        },
        _ => fails_with(action, out_of_turn()),
    }
}

impl UpdateUserFlow {
    /// An update of which nothing was done yet.
    pub fn new() -> (r: UpdateUserFlow)
        ensures
            r is Start,
    {
        UpdateUserFlow::Start
    }

    /// The first step: a request that is not valid fails with its error;
    /// else the store is asked for the caller `user_id`, who is also the
    /// user to update.
    pub fn begin(self, patterns: &Patterns, user_id: String, request: UpdateUserRequest) -> (r: (
        UpdateUserFlow,
        Action,
    ))
        ensures
            if !(self is Start) {
                r.0 is Done && fails_with(r.1, out_of_turn())
            } else if request.verdict() is Some {
                r.0 is Done && fails_with(r.1, request.verdict()->0)
            } else {
                &&& r.0 == UpdateUserFlow::LoadingCaller(user_id, request)
                &&& r.1 matches Action::LoadUser { user_id: asked }
                &&& asked@ == user_id@
            },
    {
        match self {
            UpdateUserFlow::Start => {},
            _ => {
                return (UpdateUserFlow::Done, refuse_step());
            },
        }
        if let Err(e) = request.validate_with(patterns) {
            return (UpdateUserFlow::Done, Action::Fail(e));
        }
        let asked = user_id.clone();
        (UpdateUserFlow::LoadingCaller(user_id, request), Action::LoadUser { user_id: asked })
    }

    /// Takes in what the store answered to the lookup of the caller.
    pub fn on_caller(self, loaded: Result<User, String>) -> (r: (UpdateUserFlow, Action))
        ensures
            update_caller_loaded(self, loaded, r.0, r.1),
    {
        let (user_id, request) = match self {
            UpdateUserFlow::LoadingCaller(user_id, request) => (user_id, request),
            _ => {
                return (UpdateUserFlow::Done, refuse_step());
            },
        };
        let mut user = match loaded {
            Ok(user) => user,
            Err(text) => {
                return (
                    UpdateUserFlow::Done,
                    Action::Fail(LambdaError::UserRetrievalFailed(text)),
                );
            },
        };
        if let Err(e) = check_update_permission(&user) {
            return (UpdateUserFlow::Done, Action::Fail(e));
        }
        user.name = request.user_name;
        user.organization_name = request.organization_name;
        user.set_from_roles(request.roles);
        let update = update_request(&user);
        (UpdateUserFlow::Updating(user_id), Action::UpdateUser { request: update })
    }

    /// The last step: takes in what the store answered to the update.
    pub fn on_updated(self, outcome: Result<Option<Item>, String>) -> (r: (UpdateUserFlow, Action))
        ensures
            update_finished(self, outcome, r.0, r.1),
    {
        let user_id = match self {
            UpdateUserFlow::Updating(user_id) => user_id,
            _ => {
                return (UpdateUserFlow::Done, refuse_step());
            },
        };
        let attributes = match outcome {
            Ok(attributes) => attributes,
            Err(text) => {
                return (UpdateUserFlow::Done, Action::Fail(LambdaError::UserUpdateFailed(text)));
            },
        };
        match user_from_update(&attributes) {
            Err(e) => (UpdateUserFlow::Done, Action::Fail(LambdaError::UserUpdateFailed(e.message()))),
            Ok(_) => {
                let mut message: String = "User ".to_owned();
                message.append(user_id.as_str());
                message.append(" has been updated.");
                (
                    UpdateUserFlow::Done,
                    Action::Respond(Response::Message(MessageResponse { message })),
                )
            },
        }
    }
}

} // verus!
