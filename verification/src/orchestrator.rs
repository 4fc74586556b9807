//! How a request is authorized: the token is verified, the principal is
//! resolved, the permission is decided. Each lookup asks the cache first
//! and writes back what it had to compute.

use crate::cache::CacheManager;
use crate::cognito::CognitoClient;
use crate::errors::{LambdaError, LambdaErrorView, ToLambdaError};
use crate::permissions::{
    bits_within, effective_bits, permissions_text, Permissions, CREATE_BIT, DELETE_BIT, UPDATE_BIT,
};
use crate::repository::UserRepository;
use crate::token::{Claims, TokenError};
use crate::user::User;
use vstd::prelude::*;
use vstd::string::StringExecFns;

verus! {

/// Whether every cached hash is the secret hash of its name for `client`.
pub open spec fn hashes_agree(cache: &CacheManager, client: &CognitoClient) -> bool {
    forall|name: Seq<char>| #[trigger]
        cache.hashes().contains_key(name) ==> client.spec_hash(name) == cache.hashes()[name]@
}

/// Whether `after` is `before` but for the hashes.
pub open spec fn only_hashes_change(before: &CacheManager, after: &CacheManager) -> bool {
    &&& after.users() == before.users()
    &&& after.permissions() == before.permissions()
    &&& after.secrets() == before.secrets()
    &&& after.org_users() == before.org_users()
}

/// Whether `after` is `before` but for the permission decisions.
pub open spec fn only_permissions_change(before: &CacheManager, after: &CacheManager) -> bool {
    &&& after.users() == before.users()
    &&& after.hashes() == before.hashes()
    &&& after.secrets() == before.secrets()
    &&& after.org_users() == before.org_users()
}

/// Whether `after` is `before` but for the users.
pub open spec fn only_users_change(before: &CacheManager, after: &CacheManager) -> bool {
    &&& after.permissions() == before.permissions()
    &&& after.hashes() == before.hashes()
    &&& after.secrets() == before.secrets()
    &&& after.org_users() == before.org_users()
}

/// Whether `after` is `before` but for the lists of users.
pub open spec fn only_lists_change(before: &CacheManager, after: &CacheManager) -> bool {
    &&& after.users() == before.users()
    &&& after.permissions() == before.permissions()
    &&& after.hashes() == before.hashes()
    &&& after.secrets() == before.secrets()
}

/// Whether nothing is cached in `after` that was not in `before`, and the
/// other way round.
pub open spec fn same_entries(before: &CacheManager, after: &CacheManager) -> bool {
    &&& after.users() == before.users()
    &&& after.permissions() == before.permissions()
    &&& after.hashes() == before.hashes()
    &&& after.secrets() == before.secrets()
    &&& after.org_users() == before.org_users()
}

/// What a lookup of the secret hash of `username` does: it hands out the
/// cached hash and leaves the cache as it is; or it computes the hash,
/// caches it and hands it out. It never fails.
pub open spec fn hash_looked_up(
    before: &CacheManager,
    after: &CacheManager,
    client: &CognitoClient,
    username: Seq<char>,
    r: Result<String, LambdaError>,
) -> bool {
    &&& only_hashes_change(before, after)
    &&& r is Ok
    &&& {
        ||| {
            &&& before.hashes().contains_key(username)
            &&& before.hashes()[username] == r->Ok_0
            &&& after.hashes() == before.hashes()
        }
        ||| {
            &&& client.spec_hash(username) == r->Ok_0@
            &&& after.hashes() == before.hashes().insert(username, r->Ok_0)
        }
    }
    &&& hashes_agree(before, client) ==> hashes_agree(after, client) && client.spec_hash(username)
        == r->Ok_0@
}

/// The secret hash of `username`: the cached one if the cache gives one,
/// else the computed one, which is then cached.
pub fn calculate_hash_with_cache(
    cache: &mut CacheManager,
    client: &CognitoClient,
    username: &str,
) -> (r: Result<String, LambdaError>)
    ensures
        hash_looked_up(old(cache), final(cache), client, username@, r),
{
    if let Some(hash) = cache.get_hash(username) {
        return Ok(hash);
    }
    match client.calculate_hash(username) {
        Ok(hash) => {
            cache.set_hash(username.to_owned(), hash.clone());
            Ok(hash)
        },
        Err(e) => Err(e.to_lambda_error()),
    }
}

/// The key under which the decision on `permission` for the user `user_id`
/// is cached: the identifier, a colon, and the names of the permissions.
pub open spec fn permission_key(user_id: Seq<char>, permission: u32) -> Seq<char> {
    user_id + ":"@ + permissions_text(permission)
}

/// The key under which the decision on `permission` for the user `user_id`
/// is cached.
pub fn permission_cache_key(user_id: &str, permission: Permissions) -> (r: String)
    ensures
        r@ == permission_key(user_id@, permission@),
{
    let mut key: String = user_id.to_owned();
    key.append(":");
    let names = permission.to_string();
    key.append(names.as_str());
    key
}

/// `Ok` for a decision in favour, the error of insufficient permissions for
/// one against.
pub open spec fn decided(r: Result<(), LambdaError>, decision: bool) -> bool {
    match r {
        Ok(_) => decision,
        Err(e) => !decision && e@ == LambdaErrorView::InsufficientPermissions,
    }
}

/// What a lookup of the decision on `permission` for `user` does: it
/// answers with the cached decision and leaves the cache as it is; or it
/// answers with the decision of the permission model and caches it.
pub open spec fn permission_looked_up(
    before: &CacheManager,
    after: &CacheManager,
    user: &User,
    user_id: Seq<char>,
    permission: u32,
    r: Result<(), LambdaError>,
) -> bool {
    let key = permission_key(user_id, permission);
    let decision = bits_within(permission, effective_bits(user@.roles));
    &&& only_permissions_change(before, after)
    &&& {
        ||| {
            &&& before.permissions().contains_key(key)
            &&& decided(r, before.permissions()[key])
            &&& after.permissions() == before.permissions()
        }
        ||| {
            &&& decided(r, decision)
            &&& after.permissions() == before.permissions().insert(key, decision)
        }
    }
}

/// Whether `user` holds `permission`: the cached decision if the cache
/// gives one for `user_id` and this permission, else the decision of the
/// permission model, which is then cached.
pub fn check_permission_with_cache(
    cache: &mut CacheManager,
    user: &User,
    user_id: &str,
    permission: Permissions,
) -> (r: Result<(), LambdaError>)
    ensures
        permission_looked_up(old(cache), final(cache), user, user_id@, permission@, r),
{
    let key = permission_cache_key(user_id, permission);
    let decision = match cache.get_permission(key.as_str()) {
        Some(cached) => cached,
        None => {
            let computed = user.has_permission(permission);
            cache.set_permission(key, computed);
            computed
        },
    };
    if decision {
        Ok(())
    } else {
        Err(LambdaError::InsufficientPermissions)
    }
}

/// Whether `user` may create users, with the cache.
pub fn check_create_permission_with_cache(cache: &mut CacheManager, user: &User, user_id: &str) -> (r:
    Result<(), LambdaError>)
    ensures
        permission_looked_up(old(cache), final(cache), user, user_id@, CREATE_BIT, r),
{
    check_permission_with_cache(cache, user, user_id, Permissions::create())
}

/// Whether `user` may delete users, with the cache.
pub fn check_delete_permission_with_cache(cache: &mut CacheManager, user: &User, user_id: &str) -> (r:
    Result<(), LambdaError>)
    ensures
        permission_looked_up(old(cache), final(cache), user, user_id@, DELETE_BIT, r),
{
    check_permission_with_cache(cache, user, user_id, Permissions::delete())
}

/// Whether `user` may update users. Nothing is cached.
pub fn check_update_permission(user: &User) -> (r: Result<(), LambdaError>)
    ensures
        decided(r, bits_within(UPDATE_BIT, effective_bits(user@.roles))),
{
    if user.has_permission(Permissions::update()) {
        Ok(())
    } else {
        Err(LambdaError::InsufficientPermissions)
    }
}

/// What taking in a looked-up user does: a user is cached under `user_id`
/// and handed on; a failure caches nothing and becomes the error of a
/// failed retrieval.
pub open spec fn user_remembered(
    before: &CacheManager,
    after: &CacheManager,
    user_id: Seq<char>,
    loaded: Result<User, String>,
    r: Result<User, LambdaError>,
) -> bool {
    &&& only_users_change(before, after)
    &&& match loaded {
        Ok(user) => {
            &&& r is Ok
            &&& r->Ok_0@ == user@
            &&& after.users().contains_key(user_id)
            &&& after.users()[user_id]@ == user@
            &&& after.users() == before.users().insert(user_id, after.users()[user_id])
        },
        Err(text) => {
            &&& r is Err
            &&& r->Err_0@ == LambdaErrorView::UserRetrievalFailed(text@)
            &&& after.users() == before.users()
        },
    }
}

/// Takes in what the store answered to a lookup of the user `user_id` after
/// the cache had nothing: a user is cached and handed on, a failure caches
/// nothing and becomes the error of a failed retrieval.
pub fn remember_user(cache: &mut CacheManager, user_id: &str, loaded: Result<User, String>) -> (r:
    Result<User, LambdaError>)
    ensures
        user_remembered(old(cache), final(cache), user_id@, loaded, r),
{
    match loaded {
        Ok(user) => {
            let copy = user.clone();
            cache.set_user(user_id.to_owned(), copy);
            Ok(user)
        },
        Err(text) => Err(LambdaError::UserRetrievalFailed(text)),
    }
}

/// What a lookup of the user `user_id` does: it hands out the cached user
/// and leaves the cache as it is; or it takes in what the repository
/// answered, as `remember_user` does.
pub open spec fn user_looked_up(
    before: &CacheManager,
    after: &CacheManager,
    user_id: Seq<char>,
    r: Result<User, LambdaError>,
) -> bool {
    ||| {
        &&& before.users().contains_key(user_id)
        &&& r == Ok::<User, LambdaError>(before.users()[user_id])
        &&& same_entries(before, after)
    }
    ||| exists|loaded: Result<User, String>|
        #[trigger] user_remembered(before, after, user_id, loaded, r)
}

/// The user `user_id`: the cached one if the cache gives one, else the one
/// that the repository has, which is then cached. A failure of the
/// repository caches nothing and becomes the error of a failed retrieval,
/// with the repository's message.
pub fn get_user_with_cache<R: UserRepository>(
    cache: &mut CacheManager,
    repository: &R,
    user_id: &str,
) -> (r: Result<User, LambdaError>)
    ensures
        user_looked_up(old(cache), final(cache), user_id@, r),
{
    if let Some(cached) = cache.get_user(user_id) {
        return Ok(cached);
    }
    let loaded = match repository.get_user_by_id(user_id.to_owned()) {
        Ok(user) => Ok(user),
        Err(e) => Err(e.message()),
    };
    let r = remember_user(cache, user_id, loaded);
    assert(user_remembered(old(cache), cache, user_id@, loaded, r));
    r
}

/// The user `user_id` as the cache has it, if it gives one.
pub fn cached_user(cache: &CacheManager, user_id: &str) -> (r: Option<User>)
    ensures
        r is Some ==> cache.users().contains_key(user_id@) && cache.users()[user_id@] == r->0,
{
    cache.get_user(user_id)
}

/// Where the authorization of a request stands.
#[derive(Debug)]
pub enum AuthState {
    /// A token was received and nothing was done with it yet.
    ReceivedToken,
    /// The token is verified; these are its claims.
    Verified(Claims),
    /// The token is refused. Nothing follows.
    Rejected(TokenError),
    /// The principal that the token names is resolved.
    PrincipalResolved(User),
    /// The principal could not be resolved. Nothing follows.
    StoreLookupFailed(String),
    /// The principal holds the permission. Nothing follows.
    Authorized(User),
    /// The principal lacks the permission. Nothing follows.
    Denied(User),
}

/// How many steps lie behind a state.
pub open spec fn stage_of(state: AuthState) -> nat {
    match state {
        AuthState::ReceivedToken => 0,
        AuthState::Verified(_) => 1,
        AuthState::Rejected(_) => 1,
        AuthState::PrincipalResolved(_) => 2,
        AuthState::StoreLookupFailed(_) => 2,
        AuthState::Authorized(_) => 3,
        AuthState::Denied(_) => 3,
    }
}

/// Whether nothing follows a state.
pub open spec fn is_final(state: AuthState) -> bool {
    state is Rejected || state is StoreLookupFailed || state is Authorized || state is Denied
}

impl AuthState {
    /// The state in which every request starts.
    pub fn new() -> (r: AuthState)
        ensures
            r is ReceivedToken,
    {
        AuthState::ReceivedToken
    }

    /// Whether nothing follows this state.
    pub fn is_terminal(&self) -> (r: bool)
        ensures
            r == is_final(*self),
    {
        match self {
            AuthState::Rejected(_)
            | AuthState::StoreLookupFailed(_)
            | AuthState::Authorized(_)
            | AuthState::Denied(_) => true,
            _ => false,
        }
    }

    /// Takes in the verdict on the token. Only a token that was received
    /// and not yet looked at can be verified or refused; any other state
    /// stays as it is.
    pub fn on_verification(self, verdict: Result<Claims, TokenError>) -> (r: AuthState)
        ensures
            self is ReceivedToken ==> match verdict {
                Ok(claims) => r == AuthState::Verified(claims),
                Err(e) => r == AuthState::Rejected(e),
            },
            !(self is ReceivedToken) ==> r == self,
    {
        match self {
            AuthState::ReceivedToken => match verdict {
                Ok(claims) => AuthState::Verified(claims),
                Err(e) => AuthState::Rejected(e),
            },
            other => other,
        }
    }

    /// Takes in what the lookup of the principal brought. Only after the
    /// token is verified can the principal be resolved or fail to be; any
    /// other state stays as it is.
    pub fn on_principal(self, loaded: Result<User, String>) -> (r: AuthState)
        ensures
            self is Verified ==> match loaded {
                Ok(user) => r == AuthState::PrincipalResolved(user),
                Err(text) => r == AuthState::StoreLookupFailed(text),
            },
            !(self is Verified) ==> r == self,
    {
        match self {
            AuthState::Verified(_) => match loaded {
                Ok(user) => AuthState::PrincipalResolved(user),
                Err(text) => AuthState::StoreLookupFailed(text),
            },
            other => other,
        }
    }

    /// Takes in the decision on the permission. Only a resolved principal
    /// can be authorized or denied; any other state stays as it is.
    pub fn on_decision(self, allowed: bool) -> (r: AuthState)
        ensures
            self is PrincipalResolved ==> r == (if allowed {
                AuthState::Authorized(self->PrincipalResolved_0)
            } else {
                AuthState::Denied(self->PrincipalResolved_0)
            }),
            !(self is PrincipalResolved) ==> r == self,
    {
        match self {
            AuthState::PrincipalResolved(user) => {
                if allowed {
                    AuthState::Authorized(user)
                } else {
                    AuthState::Denied(user)
                }
            },
            other => other,
        }
    }

    /// The error with which a request in this state is answered, if it is
    /// one that ends in an error: an expired or an invalid token, a
    /// principal that cannot be retrieved, or insufficient permissions.
    pub fn error(&self) -> (r: Option<LambdaError>)
        ensures
            match *self {
                AuthState::Rejected(e) => r is Some && r->0@ == crate::token::lambda_error_of(e),
                AuthState::StoreLookupFailed(text) => r is Some && r->0@
                    == LambdaErrorView::UserRetrievalFailed(text@),
                AuthState::Denied(_) => r is Some && r->0@
                    == LambdaErrorView::InsufficientPermissions,
                _ => r is None,
            },
    {
        match self {
            AuthState::Rejected(e) => Some(e.to_lambda_error()),
            AuthState::StoreLookupFailed(text) => Some(
                LambdaError::UserRetrievalFailed(text.clone()),
            ),
            AuthState::Denied(_) => Some(LambdaError::InsufficientPermissions),
            _ => None,
        }
    }
}

/// No step skips a state, and nothing follows a final state: whatever is
/// taken in, the state stays or moves on by exactly one step, and a final
/// state stays.
pub proof fn lemma_states_never_skip(before: AuthState, after: AuthState)
    requires
        ({
            ||| exists|verdict: Result<Claims, TokenError>| after == next_on_verification(before, verdict)
            ||| exists|loaded: Result<User, String>| after == next_on_principal(before, loaded)
            ||| exists|allowed: bool| after == next_on_decision(before, allowed)
        }),
    ensures
        after == before || stage_of(after) == stage_of(before) + 1,
        is_final(before) ==> after == before,
{
}

/// The state after the verdict on the token is taken in.
pub open spec fn next_on_verification(state: AuthState, verdict: Result<Claims, TokenError>) -> AuthState {
    if state is ReceivedToken {
        match verdict {
            Ok(claims) => AuthState::Verified(claims),
            Err(e) => AuthState::Rejected(e),
        }
    } else {
        state
    }
}

/// The state after the lookup of the principal is taken in.
pub open spec fn next_on_principal(state: AuthState, loaded: Result<User, String>) -> AuthState {
    if state is Verified {
        match loaded {
            Ok(user) => AuthState::PrincipalResolved(user),
            Err(text) => AuthState::StoreLookupFailed(text),
        }
    } else {
        state
    }
}

/// The state after the decision on the permission is taken in.
pub open spec fn next_on_decision(state: AuthState, allowed: bool) -> AuthState {
    if state is PrincipalResolved {
        if allowed {
            AuthState::Authorized(state->PrincipalResolved_0)
        } else {
            AuthState::Denied(state->PrincipalResolved_0)
        }
    } else {
        state
    }
}

} // verus!
