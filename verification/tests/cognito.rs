use user_auth::auth_flow::{generate_new_user, IDENTIFIER_LENGTH};
use user_auth::cache::CacheManager;
use user_auth::requests::SignupRequest;
use user_auth::client_manager::{DefaultClientManager, MockClientManager, SecretsManager};
use user_auth::cognito::{
    created_subject, CognitoClient, CognitoError, ProviderAttribute, ProviderUser,
};
use user_auth::config::LambdaConfig;
use user_auth::errors::{LambdaError, ToLambdaError};
use user_auth::orchestrator::{
    calculate_hash_with_cache, get_user_with_cache, check_create_permission_with_cache,
    check_delete_permission_with_cache, check_permission_with_cache, check_update_permission,
    permission_cache_key, remember_user, cached_user, AuthState,
};
use user_auth::password::{generate_password, generate_with, PasswordRules, PASSWORD_LENGTH};
use user_auth::permissions::{Permissions, Role, RoleSet};
use user_auth::secrets::Secrets;
use user_auth::token::{Claims, TokenError};
use user_auth::repository::{RepositoryError, UserRepository};
use user_auth::user::User;

fn create_test_secrets() -> Secrets {
    Secrets {
        user_pool_id: "test-user-pool".to_string(),
        client_id: "test-client-id".to_string(),
        client_secret: "test-client-secret".to_string(),
        jwks_url: "https://test.jwks.url".to_string(),
    }
}

fn client() -> CognitoClient {
    CognitoClient::new(
        "test-user-pool".to_string(),
        "test-client-id".to_string(),
        "test-client-secret".to_string(),
    )
}

fn user_with(id: &str, roles: &[Role]) -> User {
    let mut set = RoleSet::new();
    for role in roles {
        set.insert(*role);
    }
    User::new(
        id.to_string(),
        "Name".to_string(),
        "name@example.com".to_string(),
        "org-1".to_string(),
        "Org".to_string(),
        set,
    )
}

fn cache() -> CacheManager {
    CacheManager::new(&LambdaConfig::default()).unwrap()
}

#[test]
fn test_mock_client_manager_cognito_client() {
    let test_secrets = create_test_secrets();
    let mock_manager = MockClientManager {
        cognito_client: None,
        token_authorizer: None,
        secrets: Some(test_secrets.clone()),
    };
    let result = mock_manager.get_client();
    assert!(result.is_err());
    let set = MockClientManager { cognito_client: Some(client()), token_authorizer: None, secrets: None };
    assert_eq!(set.get_client().unwrap().client_id(), "test-client-id");
}

#[test]
fn test_mock_client_manager_token_authorizer() {
    let mock_manager =
        MockClientManager { cognito_client: None, token_authorizer: None, secrets: None };
    let result = mock_manager.get_authorizer();
    assert!(result.is_err());
    match result {
        Err(LambdaError::InternalError(message)) => assert_eq!(message, "Mock authorizer not set"),
        _ => panic!("Expected InternalError with specific message"),
    }
}

#[test]
fn test_mock_client_manager_secrets() {
    let test_secrets = create_test_secrets();

    let mock_manager = MockClientManager {
        cognito_client: None,
        token_authorizer: None,
        secrets: Some(test_secrets.clone()),
    };

    let result = mock_manager.get_secrets();
    assert!(result.is_ok());

    let retrieved_secrets = result.unwrap();
    assert_eq!(retrieved_secrets.user_pool_id, test_secrets.user_pool_id);
    assert_eq!(retrieved_secrets.client_id, test_secrets.client_id);
    assert_eq!(retrieved_secrets.client_secret, test_secrets.client_secret);
    assert_eq!(retrieved_secrets.jwks_url, test_secrets.jwks_url);
}

#[test]
fn test_mock_client_manager_secrets_not_set() {
    let mock_manager =
        MockClientManager { cognito_client: None, token_authorizer: None, secrets: None };

    let result = mock_manager.get_secrets();
    assert!(result.is_err());

    if let Err(LambdaError::InternalError(message)) = result {
        assert_eq!(message, "Mock secrets not set");
    } else {
        panic!("Expected InternalError with specific message");
    }
}

#[test]
fn test_mock_client_manager_creation() {
    let mock_manager =
        MockClientManager { cognito_client: None, token_authorizer: None, secrets: None };

    assert!(mock_manager.cognito_client.is_none());
    assert!(mock_manager.token_authorizer.is_none());
    assert!(mock_manager.secrets.is_none());
}

#[test]
fn test_default_client_manager_builds_clients() {
    let manager = DefaultClientManager::new("ap-northeast-1".to_string());
    let client = manager.client_for(create_test_secrets());
    assert_eq!(client.user_pool_id(), "test-user-pool");
    assert_eq!(client.client_id(), "test-client-id");
    let authorizer = manager.authorizer_for(create_test_secrets());
    assert_eq!(authorizer.jwks_url(), "https://test.jwks.url");
    assert_eq!(
        authorizer.issuer(),
        "https://cognito-idp.ap-northeast-1.amazonaws.com/test-user-pool"
    );
    assert!(!authorizer.has_keys());
}

#[test]
fn test_secret_hash_is_hmac_sha256_in_base64() {
    assert_eq!(
        client().calculate_hash("alice@example.com").unwrap(),
        "iRwBfVAV+whSesEySXuONTqs2khFb2snLZsGkct97Nc="
    );
    let empty = CognitoClient::new("p".to_string(), "".to_string(), "".to_string());
    assert_eq!(empty.calculate_hash("").unwrap(), "thNnmggU2ex3L5XXeMNfxf8Wl8STcVZTxscSFEKSxa0=");
    let other = CognitoClient::new("p".to_string(), "client".to_string(), "secret".to_string());
    assert_eq!(
        other.calculate_hash("ユーザー").unwrap(),
        "dWIPLGCkY7+4azZ/JnmuW6rloYAnZwHjy2aomQ3zZik="
    );
    assert_eq!(
        client().calculate_hash("alice@example.com").unwrap(),
        client().calculate_hash("alice@example.com").unwrap()
    );
    assert_ne!(
        client().calculate_hash("alice@example.com").unwrap(),
        client().calculate_hash("bob@example.com").unwrap()
    );
    for (name, id, secret) in [("", "", ""), ("a", "b", "c"), ("ユーザー", "client", &"s".repeat(200))] {
        let client = CognitoClient::new("p".to_string(), id.to_string(), secret.to_string());
        let hash = client.calculate_hash(name).unwrap();
        assert_eq!(hash.len(), 44);
        assert!(hash.ends_with('=') && !hash.ends_with("=="));
    }
    assert_eq!(CognitoError::HmacInvalidLength.to_string(), "HMAC Invalid Length");
    assert_eq!(
        CognitoError::HmacInvalidLength.to_lambda_error().to_string(),
        "Internal server error: HMAC Invalid Length"
    );
}

#[test]
fn test_hash_is_computed_once_and_cached() {
    let mut cache = cache();
    let client = client();
    assert!(cache.get_hash("alice@example.com").is_none());
    let first = calculate_hash_with_cache(&mut cache, &client, "alice@example.com").unwrap();
    assert_eq!(first, "iRwBfVAV+whSesEySXuONTqs2khFb2snLZsGkct97Nc=");
    assert_eq!(cache.get_hash("alice@example.com").unwrap(), first);

    cache.set_hash("alice@example.com".to_string(), "from the cache".to_string());
    let second = calculate_hash_with_cache(&mut cache, &client, "alice@example.com").unwrap();
    assert_eq!(second, "from the cache");
    assert!(cache.get_hash("bob@example.com").is_none());
}

#[test]
fn test_permission_decisions_are_cached_per_user_and_action() {
    let mut cache = cache();
    let writer = user_with("w", &[Role::Writer]);
    assert_eq!(permission_cache_key("w", Permissions::create()), "w:CREATE");
    assert_eq!(permission_cache_key("w", Role::Writer.permissions()), "w:READ, WRITE, CREATE");

    assert!(check_create_permission_with_cache(&mut cache, &writer, "w").is_ok());
    assert_eq!(cache.get_permission("w:CREATE"), Some(true));
    assert!(matches!(
        check_delete_permission_with_cache(&mut cache, &writer, "w"),
        Err(LambdaError::InsufficientPermissions)
    ));
    assert_eq!(cache.get_permission("w:DELETE"), Some(false));
    assert_eq!(cache.get_permission("w:CREATE"), Some(true));

    let admin = user_with("w", &[Role::Admin]);
    assert!(check_delete_permission_with_cache(&mut cache, &admin, "w").is_err());
    assert!(check_delete_permission_with_cache(&mut cache, &admin, "a").is_ok());
    cache.set_permission("r:UPDATE".to_string(), true);
    let reader = user_with("r", &[Role::Reader]);
    assert!(check_permission_with_cache(&mut cache, &reader, "r", Permissions::update()).is_ok());
    assert!(check_update_permission(&reader).is_err());
    assert!(check_update_permission(&admin).is_ok());
    assert!(check_update_permission(&writer).is_err());
}

#[test]
fn test_failed_lookup_caches_nothing() {
    let mut cache = cache();
    let failed = remember_user(&mut cache, "u", Err("store is down".to_string()));
    match failed {
        Err(LambdaError::UserRetrievalFailed(text)) => assert_eq!(text, "store is down"),
        other => panic!("{:?}", other),
    }
    assert!(cached_user(&cache, "u").is_none());

    let loaded = remember_user(&mut cache, "u", Ok(user_with("u", &[Role::Reader]))).unwrap();
    assert_eq!(loaded.id, "u");
    let cached = cached_user(&cache, "u").unwrap();
    assert_eq!(cached.id, "u");
    assert_eq!(cached.roles(), vec![Role::Reader]);
}

fn claims() -> Claims {
    Claims { sub: "u".to_string(), iss: "i".to_string(), iat: 1, exp: 2, other: vec![] }
}

#[test]
fn test_authorization_moves_one_state_at_a_time() {
    let state = AuthState::new();
    assert!(!state.is_terminal());
    assert!(state.error().is_none());
    let state = state.on_decision(true);
    assert!(matches!(state, AuthState::ReceivedToken));
    let state = state.on_principal(Ok(user_with("u", &[])));
    assert!(matches!(state, AuthState::ReceivedToken));

    let state = state.on_verification(Ok(claims()));
    assert!(matches!(state, AuthState::Verified(_)));
    let state = state.on_verification(Err(TokenError::Expired));
    assert!(matches!(state, AuthState::Verified(_)));
    let state = state.on_decision(true);
    assert!(matches!(state, AuthState::Verified(_)));

    let state = state.on_principal(Ok(user_with("u", &[Role::Reader])));
    assert!(matches!(state, AuthState::PrincipalResolved(_)));
    assert!(!state.is_terminal());
    let state = state.on_decision(true);
    assert!(matches!(state, AuthState::Authorized(_)));
    assert!(state.is_terminal());
    assert!(state.error().is_none());
    let state = state.on_decision(false);
    assert!(matches!(state, AuthState::Authorized(_)));
}

#[test]
fn test_final_states_stay() {
    let rejected = AuthState::new().on_verification(Err(TokenError::Expired));
    assert!(rejected.is_terminal());
    assert!(matches!(rejected.error(), Some(LambdaError::TokenExpired)));
    let rejected = rejected
        .on_verification(Ok(claims()))
        .on_principal(Ok(user_with("u", &[])))
        .on_decision(true);
    assert!(matches!(rejected, AuthState::Rejected(TokenError::Expired)));

    let unknown = AuthState::new().on_verification(Err(TokenError::UnknownKey));
    assert!(matches!(unknown.error(), Some(LambdaError::InvalidSignature)));

    let failed =
        AuthState::new().on_verification(Ok(claims())).on_principal(Err("down".to_string()));
    assert!(failed.is_terminal());
    match failed.error() {
        Some(LambdaError::UserRetrievalFailed(text)) => assert_eq!(text, "down"),
        other => panic!("{:?}", other),
    }
    let failed = failed.on_principal(Ok(user_with("u", &[]))).on_decision(true);
    assert!(matches!(failed, AuthState::StoreLookupFailed(_)));

    let denied = AuthState::new()
        .on_verification(Ok(claims()))
        .on_principal(Ok(user_with("u", &[])))
        .on_decision(false);
    assert!(denied.is_terminal());
    let error = denied.error().unwrap();
    assert_eq!(error.status_code(), 403);
    assert!(matches!(denied.on_decision(true), AuthState::Denied(_)));
}

#[test]
fn test_generated_password() {
    for _ in 0..20 {
        let password = generate_password().unwrap();
        assert_eq!(password.chars().count(), PASSWORD_LENGTH);
        assert_eq!(PASSWORD_LENGTH, 24);
        assert!(password.chars().any(|c| c.is_ascii_digit()));
        assert!(password.chars().any(|c| c.is_ascii_lowercase()));
        assert!(password.chars().any(|c| c.is_ascii_uppercase()));
        assert!(password.chars().any(|c| c.is_ascii_punctuation()));
        assert!(password.chars().any(|c| c == ' '));
        assert!(password.chars().all(|c| !"iI1loO0\"'`|".contains(c)));
    }
    assert_ne!(generate_password().unwrap(), generate_password().unwrap());
}

#[test]
fn test_password_rules() {
    let rules = PasswordRules {
        length: 3,
        numbers: true,
        lowercase_letters: true,
        uppercase_letters: true,
        symbols: false,
        spaces: false,
        exclude_similar_characters: false,
        strict: true,
    };
    for _ in 0..20 {
        let password = generate_with(rules).unwrap();
        assert_eq!(password.len(), 3);
        assert!(password.chars().any(|c| c.is_ascii_digit()));
        assert!(password.chars().any(|c| c.is_ascii_lowercase()));
        assert!(password.chars().any(|c| c.is_ascii_uppercase()));
    }
    assert!(generate_with(PasswordRules { length: 2, ..rules }).is_err());
    assert_eq!(generate_with(PasswordRules { length: 2, strict: false, ..rules }).unwrap().len(), 2);
    assert!(generate_with(PasswordRules { length: 0, strict: false, ..rules }).is_err());
    let none = PasswordRules {
        numbers: false,
        lowercase_letters: false,
        uppercase_letters: false,
        ..rules
    };
    assert!(generate_with(none).is_err());
    assert_eq!(generate_with(PasswordRules { spaces: true, length: 5, ..none }).unwrap(), "     ");
}

fn attribute(name: &str, value: Option<&str>) -> ProviderAttribute {
    ProviderAttribute { name: name.to_string(), value: value.map(|s| s.to_string()) }
}

#[test]
fn test_subject_of_a_created_user() {
    let message = |r: Result<String, LambdaError>| match r {
        Err(LambdaError::InternalError(text)) => text,
        other => panic!("{:?}", other),
    };
    assert_eq!(message(created_subject(&None)), "user is None");
    let none = ProviderUser { attributes: vec![attribute("email", Some("a@b.co"))] };
    assert_eq!(message(created_subject(&Some(none))), "sub is None");
    let empty = ProviderUser { attributes: vec![] };
    assert_eq!(message(created_subject(&Some(empty))), "sub is None");
    let unset = ProviderUser { attributes: vec![attribute("sub", None), attribute("sub", Some("x"))] };
    assert_eq!(message(created_subject(&Some(unset))), "sub value is None");
    let set = ProviderUser {
        attributes: vec![
            attribute("email", Some("a@b.co")),
            attribute("sub", Some("first")),
            attribute("sub", Some("second")),
        ],
    };
    assert_eq!(created_subject(&Some(set)).unwrap(), "first");
}

struct OneUser {
    user: Option<User>,
    asked: std::cell::Cell<u32>,
}

impl UserRepository for OneUser {
    fn get_user_by_id(&self, user_id: String) -> Result<User, RepositoryError> {
        self.asked.set(self.asked.get() + 1);
        match &self.user {
            Some(user) if user.id == user_id => Ok(user.clone()),
            _ => Err(RepositoryError::UserNotFound),
        }
    }

    fn get_users_by_organization_id(&self, _: String) -> Result<Vec<User>, RepositoryError> {
        Err(RepositoryError::NoItems)
    }

    fn create_user(&self, user: User) -> Result<User, RepositoryError> {
        Ok(user)
    }

    fn delete_user_by_id(&self, _: String, _: String) -> Result<(), RepositoryError> {
        Ok(())
    }

    fn update_user(&self, user: User) -> Result<User, RepositoryError> {
        Ok(user)
    }

    fn find_organization_id_by_name(&self, _: &str) -> Result<Option<String>, RepositoryError> {
        Ok(None)
    }

    fn organization_exists(&self, _: &str) -> Result<bool, RepositoryError> {
        Ok(false)
    }

    fn is_first_user_in_organization(&self, _: &str) -> Result<bool, RepositoryError> {
        Ok(true)
    }
}

#[test]
fn test_user_is_asked_of_the_repository_once() {
    let mut cache = cache();
    let repository =
        OneUser { user: Some(user_with("u-1", &[Role::Writer])), asked: std::cell::Cell::new(0) };
    let first = get_user_with_cache(&mut cache, &repository, "u-1").unwrap();
    assert_eq!(first.id, "u-1");
    assert_eq!(repository.asked.get(), 1);
    let second = get_user_with_cache(&mut cache, &repository, "u-1").unwrap();
    assert_eq!(second.roles(), vec![Role::Writer]);
    assert_eq!(repository.asked.get(), 1);

    match get_user_with_cache(&mut cache, &repository, "u-2") {
        Err(LambdaError::UserRetrievalFailed(text)) => assert_eq!(text, "Unable to get user by id"),
        other => panic!("{:?}", other),
    }
    assert_eq!(repository.asked.get(), 2);
    assert!(cache.get_user("u-2").is_none());
    assert!(get_user_with_cache(&mut cache, &repository, "u-2").is_err());
    assert_eq!(repository.asked.get(), 3);
}

#[test]
fn test_fresh_identifier_and_password_shapes() {
    let request = || SignupRequest {
        organization_name: "Org".to_string(),
        user_name: "Alice".to_string(),
        email: "a@b.co".to_string(),
        password: "Passw0rd".to_string(),
    };
    let user = generate_new_user("id".to_string(), request(), None);
    assert_eq!(IDENTIFIER_LENGTH, 36);
    assert_eq!(user.organization_id.chars().count(), 36);
    assert_eq!(user.organization_id.matches('-').count(), 4);
    let joined = generate_new_user("id".to_string(), request(), Some("o".to_string()));
    assert_eq!(joined.organization_id, "o");
}
