use std::time::{Duration, Instant};
use user_auth::cache::{CacheManager, CacheStats, CacheValue, Cacheable};
use user_auth::config::LambdaConfig;
use user_auth::permissions::{Permissions, Role, RoleSet};
use user_auth::secrets::Secrets;
use user_auth::user::User;

fn new_manager() -> CacheManager {
    CacheManager::new(&LambdaConfig::default()).unwrap()
}

fn create_test_user(
    id: &str,
    name: &str,
    email: &str,
    org_id: &str,
    org_name: &str,
    roles: Vec<Role>,
) -> User {
    let mut role_set = RoleSet::new();
    for role in roles {
        role_set.insert(role);
    }

    User::new(
        id.to_string(),
        name.to_string(),
        email.to_string(),
        org_id.to_string(),
        org_name.to_string(),
        role_set,
    )
}

fn get_cache_stats(manager: &CacheManager) -> CacheStats {
    manager.get_stats()
}

fn wait(duration: Duration) {
    let start = Instant::now();
    while start.elapsed() < duration {
        std::hint::spin_loop();
    }
}

#[test]
fn test_cache_manager_user_operations() {
    let mut cache_manager = new_manager();

    let user = create_test_user(
        "test-1",
        "Test User",
        "test@example.com",
        "org-1",
        "Test Org",
        vec![Role::Admin],
    );

    cache_manager.set_user("test-1".to_string(), user.clone());

    let cached_user = cache_manager.get_user("test-1");
    assert!(cached_user.is_some());
    assert_eq!(cached_user.unwrap().id, "test-1");

    cache_manager.clear_all();

    let cleared_user = cache_manager.get_user("test-1");
    assert!(cleared_user.is_none());
}

#[test]
fn test_cache_manager_permission_operations() {
    let mut cache_manager = new_manager();

    cache_manager.set_permission("test-1".to_string(), true);

    let cached_permission = cache_manager.get_permission("test-1");
    assert!(cached_permission.is_some());
    assert!(cached_permission.unwrap());

    cache_manager.set_permission("test-2".to_string(), false);
    let cached_permission = cache_manager.get_permission("test-2");
    assert!(cached_permission.is_some());
    assert!(!cached_permission.unwrap());
}

#[test]
fn test_cache_manager_hash_operations() {
    let mut cache_manager = new_manager();

    cache_manager.set_hash("test-hash".to_string(), "hash-value".to_string());

    let cached_hash = cache_manager.get_hash("test-hash");
    assert!(cached_hash.is_some());
    assert_eq!(cached_hash.unwrap(), "hash-value");
}

#[test]
fn test_cache_manager_secrets_operations() {
    let mut cache_manager = new_manager();

    let test_secrets = Secrets {
        user_pool_id: "test-user-pool".to_string(),
        client_id: "test-client-id".to_string(),
        client_secret: "test-client-secret".to_string(),
        jwks_url: "https://test.jwks.url".to_string(),
    };

    cache_manager.set_secrets("ap-northeast-1".to_string(), test_secrets.clone());

    let cached_secrets = cache_manager.get_secrets("ap-northeast-1");
    assert!(cached_secrets.is_some());
    let cached_secrets = cached_secrets.unwrap();
    assert_eq!(cached_secrets.user_pool_id, "test-user-pool");
    assert_eq!(cached_secrets.client_id, "test-client-id");
    assert_eq!(cached_secrets.client_secret, "test-client-secret");
    assert_eq!(cached_secrets.jwks_url, "https://test.jwks.url");
}

#[test]
fn test_cache_manager_org_users_operations() {
    let mut cache_manager = new_manager();

    let users = vec![
        create_test_user(
            "user-1",
            "User 1",
            "user1@example.com",
            "org-1",
            "Test Org",
            vec![Role::Reader],
        ),
        create_test_user(
            "user-2",
            "User 2",
            "user2@example.com",
            "org-1",
            "Test Org",
            vec![Role::Writer],
        ),
    ];

    cache_manager.set_org_users("org-1".to_string(), users.clone());

    let cached_users = cache_manager.get_org_users("org-1");
    assert!(cached_users.is_some());
    let cached_users = cached_users.unwrap();
    assert_eq!(cached_users.len(), 2);
    assert_eq!(cached_users[0].id, "user-1");
    assert_eq!(cached_users[1].roles(), vec![Role::Writer]);
}

#[test]
fn test_cache_statistics() {
    let mut cache_manager = new_manager();

    let user = create_test_user(
        "test-3",
        "Test User 3",
        "test3@example.com",
        "org-3",
        "Test Org 3",
        vec![Role::Admin],
    );

    cache_manager.set_user("test-3".to_string(), user);
    cache_manager.set_permission("test-3".to_string(), true);
    cache_manager.set_hash("test-hash".to_string(), "hash-value".to_string());

    wait(Duration::from_millis(10));

    let stats = get_cache_stats(&cache_manager);

    assert!(stats.user_cache_size <= 1);
    assert!(stats.permission_cache_size <= 1);
    assert!(stats.hash_cache_size <= 1);
    assert_eq!(stats.secrets_cache_size, 0);
    assert_eq!(stats.org_users_cache_size, 0);
}

#[test]
fn test_cacheable_trait_user() {
    let mut cache_manager = new_manager();

    let user = create_test_user(
        "trait-test",
        "Trait Test User",
        "trait@example.com",
        "org-trait",
        "Trait Org",
        vec![Role::Writer],
    );

    cache_manager.set_cached("trait-test".to_string(), user.clone());
    let cached_user: Option<User> = cache_manager.get_cached("trait-test");

    assert!(cached_user.is_some());
    assert_eq!(cached_user.unwrap().id, "trait-test");
}

#[test]
fn test_cacheable_trait_permission() {
    let mut cache_manager = new_manager();

    cache_manager.set_cached("trait-permission".to_string(), true);
    let cached_permission: Option<bool> = cache_manager.get_cached("trait-permission");

    assert!(cached_permission.is_some());
    assert!(cached_permission.unwrap());
}

#[test]
fn test_cacheable_trait_other_kinds() {
    let mut cache_manager = new_manager();
    cache_manager.set_cached("k".to_string(), "hash".to_string());
    let hash: Option<String> = cache_manager.get_cached("k");
    assert_eq!(hash.unwrap(), "hash");
    let none: Option<bool> = cache_manager.get_cached("k");
    assert!(none.is_none());
    let none: Option<Vec<User>> = cache_manager.get_cached("k");
    assert!(none.is_none());
    cache_manager.set_cached("k".to_string(), vec![create_test_user("a", "A", "a@b.co", "o", "O", vec![])]);
    let list: Option<Vec<User>> = cache_manager.get_cached("k");
    assert_eq!(list.unwrap().len(), 1);
    let none: Option<Secrets> = cache_manager.get_cached("k");
    assert!(none.is_none());
}

#[test]
fn test_multiple_users_with_different_permissions() {
    let mut cache_manager = new_manager();

    let admin_user = create_test_user(
        "admin",
        "Admin User",
        "admin@example.com",
        "org-1",
        "Test Org",
        vec![Role::Admin],
    );

    let reader_user = create_test_user(
        "reader",
        "Reader User",
        "reader@example.com",
        "org-1",
        "Test Org",
        vec![Role::Reader],
    );

    let writer_user = create_test_user(
        "writer",
        "Writer User",
        "writer@example.com",
        "org-1",
        "Test Org",
        vec![Role::Writer],
    );

    cache_manager.set_user("admin".to_string(), admin_user.clone());
    cache_manager.set_user("reader".to_string(), reader_user.clone());
    cache_manager.set_user("writer".to_string(), writer_user.clone());

    let cached_admin = cache_manager.get_user("admin");
    let cached_reader = cache_manager.get_user("reader");
    let cached_writer = cache_manager.get_user("writer");

    assert!(cached_admin.is_some());
    assert!(cached_reader.is_some());
    assert!(cached_writer.is_some());

    assert!(cached_admin.unwrap().has_permission(Permissions::delete()));
    assert!(!cached_reader.unwrap().has_permission(Permissions::write()));
    assert!(cached_writer.unwrap().has_permission(Permissions::create()));

    wait(Duration::from_millis(10));

    let stats = get_cache_stats(&cache_manager);
    assert!(stats.user_cache_size <= 3);
}

#[test]
fn test_set_then_get_returns_the_last_value() {
    let mut cache_manager = new_manager();
    cache_manager.set_hash("k".to_string(), "first".to_string());
    cache_manager.set_hash("k".to_string(), "second".to_string());
    cache_manager.set_hash("other".to_string(), "third".to_string());
    assert_eq!(cache_manager.get_hash("k").unwrap(), "second");
    assert_eq!(cache_manager.get_hash("other").unwrap(), "third");
    assert!(cache_manager.get_hash("absent").is_none());
    assert!(cache_manager.get_permission("k").is_none());
    assert!(cache_manager.get_user("k").is_none());
}

#[test]
fn test_entries_are_absent_after_their_lifetime() {
    let config = LambdaConfig::new(
        Duration::from_secs(1),
        Duration::from_secs(3600),
        Duration::from_secs(3600),
        100,
        10,
        10,
    );
    let mut cache_manager = CacheManager::new(&config).unwrap();
    cache_manager.set_permission("short".to_string(), true);
    cache_manager.set_hash("long".to_string(), "hash".to_string());
    assert_eq!(cache_manager.get_permission("short"), Some(true));
    wait(Duration::from_millis(1300));
    assert_eq!(cache_manager.get_permission("short"), None);
    assert_eq!(cache_manager.get_hash("long").unwrap(), "hash");
}

#[test]
fn test_clear_all_makes_every_key_absent() {
    let mut cache_manager = new_manager();
    cache_manager.set_user("a".to_string(), create_test_user("a", "A", "a@b.co", "o", "O", vec![]));
    cache_manager.set_permission("a".to_string(), true);
    cache_manager.set_hash("a".to_string(), "h".to_string());
    cache_manager.set_org_users("a".to_string(), vec![]);
    cache_manager.set_secrets(
        "a".to_string(),
        Secrets {
            user_pool_id: "p".to_string(),
            client_id: "c".to_string(),
            client_secret: "s".to_string(),
            jwks_url: "u".to_string(),
        },
    );
    cache_manager.clear_all();
    assert!(cache_manager.get_user("a").is_none());
    assert!(cache_manager.get_permission("a").is_none());
    assert!(cache_manager.get_hash("a").is_none());
    assert!(cache_manager.get_org_users("a").is_none());
    assert!(cache_manager.get_secrets("a").is_none());
    cache_manager.set_hash("a".to_string(), "again".to_string());
    assert_eq!(cache_manager.get_hash("a").unwrap(), "again");
}

#[test]
fn test_lifetime_of_a_thousand_years_is_refused() {
    let limit = 31_536_000_000u64;
    let ok = LambdaConfig::new(
        Duration::from_secs(limit - 1),
        Duration::from_secs(1),
        Duration::from_secs(0),
        1,
        1,
        1,
    );
    assert!(CacheManager::new(&ok).is_some());
    for which in 0..3 {
        let secs = |i: usize| Duration::from_secs(if i == which { limit } else { 60 });
        let config = LambdaConfig::new(secs(0), secs(1), secs(2), 1, 1, 1);
        assert!(CacheManager::new(&config).is_none());
    }
    let huge = LambdaConfig::new(Duration::from_secs(u64::MAX), Duration::ZERO, Duration::ZERO, 1, 1, 1);
    assert!(CacheManager::new(&huge).is_none());
}

#[test]
fn test_each_cache_gets_its_own_limits() {
    let config = LambdaConfig::new(
        Duration::from_secs(11),
        Duration::from_secs(22),
        Duration::from_secs(33),
        400,
        50,
        6,
    );
    let mut manager = CacheManager::new(&config).unwrap();
    let check = |manager: &CacheManager| {
        let limits = manager.limits();
        let limit = |capacity: u64, secs: u64| {
            (Some(capacity), Some(Duration::from_secs(secs)))
        };
        let of = |l: user_auth::cache::CacheLimit| (l.max_capacity, l.time_to_live);
        assert_eq!(of(limits.user_cache), limit(400, 11));
        assert_eq!(of(limits.permission_cache), limit(400, 11));
        assert_eq!(of(limits.hash_cache), limit(400, 22));
        assert_eq!(of(limits.secrets_cache), limit(6, 33));
        assert_eq!(of(limits.org_users_cache), limit(50, 11));
    };
    check(&manager);
    manager.set_hash("k".to_string(), "v".to_string());
    manager.clear_all();
    check(&manager);

    let defaults = new_manager().limits();
    assert_eq!(defaults.user_cache.max_capacity, Some(1000));
    assert_eq!(defaults.user_cache.time_to_live, Some(Duration::from_secs(1800)));
    assert_eq!(defaults.hash_cache.time_to_live, Some(Duration::from_secs(3600)));
    assert_eq!(defaults.secrets_cache.max_capacity, Some(10));
    assert_eq!(defaults.org_users_cache.max_capacity, Some(100));
}

#[test]
fn test_cache_without_capacity_holds_nothing() {
    let config = LambdaConfig::new(
        Duration::from_secs(60),
        Duration::from_secs(60),
        Duration::from_secs(60),
        0,
        0,
        0,
    );
    let mut manager = CacheManager::new(&config).unwrap();
    manager.set_hash("k".to_string(), "v".to_string());
    manager.set_permission("k".to_string(), true);
    assert!(manager.get_hash("k").is_none());
    assert!(manager.get_permission("k").is_none());
}

#[test]
fn test_cached_values_are_told_apart_by_kind() {
    let user = || CacheValue::User(create_test_user("a", "A", "a@b.co", "o", "O", vec![Role::Admin]));
    let secrets = || {
        CacheValue::Secrets(Secrets {
            user_pool_id: "p".to_string(),
            client_id: "c".to_string(),
            client_secret: "s".to_string(),
            jwks_url: "u".to_string(),
        })
    };
    assert_eq!(user().into_user().unwrap().id, "a");
    assert!(user().into_permission().is_none());
    assert!(user().into_hash().is_none());
    assert!(user().into_secrets().is_none());
    assert!(user().into_users().is_none());
    assert_eq!(CacheValue::Permission(false).into_permission(), Some(false));
    assert_eq!(CacheValue::Permission(true).into_permission(), Some(true));
    assert!(CacheValue::Permission(true).into_user().is_none());
    assert_eq!(CacheValue::Hash("h".to_string()).into_hash().unwrap(), "h");
    assert!(CacheValue::Hash("h".to_string()).into_permission().is_none());
    assert_eq!(secrets().into_secrets().unwrap().client_id, "c");
    assert!(secrets().into_hash().is_none());
    let list = CacheValue::Users(vec![create_test_user("b", "B", "b@c.de", "o", "O", vec![])]);
    assert_eq!(list.into_users().unwrap()[0].id, "b");
    assert!(CacheValue::Users(vec![]).into_user().is_none());
    assert_eq!(CacheValue::Users(vec![]).into_users().unwrap().len(), 0);

    let stats = CacheStats::from_counts(1, 2, 3, 4, 5);
    assert_eq!(stats.user_cache_size, 1);
    assert_eq!(stats.permission_cache_size, 2);
    assert_eq!(stats.hash_cache_size, 3);
    assert_eq!(stats.secrets_cache_size, 4);
    assert_eq!(stats.org_users_cache_size, 5);
}
