use std::time::Duration;
use user_auth::client_manager::DefaultClientManager;
use user_auth::config::{parse_u64, LambdaConfig};

#[test]
fn test_default_client_manager_creation() {
    let region = "ap-northeast-1".to_string();
    let manager = DefaultClientManager::new(region.clone());
    assert_eq!(manager.region(), region);
}

#[test]
fn test_default_config() {
    let config = LambdaConfig::default();

    assert_eq!(config.cache_ttl, Duration::from_secs(1800));
    assert_eq!(config.hash_cache_ttl, Duration::from_secs(3600));
    assert_eq!(config.secrets_cache_ttl, Duration::from_secs(3600));
    assert_eq!(config.cache_max_capacity, 1000);
    assert_eq!(config.org_users_cache_max_capacity, 100);
    assert_eq!(config.secrets_cache_max_capacity, 10);
}

#[test]
fn test_new_config() {
    let config = LambdaConfig::new(
        Duration::from_secs(900),
        Duration::from_secs(1800),
        Duration::from_secs(2700),
        500,
        50,
        5,
    );

    assert_eq!(config.cache_ttl, Duration::from_secs(900));
    assert_eq!(config.hash_cache_ttl, Duration::from_secs(1800));
    assert_eq!(config.secrets_cache_ttl, Duration::from_secs(2700));
    assert_eq!(config.cache_max_capacity, 500);
    assert_eq!(config.org_users_cache_max_capacity, 50);
    assert_eq!(config.secrets_cache_max_capacity, 5);
}

#[test]
fn test_config_consistency() {
    let config = LambdaConfig::default();

    assert!(config.hash_cache_ttl >= config.cache_ttl);
    assert!(config.secrets_cache_ttl >= config.cache_ttl);
    assert!(config.org_users_cache_max_capacity <= config.cache_max_capacity);
    assert!(config.secrets_cache_max_capacity <= config.org_users_cache_max_capacity);
}

#[test]
fn test_from_env_with_defaults() {
    let config = LambdaConfig::from_values(&None, &None, &None, &None, &None, &None);

    assert_eq!(config.cache_ttl, Duration::from_secs(1800));
    assert_eq!(config.hash_cache_ttl, Duration::from_secs(3600));
    assert_eq!(config.secrets_cache_ttl, Duration::from_secs(3600));
    assert_eq!(config.cache_max_capacity, 1000);
    assert_eq!(config.org_users_cache_max_capacity, 100);
    assert_eq!(config.secrets_cache_max_capacity, 10);
}

#[test]
fn test_from_env_with_custom_values() {
    let config = LambdaConfig::from_values(
        &Some("900".to_string()),
        &Some("1800".to_string()),
        &Some("2700".to_string()),
        &Some("500".to_string()),
        &Some("50".to_string()),
        &Some("5".to_string()),
    );

    assert_eq!(config.cache_ttl, Duration::from_secs(900));
    assert_eq!(config.hash_cache_ttl, Duration::from_secs(1800));
    assert_eq!(config.secrets_cache_ttl, Duration::from_secs(2700));
    assert_eq!(config.cache_max_capacity, 500);
    assert_eq!(config.org_users_cache_max_capacity, 50);
    assert_eq!(config.secrets_cache_max_capacity, 5);
}

#[test]
fn test_from_env_with_invalid_values() {
    let config = LambdaConfig::from_values(
        &Some("invalid".to_string()),
        &Some("not_a_number".to_string()),
        &None,
        &Some("not_numeric".to_string()),
        &None,
        &None,
    );

    assert_eq!(config.cache_ttl, Duration::from_secs(1800));
    assert_eq!(config.hash_cache_ttl, Duration::from_secs(3600));
    assert_eq!(config.cache_max_capacity, 1000);
}

#[test]
fn test_parse_u64_agrees_with_std() {
    let cases = [
        "0",
        "7",
        "+7",
        "007",
        "1800",
        "18446744073709551615",
        "18446744073709551616",
        "99999999999999999999999",
        "",
        "+",
        "-1",
        " 1",
        "1 ",
        "1_000",
        "12a",
        "++1",
        "１２",
    ];
    for text in cases {
        assert_eq!(parse_u64(text), text.parse::<u64>().ok(), "text {:?}", text);
    }
}
