use nickel_redis::config::PoolConfig;
use nickel_redis::error::PoolError;
use nickel_redis::startup::{RedisSettings, StartupError};
use r2d2_redis::RedisConnectionManager;

#[test]
fn redis_url_and_positive_size_are_accepted() {
    let settings = RedisSettings::new("redis://127.0.0.1/", 5).unwrap();
    assert_eq!(settings.config, PoolConfig::new(5));
    assert_eq!(settings.config.max_size, 5);
    assert!(settings.config.is_valid());
}

#[test]
fn manager_is_the_one_made_from_the_string() {
    let settings = RedisSettings::new("redis://example.org:7000/3", 1).unwrap();
    let expected = RedisConnectionManager::new("redis://example.org:7000/3").unwrap();
    assert_eq!(format!("{:?}", settings.manager), format!("{:?}", expected));
    let other = RedisConnectionManager::new("redis://example.org:7001/3").unwrap();
    assert_ne!(format!("{:?}", settings.manager), format!("{:?}", other));
}

#[test]
fn unusable_connection_string_is_rejected_with_its_cause() {
    for bad in ["not a url", "", "http://127.0.0.1/", "redis://127.0.0.1/not-a-number"] {
        let cause = RedisConnectionManager::new(bad).unwrap_err();
        match RedisSettings::new(bad, 5) {
            Err(StartupError::BadConnectString(error)) => {
                assert_eq!(error.to_string(), cause.to_string());
            }
            other => panic!("{:?}: {:?}", bad, other),
        }
    }
}

#[test]
fn zero_size_is_no_connections() {
    assert!(matches!(
        RedisSettings::new("redis://127.0.0.1/", 0),
        Err(StartupError::NoConnections)
    ));
}

#[test]
fn unusable_connection_string_wins_over_zero_size() {
    assert!(matches!(
        RedisSettings::new("not a url", 0),
        Err(StartupError::BadConnectString(_))
    ));
}

#[test]
fn every_startup_error_is_a_config_error() {
    let rejected = RedisSettings::new("not a url", 5).unwrap_err();
    assert_eq!(rejected.kind(), PoolError::ConfigError);
    assert_eq!(StartupError::NoConnections.kind(), PoolError::ConfigError);
}

#[test]
fn settle_decides_from_the_parse_outcome() {
    let opened = RedisConnectionManager::new("redis://127.0.0.1/");
    let settings = RedisSettings::settle(opened, 2).unwrap();
    assert_eq!(settings.config, PoolConfig::new(2));

    let opened = RedisConnectionManager::new("redis://127.0.0.1/");
    assert!(matches!(RedisSettings::settle(opened, 0), Err(StartupError::NoConnections)));

    let rejected = RedisConnectionManager::new("not a url");
    assert!(rejected.is_err());
    assert!(matches!(RedisSettings::settle(rejected, 2), Err(StartupError::BadConnectString(_))));
}
