use backend::config::{ConfigMissing, PoolLimits, Setting};
use backend::models::Config;

fn some(s: &str) -> Option<String> {
    Some(String::from(s))
}

#[test]
fn a_complete_configuration_is_accepted() {
    let config = Config::from_settings(some("db"), some("me"), some("secret"), some("delays"));
    assert_eq!(
        config,
        Ok(Config {
            dbhost: String::from("db"),
            dbuser: String::from("me"),
            dbpass: String::from("secret"),
            dbname: String::from("delays"),
        })
    );
}

#[test]
fn the_first_missing_setting_is_reported() {
    let missing = |setting| Err(ConfigMissing { setting });
    assert_eq!(Config::from_settings(None, None, None, None), missing(Setting::Host));
    assert_eq!(Config::from_settings(some("a"), None, None, None), missing(Setting::User));
    assert_eq!(
        Config::from_settings(some("a"), some("b"), None, None),
        missing(Setting::Password)
    );
    assert_eq!(
        Config::from_settings(some("a"), some("b"), some("c"), None),
        missing(Setting::Database)
    );
    assert_eq!(
        Config::from_settings(None, some("b"), some("c"), some("d")),
        missing(Setting::Host)
    );
    assert_eq!(
        Config::from_settings(some("a"), some("b"), None, some("d")),
        missing(Setting::Password)
    );
}

#[test]
fn an_empty_setting_is_not_missing() {
    assert!(Config::from_settings(some(""), some(""), some(""), some("")).is_ok());
}

#[test]
fn the_store_is_addressed_with_the_four_settings() {
    let config = Config {
        dbhost: String::from("db.example"),
        dbuser: String::from("me"),
        dbpass: String::from("secret"),
        dbname: String::from("delays"),
    };
    assert_eq!(
        config.connection_string(),
        "host=db.example user=me password=secret dbname=delays"
    );
}

#[test]
fn settings_are_named_after_their_variables() {
    assert_eq!(Setting::Host.variable(), "DBHOST");
    assert_eq!(Setting::User.variable(), "DBUSER");
    assert_eq!(Setting::Password.variable(), "DBPASS");
    assert_eq!(Setting::Database.variable(), "DBNAME");
}

#[test]
fn the_pool_has_standard_limits() {
    let limits = PoolLimits::from_settings(None, None).unwrap();
    assert_eq!(limits.max_connections(), 10);
    assert_eq!(limits.acquire_timeout_seconds(), 30);
}

#[test]
fn the_limits_of_the_pool_can_be_set() {
    let limits = PoolLimits::from_settings(Some(3), None).unwrap();
    assert_eq!((limits.max_connections(), limits.acquire_timeout_seconds()), (3, 30));
    let limits = PoolLimits::from_settings(None, Some(2)).unwrap();
    assert_eq!((limits.max_connections(), limits.acquire_timeout_seconds()), (10, 2));
    let limits = PoolLimits::from_settings(Some(u32::MAX), Some(u64::MAX)).unwrap();
    assert_eq!((limits.max_connections(), limits.acquire_timeout_seconds()), (u32::MAX, u64::MAX));
}

#[test]
fn a_pool_without_room_or_patience_is_refused() {
    assert_eq!(PoolLimits::from_settings(Some(0), None), None);
    assert_eq!(PoolLimits::from_settings(None, Some(0)), None);
    assert_eq!(PoolLimits::from_settings(Some(0), Some(0)), None);
    assert_eq!(PoolLimits::from_settings(Some(1), Some(0)), None);
}
