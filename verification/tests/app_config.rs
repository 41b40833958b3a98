use vrc_gamelog::app_config::{AppConfig, AppConfigError};

fn pairs(kv: &[(&str, &str)]) -> Vec<(String, String)> {
    kv.iter()
        .map(|(k, v)| (k.to_string(), v.to_string()))
        .collect()
}

#[test]
fn test_new_config_is_default_and_empty() {
    let config = AppConfig::new();
    assert_eq!(config, AppConfig::default());
    assert_eq!(config.url, None);
    assert_eq!(config.username, None);
    assert_eq!(config.password, None);
    assert!(!config.verbose);
}

#[test]
fn test_from_pairs_sets_known_keys() {
    let config = AppConfig::from_pairs(pairs(&[
        ("url", "localhost:8000"),
        ("username", "root"),
        ("password", "root"),
        ("verbose", "true"),
    ]))
    .unwrap();
    assert_eq!(config.url, Some("localhost:8000".to_string()));
    assert_eq!(config.username, Some("root".to_string()));
    assert_eq!(config.password, Some("root".to_string()));
    assert!(config.verbose);
}

#[test]
fn test_from_pairs_ignores_unknown_keys_and_later_wins() {
    let config = AppConfig::from_pairs(pairs(&[
        ("url", "first"),
        ("color", "green"),
        ("url", "second"),
        ("verbose", "false"),
    ]))
    .unwrap();
    assert_eq!(config.url, Some("second".to_string()));
    assert_eq!(config.username, None);
    assert!(!config.verbose);
}

#[test]
fn test_from_pairs_rejects_bad_verbose() {
    let err = AppConfig::from_pairs(pairs(&[("verbose", "yes")])).unwrap_err();
    assert_eq!(err, AppConfigError::InvalidVerbose);
}

#[test]
fn test_build_checks_mandatory_settings_in_order() {
    let empty = AppConfig::new();
    assert_eq!(empty.build().unwrap_err(), AppConfigError::MissingUrl);

    let mut with_url = AppConfig::new();
    with_url.url = Some("localhost:8000".to_string());
    assert_eq!(
        with_url.build().unwrap_err(),
        AppConfigError::MissingUsername
    );

    let mut with_user = AppConfig::new();
    with_user.url = Some("localhost:8000".to_string());
    with_user.username = Some("root".to_string());
    assert_eq!(
        with_user.build().unwrap_err(),
        AppConfigError::MissingPassword
    );

    let mut complete = AppConfig::new();
    complete.url = Some("localhost:8000".to_string());
    complete.username = Some("root".to_string());
    complete.password = Some("root".to_string());
    let built = complete.clone().build().unwrap();
    assert_eq!(built, complete);
}
