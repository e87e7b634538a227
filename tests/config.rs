use accounts_application::config::AppConfig;

#[test]
fn test_default_config() {
    let config = AppConfig::default();
    assert_eq!(config.database_url, "../Database/accounts.db");
    assert_eq!(config.log_level, "info");
}

#[test]
fn test_validate_config() {
    let config = AppConfig::default();
    assert!(config.validate().is_ok());

    let invalid_config = AppConfig {
        database_url: "".to_string(),
        log_level: "info".to_string(),
    };
    assert!(invalid_config.validate().is_err());
}

#[test]
fn settings_fall_back_to_defaults() {
    let config = AppConfig::from_settings(None, Some("debug".to_string()));
    assert_eq!(config.database_url, "../Database/accounts.db");
    assert_eq!(config.log_level, "debug");
    let config = AppConfig::from_settings(Some("/tmp/x.db".to_string()), None);
    assert_eq!(config.database_path(), std::path::PathBuf::from("/tmp/x.db"));
}

#[test]
fn it_works() {
    assert_eq!(2 + 2, 4);
}
