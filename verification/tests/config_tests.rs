use ctd_core::config::{ApiClientConfig, Config, DEFAULT_API_URL, DEFAULT_CRASHES_PATH,
    DEFAULT_TIMEOUT_SECS};

#[test]
fn api_client_default_config() {
    let config = ApiClientConfig::default();
    assert_eq!(config.base_url, "https://api.ctd.ezmode.games");
    assert!(config.api_key.is_none());
    assert_eq!(config.timeout_secs, 30);
}

#[test]
fn config_builder() {
    let config = ApiClientConfig::new("https://test.example.com")
        .with_api_key("secret")
        .with_timeout(60);

    assert_eq!(config.base_url, "https://test.example.com");
    assert_eq!(config.api_key, Some("secret".to_string()));
    assert_eq!(config.timeout_secs, 60);
}

#[test]
fn config_default_config() {
    let config = Config::default();
    assert_eq!(config.api.url, DEFAULT_API_URL);
    assert_eq!(config.api.crashes_path, DEFAULT_CRASHES_PATH);
    assert!(config.api.api_key.is_none());
    assert_eq!(config.api.timeout_secs, DEFAULT_TIMEOUT_SECS);
}

#[test]
fn example_names_both_locations() {
    let example = Config::example();
    assert!(example.contains("[api]"));
    assert!(example.contains("ctd.toml"));
    assert!(example.contains("timeout_secs = 30"));
}
