use radi::config::{Config, ListenConfig, TokenSource, DEFAULT_ENDPOINT};

#[test]
fn test_default_config_has_no_output_dir() {
    let config = Config::default();
    assert_eq!(config.output_dir, None);
}

#[test]
fn test_output_dir_or_default_with_none() {
    let config = Config::default();
    assert_eq!(config.output_dir_or_default(), String::from("."));
}

#[test]
fn test_output_dir_or_default_with_some() {
    let config = Config {
        output_dir: Some(String::from("/tmp/out")),
        listen: None,
    };
    assert_eq!(config.output_dir_or_default(), String::from("/tmp/out"));
}

#[test]
fn test_listen_endpoint_or_default() {
    let listen = ListenConfig {
        podcast_id: "p".into(),
        api_token: None,
        endpoint: None,
    };
    assert_eq!(listen.endpoint_or_default(), DEFAULT_ENDPOINT);
    assert_eq!(DEFAULT_ENDPOINT, "https://listen.style/graphql");
}

#[test]
fn configured_endpoint_wins() {
    let listen = ListenConfig {
        podcast_id: "p".into(),
        api_token: None,
        endpoint: Some("https://example.test/graphql".into()),
    };
    assert_eq!(listen.endpoint_or_default(), "https://example.test/graphql");
}

#[test]
fn test_listen_resolved_token_prefers_config() {
    let listen = ListenConfig {
        podcast_id: "p".into(),
        api_token: Some("from_config".into()),
        endpoint: None,
    };
    assert_eq!(
        listen.token_source(Some("from_env".into())),
        TokenSource::Plain("from_config".into())
    );
}

#[test]
fn token_falls_back_to_environment_and_detects_op_references() {
    let mut listen = ListenConfig { podcast_id: "p".into(), api_token: None, endpoint: None };
    assert_eq!(listen.token_source(Some("env".into())), TokenSource::Plain("env".into()));
    assert_eq!(listen.token_source(None), TokenSource::Missing);
    listen.api_token = Some("op://vault/item".into());
    assert_eq!(listen.token_source(None), TokenSource::OnePassword("op://vault/item".into()));
    listen.api_token = Some("op:/x".into());
    assert_eq!(listen.token_source(None), TokenSource::Plain("op:/x".into()));
}
