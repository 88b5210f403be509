use tms_provider::auth::{accepted_issuers, bearer_rejection, issuer_accepted, token_rejection};
use tms_provider::banner::display_banner;
use tms_provider::config::{config_file_choice, ApplicationConfig, ConfigFileProbe, DataSourceKind};
use tms_provider::errors::{ProviderError, ServiceError};
use tms_provider::state::{get_commit, get_rust_version, get_version, AppState};
use tms_provider::text::decimal_string;

#[test]
fn default_configuration() {
    let c = ApplicationConfig::default();
    assert_eq!(c.port, 8080);
    assert_eq!(c.app_name, "");
    assert_eq!(c.address, "0.0.0.0");
    assert_eq!(c.source_kind, DataSourceKind::File);
    assert_eq!(c.source_location, "assets/sources-sample.yaml");
    assert!(c.jwt_issuers.is_none());
    assert!(!c.silent);
}

#[test]
fn kind_names() {
    assert_eq!(DataSourceKind::Null.name(), "Null");
    assert_eq!(DataSourceKind::File.name(), "File");
    assert_eq!(DataSourceKind::Database.name(), "Database");
}

#[test]
fn config_file_from_variable_must_exist() {
    let probe = ConfigFileProbe::Variable { value: "/etc/p.toml".into(), exists: true };
    assert_eq!(config_file_choice("TMS_PROVIDER_CONF_FILE", probe).ok().unwrap(), "/etc/p.toml");
    let probe = ConfigFileProbe::Variable { value: "/etc/q.toml".into(), exists: false };
    match config_file_choice("TMS_PROVIDER_CONF_FILE", probe) {
        Err(ProviderError::ApplicationConfigError(m)) => {
            assert_eq!(m, "file from variable TMS_PROVIDER_CONF_FILE not found")
        }
        other => panic!("unexpected: {other:?}"),
    }
}

#[test]
fn config_file_from_search() {
    let probe = ConfigFileProbe::Search { first_match: Some("/home/u/.config/tms_provider/conf.yaml".into()) };
    assert_eq!(config_file_choice("V", probe).ok().unwrap(), "/home/u/.config/tms_provider/conf.yaml");
    let probe = ConfigFileProbe::Search { first_match: None };
    assert_eq!(config_file_choice("V", probe).ok().unwrap(), "");
}

#[test]
fn decimal_rendering() {
    assert_eq!(decimal_string(0), "0");
    assert_eq!(decimal_string(7), "7");
    assert_eq!(decimal_string(10), "10");
    assert_eq!(decimal_string(8080), "8080");
    assert_eq!(decimal_string(65535), "65535");
    assert_eq!(decimal_string(u64::MAX), u64::MAX.to_string());
}

#[test]
fn build_information_defaults() {
    assert_eq!(get_version(None), "0.0.0");
    assert_eq!(get_version(Some("1.2.3".into())), "1.2.3");
    assert_eq!(get_rust_version(None), "0.0.0");
    assert_eq!(get_rust_version(Some("1.85.0".into())), "1.85.0");
    assert_eq!(get_commit(None), "0000000");
    assert_eq!(get_commit(Some("abc1234".into())), "abc1234");
}

fn state(config: ApplicationConfig) -> AppState {
    AppState { config, version: "1.0.0".into(), rust_version: "1.85.0".into(), commit: "abc1234".into() }
}

#[test]
fn banner_with_defaults() {
    let text = display_banner(&state(ApplicationConfig::default()));
    assert_eq!(
        text,
        "--- TMS Resources Provider ---\n\
         Version: 1.0.0\n\
         Commit: abc1234\n\
         Rust version: 1.85.0\n\
         \n\
         Using Data source: File(assets/sources-sample.yaml)\n\
         Issuers: no issuers accepted\n\
         Listening at: 0.0.0.0:8080\n"
    );
}

#[test]
fn banner_with_null_source_and_issuers() {
    let mut config = ApplicationConfig::default();
    config.source_kind = DataSourceKind::Null;
    config.port = 9000;
    config.address = "127.0.0.1".into();
    config.jwt_issuers = Some(vec![
        "https://dev.develop.tapis.io/v3/tokens".into(),
        "https://other.example/".into(),
    ]);
    let text = display_banner(&state(config));
    assert!(text.contains("Using Data source: Null\n"));
    assert!(text.contains(
        "Issuers: \n - https://dev.develop.tapis.io/v3/tokens\n - https://other.example/\n"
    ));
    assert!(text.ends_with("Listening at: 127.0.0.1:9000\n"));
}

#[test]
fn banner_with_empty_issuer_list() {
    let mut config = ApplicationConfig::default();
    config.source_kind = DataSourceKind::Database;
    config.jwt_issuers = Some(vec![]);
    let text = display_banner(&state(config));
    assert!(text.contains("Using Data source: Database(assets/sources-sample.yaml)\n"));
    assert!(text.contains("Issuers: \nListening at:"));
}

#[test]
fn issuers_are_accepted_only_when_listed() {
    let mut config = ApplicationConfig::default();
    assert!(accepted_issuers(&config).is_empty());
    config.jwt_issuers = Some(vec!["https://a.example/".into(), "https://b.example/".into()]);
    let issuers = accepted_issuers(&config);
    assert_eq!(issuers, vec!["https://a.example/".to_string(), "https://b.example/".to_string()]);
    assert!(issuer_accepted(&issuers, "https://b.example/"));
    assert!(!issuer_accepted(&issuers, "https://b.example"));
    assert!(!issuer_accepted(&vec![], "https://a.example/"));
}

#[test]
fn authentication_refusals() {
    match bearer_rejection("Header of type `authorization` was missing".into()) {
        ServiceError::AuthenticationError { error } => {
            assert_eq!(error, "Header of type `authorization` was missing")
        }
        other => panic!("unexpected: {other:?}"),
    }
    match token_rejection("expired") {
        ServiceError::AuthenticationError { error } => assert_eq!(error, "JWT token error: expired"),
        other => panic!("unexpected: {other:?}"),
    }
}
