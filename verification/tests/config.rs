use director_narrative_core::config::{
    apply_env_overrides, build_and_validate, env_var_name, load, parse as parse_raw, ConfigError,
    EnvOverrides, PublisherConfig, RawAuth, RawConfig, RawPublisher,
};

fn parse(toml: &str) -> PublisherConfig {
    let raw: RawConfig = parse_raw(toml).expect("valid toml");
    // No env vars here: isolate file parsing only
    build_and_validate(raw).expect("valid config")
}

fn no_env() -> EnvOverrides {
    EnvOverrides {
        tenant_id: None,
        client_id: None,
        client_secret: None,
        scope: None,
        cert_thumbprint: None,
        rc_api_url: None,
        batch_interval_ms: None,
        heartbeat_interval_ms: None,
        driver_material_interval_ms: None,
    }
}

#[test]
fn parse_full_config() {
    let cfg = parse(r#"
[auth]
tenant_id     = "tenant-123"
client_id     = "client-456"
client_secret = "secret-789"
scope         = "api://rc/.default"

[publisher]
rc_api_url            = "https://api.example.com"
batch_interval_ms     = 250
heartbeat_interval_ms = 5000
"#);
    assert_eq!(cfg.auth.tenant_id,     "tenant-123");
    assert_eq!(cfg.auth.client_id,     "client-456");
    assert_eq!(cfg.auth.client_secret, "secret-789");
    assert_eq!(cfg.auth.scope,         "api://rc/.default");
    assert_eq!(cfg.publisher.rc_api_url,        "https://api.example.com");
    assert_eq!(cfg.publisher.batch_interval_ms, 250);
    assert_eq!(cfg.publisher.heartbeat_interval_ms, 5000);
}

#[test]
fn defaults_applied_when_publisher_section_absent() {
    let cfg = parse(r#"
[auth]
tenant_id     = "t"
client_id     = "c"
client_secret = "s"
"#);
    assert_eq!(cfg.auth.scope,                   "api://racecontrol-api-a780e279-1cb6-4ed0-9ef6-49029aa50a42/.default");
    assert_eq!(cfg.publisher.rc_api_url,         "https://simracecenter.com");
    assert_eq!(cfg.publisher.batch_interval_ms,  500);
    assert_eq!(cfg.publisher.heartbeat_interval_ms, 15_000);
}

#[test]
fn heartbeat_interval_zero_accepted() {
    let cfg = parse(r#"
[auth]
tenant_id     = "t"
client_id     = "c"
client_secret = "s"

[publisher]
heartbeat_interval_ms = 0
"#);
    assert_eq!(cfg.publisher.heartbeat_interval_ms, 0);
}

#[test]
fn missing_client_id_returns_validation_error() {
    let mut raw = RawConfig::default();
    raw.auth.tenant_id     = Some("t".to_owned());
    raw.auth.client_secret = Some("s".to_owned());
    // client_id intentionally absent
    let err = build_and_validate(raw).unwrap_err();
    assert!(matches!(err, ConfigError::Validation(_)));
    let msg = err.message();
    assert!(msg.contains("client_id"), "error message should name the missing field");
    assert!(msg.contains("PUBLISHER_AUTH_CLIENT_ID"), "error message should name the env var");
}

#[test]
fn env_override_applied() {
    let mut raw = RawConfig {
        auth: RawAuth {
            tenant_id:     Some("t".to_owned()),
            client_id:     Some("c".to_owned()),
            client_secret: Some("s".to_owned()),
            scope:         None,
            cert_thumbprint: None,
        },
        publisher: RawPublisher {
            rc_api_url:            Some("https://original.com".to_owned()),
            batch_interval_ms:     Some(500),
            heartbeat_interval_ms: Some(15_000),
            driver_material_interval_ms: Some(25_000),
        },
    };

    // Simulate env var override by directly modifying (avoids polluting test env)
    raw.publisher.rc_api_url = Some("https://override.com".to_owned());
    raw.publisher.batch_interval_ms = Some(100);

    let cfg = build_and_validate(raw).unwrap();
    assert_eq!(cfg.publisher.rc_api_url,        "https://override.com");
    assert_eq!(cfg.publisher.batch_interval_ms, 100);
}

const FILE: &str = r#"
[auth]
tenant_id     = "t"
client_id     = "c"
client_secret = "s"

[publisher]
rc_api_url        = "https://file.example"
batch_interval_ms = 250
"#;

#[test]
fn environment_goes_over_the_file() {
    let env = EnvOverrides {
        client_id: Some("from-env".to_owned()),
        cert_thumbprint: Some("ab12".to_owned()),
        rc_api_url: Some("https://env.example".to_owned()),
        batch_interval_ms: Some("100".to_owned()),
        heartbeat_interval_ms: Some("0".to_owned()),
        ..no_env()
    };
    let cfg = load(FILE, &env).unwrap();
    assert_eq!(cfg.auth.client_id, "from-env");
    assert_eq!(cfg.auth.cert_thumbprint, Some("ab12".to_owned()));
    assert_eq!(cfg.auth.tenant_id, "t");
    assert_eq!(cfg.publisher.rc_api_url, "https://env.example");
    assert_eq!(cfg.publisher.batch_interval_ms, 100);
    assert_eq!(cfg.publisher.heartbeat_interval_ms, 0);
    assert_eq!(cfg.publisher.driver_material_interval_ms, 25_000);
}

#[test]
fn empty_or_unreadable_variables_override_nothing() {
    let env = EnvOverrides {
        client_id: Some(String::new()),
        batch_interval_ms: Some("soon".to_owned()),
        heartbeat_interval_ms: Some("-1".to_owned()),
        ..no_env()
    };
    let cfg = load(FILE, &env).unwrap();
    assert_eq!(cfg.auth.client_id, "c");
    assert_eq!(cfg.publisher.batch_interval_ms, 250);
    assert_eq!(cfg.publisher.heartbeat_interval_ms, 15_000);
}

#[test]
fn environment_alone_can_configure() {
    let env = EnvOverrides {
        tenant_id: Some("a".to_owned()),
        client_id: Some("b".to_owned()),
        client_secret: Some("c".to_owned()),
        scope: Some("d".to_owned()),
        ..no_env()
    };
    let cfg = load("", &env).unwrap();
    assert_eq!(cfg.auth.tenant_id, "a");
    assert_eq!(cfg.auth.scope, "d");
}

#[test]
fn overrides_can_be_applied_to_what_was_read() {
    let mut raw = parse_raw(FILE).unwrap();
    let env = EnvOverrides { scope: Some("x".to_owned()), ..no_env() };
    apply_env_overrides(&mut raw, &env);
    assert_eq!(raw.auth.scope, Some("x".to_owned()));
    assert_eq!(raw.auth.tenant_id, Some("t".to_owned()));
}

#[test]
fn each_way_a_config_can_be_wrong() {
    let err = load("[auth", &no_env()).unwrap_err();
    assert!(matches!(err, ConfigError::Toml(_)));
    assert!(err.message().len() > "config file parse error: ".len());
    assert!(err.message().starts_with("config file parse error: "));

    let err = load("[auth]\ntenant_id = 7\n", &no_env()).unwrap_err();
    assert!(matches!(err, ConfigError::Field(_)));
    assert!(err.message().ends_with("tenant_id"));

    let err = load("[publisher]\nbatch_interval_ms = -1\n", &no_env()).unwrap_err();
    assert!(matches!(err, ConfigError::Field(_)));

    let err = load("auth = 3\n", &no_env()).unwrap_err();
    assert!(matches!(err, ConfigError::Field(_)));

    let err = load("", &no_env()).unwrap_err();
    assert!(matches!(err, ConfigError::Validation(_)));
    assert_eq!(
        err.message(),
        "[publisher] ERROR: auth.tenant_id is required. Set it in publisher.toml or PUBLISHER_AUTH_TENANT_ID.\nSee: https://simracecenter.com/docs/rig-setup for Azure AD provisioning steps."
    );

    let err = ConfigError::Io("gone".to_owned());
    assert_eq!(err.message(), "config file read error: gone");
}

#[test]
fn variables_are_named_in_capitals() {
    assert_eq!(env_var_name("client_id"), "PUBLISHER_AUTH_CLIENT_ID");
    assert_eq!(env_var_name("tenant_id"), "PUBLISHER_AUTH_TENANT_ID");
}

#[test]
fn a_section_may_be_an_array_of_its_settings() {
    let text = "auth = [\"t\", \"c\", \"s\"]\npublisher = [\"https://a.example\", 250, 5000, 0, true]\n";
    let cfg = load(text, &no_env()).unwrap();
    assert_eq!(cfg.auth.tenant_id, "t");
    assert_eq!(cfg.auth.client_id, "c");
    assert_eq!(cfg.auth.client_secret, "s");
    assert_eq!(cfg.publisher.rc_api_url, "https://a.example");
    assert_eq!(cfg.publisher.batch_interval_ms, 250);
    assert_eq!(cfg.publisher.heartbeat_interval_ms, 5000);
    assert_eq!(cfg.publisher.driver_material_interval_ms, 0);
    let wrong = load("auth = [1]\n", &no_env()).unwrap_err();
    assert!(matches!(wrong, ConfigError::Field("auth.tenant_id")));
}
