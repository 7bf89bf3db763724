use config_reader::{
    apply_args, create_default_config, load_config_from_args, load_config_from_env, AppConfig,
    CliArgs, ConfigError,
};

fn vars(pairs: &[(&str, &str)]) -> Vec<(String, String)> {
    pairs.iter().map(|(k, v)| (k.to_string(), v.to_string())).collect()
}

fn parse_err(msg: &str) -> ConfigError {
    ConfigError::ParseError(msg.to_string())
}

fn assert_defaults(c: &AppConfig) {
    assert_eq!(c.server.host, "127.0.0.1");
    assert_eq!(c.server.port, 8080);
    assert_eq!(c.server.workers, Some(4));
    assert_eq!(c.database.host, "localhost");
    assert_eq!(c.database.port, 5432);
    assert_eq!(c.database.username, "postgres");
    assert_eq!(c.database.password, "");
    assert_eq!(c.database.database, "myapp");
    assert_eq!(c.database.max_connections, Some(10));
    assert_eq!(c.logging.level, "info");
    assert_eq!(c.logging.file.as_deref(), Some("app.log"));
    assert_eq!(c.features.get("debug_mode"), Some(false));
    assert_eq!(c.features.get("metrics"), Some(true));
    assert_eq!(c.features.get("cache"), Some(true));
    assert_eq!(c.features.entries().len(), 3);
}

#[test]
fn defaults_have_documented_values() {
    assert_defaults(&create_default_config());
}

#[test]
fn env_empty_snapshot_seeds_defaults() {
    let c = load_config_from_env(None, &Vec::new()).unwrap();
    assert_defaults(&c);
}

#[test]
fn env_sets_every_field() {
    let v = vars(&[
        ("APP_SERVER_HOST", "0.0.0.0"),
        ("APP_SERVER_PORT", "9100"),
        ("APP_SERVER_WORKERS", "16"),
        ("APP_DATABASE_HOST", "db.internal"),
        ("APP_DATABASE_PORT", "6543"),
        ("APP_DATABASE_USERNAME", "svc"),
        ("APP_DATABASE_PASSWORD", "secret"),
        ("APP_DATABASE_DATABASE", "prod"),
        ("APP_DATABASE_MAX_CONNECTIONS", "50"),
        ("APP_LOGGING_LEVEL", "debug"),
        ("APP_LOGGING_FILE", "/var/log/app.log"),
        ("UNRELATED", "x"),
    ]);
    let c = load_config_from_env(None, &v).unwrap();
    assert_eq!(c.server.host, "0.0.0.0");
    assert_eq!(c.server.port, 9100);
    assert_eq!(c.server.workers, Some(16));
    assert_eq!(c.database.host, "db.internal");
    assert_eq!(c.database.port, 6543);
    assert_eq!(c.database.username, "svc");
    assert_eq!(c.database.password, "secret");
    assert_eq!(c.database.database, "prod");
    assert_eq!(c.database.max_connections, Some(50));
    assert_eq!(c.logging.level, "debug");
    assert_eq!(c.logging.file.as_deref(), Some("/var/log/app.log"));
}

#[test]
fn env_keeps_existing_values_when_silent() {
    let mut base = create_default_config();
    base.server.host = "10.1.1.1".to_string();
    base.logging.file = None;
    let c = load_config_from_env(Some(base), &vars(&[("APP_SERVER_PORT", "81")])).unwrap();
    assert_eq!(c.server.host, "10.1.1.1");
    assert_eq!(c.server.port, 81);
    assert_eq!(c.logging.file, None);
}

#[test]
fn env_strings_are_taken_verbatim() {
    let c = load_config_from_env(None, &vars(&[("APP_LOGGING_LEVEL", " WARN "), ("APP_DATABASE_PASSWORD", "")]))
        .unwrap();
    assert_eq!(c.logging.level, " WARN ");
    assert_eq!(c.database.password, "");
}

#[test]
fn env_integer_variables_reject_non_numbers() {
    for name in ["APP_SERVER_PORT", "APP_SERVER_WORKERS", "APP_DATABASE_PORT", "APP_DATABASE_MAX_CONNECTIONS"] {
        let r = load_config_from_env(None, &vars(&[(name, "abc")]));
        assert_eq!(r.err(), Some(parse_err(&format!("Invalid {}", name))));
    }
}

#[test]
fn env_port_out_of_range_is_rejected() {
    let r = load_config_from_env(None, &vars(&[("APP_SERVER_PORT", "70000")]));
    assert_eq!(r.err(), Some(parse_err("Invalid APP_SERVER_PORT")));
    let r = load_config_from_env(None, &vars(&[("APP_SERVER_WORKERS", "-1")]));
    assert_eq!(r.err(), Some(parse_err("Invalid APP_SERVER_WORKERS")));
}

#[test]
fn env_first_bad_variable_in_field_order_is_reported() {
    let r = load_config_from_env(
        None,
        &vars(&[("APP_DATABASE_MAX_CONNECTIONS", "x"), ("APP_DATABASE_PORT", "y")]),
    );
    assert_eq!(r.err(), Some(parse_err("Invalid APP_DATABASE_PORT")));
}

#[test]
fn env_non_numeric_server_port() {
    let r = load_config_from_env(None, &vars(&[("APP_SERVER_PORT", "abc")]));
    assert_eq!(r.err(), Some(parse_err("Invalid APP_SERVER_PORT")));
}

#[test]
fn env_feature_flags_are_lowercased_and_parsed() {
    let v = vars(&[
        ("APP_FEATURES_TELEMETRY", "true"),
        ("APP_FEATURES_CACHE", "false"),
        ("APP_FEATURES_Beta_UI", "true"),
    ]);
    let c = load_config_from_env(None, &v).unwrap();
    assert_eq!(c.features.get("telemetry"), Some(true));
    assert_eq!(c.features.get("TELEMETRY"), None);
    assert_eq!(c.features.get("cache"), Some(false));
    assert_eq!(c.features.get("beta_ui"), Some(true));
    assert_eq!(c.features.get("metrics"), Some(true));
    assert_eq!(c.features.entries().len(), 5);
}

#[test]
fn env_malformed_feature_values_are_skipped() {
    let v = vars(&[("APP_FEATURES_CACHE", "no"), ("APP_FEATURES_NEW", "1"), ("APP_FEATURES_X", "True")]);
    let c = load_config_from_env(None, &v).unwrap();
    assert_eq!(c.features.get("cache"), Some(true));
    assert_eq!(c.features.get("new"), None);
    assert_eq!(c.features.get("x"), None);
}

#[test]
fn args_none_gives_defaults() {
    let c = load_config_from_args(&CliArgs::new()).unwrap();
    assert_defaults(&c);
}

#[test]
fn args_set_every_field() {
    let mut a = CliArgs::new();
    a.server_host = Some("10.0.0.1".to_string());
    a.server_port = Some("9000".to_string());
    a.server_workers = Some("8".to_string());
    a.database_host = Some("db".to_string());
    a.database_port = Some("5433".to_string());
    a.database_username = Some("u".to_string());
    a.database_password = Some("p".to_string());
    a.database_name = Some("d".to_string());
    a.database_max_connections = Some("20".to_string());
    a.logging_level = Some("error".to_string());
    a.logging_file = Some("out.log".to_string());
    let c = load_config_from_args(&a).unwrap();
    assert_eq!(c.server.host, "10.0.0.1");
    assert_eq!(c.server.port, 9000);
    assert_eq!(c.server.workers, Some(8));
    assert_eq!(c.database.host, "db");
    assert_eq!(c.database.port, 5433);
    assert_eq!(c.database.username, "u");
    assert_eq!(c.database.password, "p");
    assert_eq!(c.database.database, "d");
    assert_eq!(c.database.max_connections, Some(20));
    assert_eq!(c.logging.level, "error");
    assert_eq!(c.logging.file.as_deref(), Some("out.log"));
}

#[test]
fn args_integer_flags_reject_non_numbers() {
    let mut a = CliArgs::new();
    a.server_port = Some("http".to_string());
    assert_eq!(load_config_from_args(&a).err(), Some(parse_err("Invalid server port")));
    let mut a = CliArgs::new();
    a.server_workers = Some("many".to_string());
    assert_eq!(load_config_from_args(&a).err(), Some(parse_err("Invalid server workers")));
    let mut a = CliArgs::new();
    a.database_port = Some("".to_string());
    assert_eq!(load_config_from_args(&a).err(), Some(parse_err("Invalid database port")));
    let mut a = CliArgs::new();
    a.database_max_connections = Some("1.5".to_string());
    assert_eq!(load_config_from_args(&a).err(), Some(parse_err("Invalid max connections")));
}

#[test]
fn args_only_override_flags_that_were_passed() {
    let mut base = create_default_config();
    base.server.host = "from-env".to_string();
    base.database.username = "envuser".to_string();
    let mut a = CliArgs::new();
    a.logging_level = Some("warn".to_string());
    let c = apply_args(base, &a).unwrap();
    assert_eq!(c.server.host, "from-env");
    assert_eq!(c.database.username, "envuser");
    assert_eq!(c.logging.level, "warn");
}
