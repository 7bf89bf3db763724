use config_reader::{
    create_default_config, load_config, merge_configs, needs_password_warning, validate_config,
    AppConfig, CliArgs, ConfigError, DatabaseConfig, FeatureMap, LoggingConfig, ServerConfig,
};

fn env_of(pairs: &[(&str, &str)]) -> Vec<(String, String)> {
    pairs.iter().map(|(k, v)| (k.to_string(), v.to_string())).collect()
}

/// What decoding this JSON file gives:
/// {"server":{"host":"0.0.0.0","port":9000},"database":{"host":"db","port":5432,
///  "username":"u","password":"p","database":"d"},"logging":{"level":"warn"},
///  "features":{"metrics":false}}
fn json_file_config() -> AppConfig {
    let mut features = FeatureMap::new();
    features.insert("metrics".to_string(), false);
    AppConfig {
        server: ServerConfig { host: "0.0.0.0".to_string(), port: 9000, workers: None },
        database: DatabaseConfig {
            host: "db".to_string(),
            port: 5432,
            username: "u".to_string(),
            password: "p".to_string(),
            database: "d".to_string(),
            max_connections: None,
        },
        logging: LoggingConfig { level: "warn".to_string(), file: None },
        features,
    }
}

fn validation_err(msg: &str) -> Result<(), ConfigError> {
    Err(ConfigError::ValidationError(msg.to_string()))
}

#[test]
fn defaults_only_load() {
    let c = load_config(None, &Vec::new(), &CliArgs::new()).unwrap();
    assert_eq!(c.server.host, "127.0.0.1");
    assert_eq!(c.server.port, 8080);
    assert_eq!(c.server.workers, Some(4));
    assert_eq!(c.database.host, "localhost");
    assert_eq!(c.database.port, 5432);
    assert_eq!(c.database.username, "postgres");
    assert_eq!(c.database.password, "");
    assert_eq!(c.database.database, "myapp");
    assert_eq!(c.database.max_connections, Some(10));
    assert_eq!(c.logging.level, "info");
    assert_eq!(c.logging.file.as_deref(), Some("app.log"));
    assert_eq!(c.features.get("debug_mode"), Some(false));
    assert_eq!(c.features.get("metrics"), Some(true));
    assert_eq!(c.features.get("cache"), Some(true));
    assert_eq!(c.features.entries().len(), 3);
    assert_eq!(validate_config(&c), Ok(()));
}

#[test]
fn file_beats_defaults() {
    let c = load_config(Some(json_file_config()), &Vec::new(), &CliArgs::new()).unwrap();
    assert_eq!(c.server.host, "0.0.0.0");
    assert_eq!(c.server.port, 9000);
    assert_eq!(c.server.workers, Some(4));
    assert_eq!(c.database.host, "db");
    assert_eq!(c.database.max_connections, Some(10));
    assert_eq!(c.logging.level, "warn");
    assert_eq!(c.logging.file.as_deref(), Some("app.log"));
    assert_eq!(c.features.get("metrics"), Some(false));
    assert_eq!(c.features.get("cache"), Some(true));
    assert_eq!(c.features.get("debug_mode"), Some(false));
}

#[test]
fn env_beats_file() {
    let env = env_of(&[("APP_SERVER_PORT", "9100"), ("APP_FEATURES_TELEMETRY", "true")]);
    let c = load_config(Some(json_file_config()), &env, &CliArgs::new()).unwrap();
    assert_eq!(c.server.port, 9100);
    assert_eq!(c.features.get("telemetry"), Some(true));
    assert_eq!(c.server.host, "0.0.0.0");
    assert_eq!(c.features.get("metrics"), Some(false));
}

#[test]
fn args_beat_env() {
    let env = env_of(&[("APP_SERVER_PORT", "9100"), ("APP_FEATURES_TELEMETRY", "true")]);
    let mut args = CliArgs::new();
    args.server_host = Some("10.0.0.1".to_string());
    args.logging_level = Some("error".to_string());
    let c = load_config(Some(json_file_config()), &env, &args).unwrap();
    assert_eq!(c.server.host, "10.0.0.1");
    assert_eq!(c.logging.level, "error");
    assert_eq!(c.server.port, 9100);
    assert_eq!(c.features.get("telemetry"), Some(true));
    assert_eq!(c.database.host, "db");
}

#[test]
fn unpassed_flags_do_not_clobber_lower_sources() {
    let env = env_of(&[("APP_DATABASE_USERNAME", "envuser")]);
    let mut args = CliArgs::new();
    args.server_port = Some("7000".to_string());
    let c = load_config(Some(json_file_config()), &env, &args).unwrap();
    assert_eq!(c.server.host, "0.0.0.0");
    assert_eq!(c.server.port, 7000);
    assert_eq!(c.database.username, "envuser");
    assert_eq!(c.database.password, "p");
}

#[test]
fn invalid_env_port_aborts_load() {
    let env = env_of(&[("APP_SERVER_PORT", "abc")]);
    let r = load_config(None, &env, &CliArgs::new());
    assert_eq!(r.err(), Some(ConfigError::ParseError("Invalid APP_SERVER_PORT".to_string())));
}

#[test]
fn env_error_comes_before_args_error() {
    let env = env_of(&[("APP_DATABASE_PORT", "x")]);
    let mut args = CliArgs::new();
    args.server_port = Some("y".to_string());
    let r = load_config(None, &env, &args);
    assert_eq!(r.err(), Some(ConfigError::ParseError("Invalid APP_DATABASE_PORT".to_string())));
    let r = load_config(None, &Vec::new(), &args);
    assert_eq!(r.err(), Some(ConfigError::ParseError("Invalid server port".to_string())));
}

#[test]
fn unknown_level_fails_validation() {
    let mut file = json_file_config();
    file.logging.level = "trace".to_string();
    let r = load_config(Some(file), &Vec::new(), &CliArgs::new());
    assert_eq!(r.err(), Some(ConfigError::ValidationError("Invalid logging level: trace".to_string())));
}

#[test]
fn merge_required_fields_come_from_overrides() {
    let m = merge_configs(create_default_config(), json_file_config());
    assert_eq!(m.server.host, "0.0.0.0");
    assert_eq!(m.server.port, 9000);
    assert_eq!(m.database.username, "u");
    assert_eq!(m.database.password, "p");
    assert_eq!(m.database.database, "d");
    assert_eq!(m.logging.level, "warn");
}

#[test]
fn merge_optional_fields_fall_back_to_base() {
    let m = merge_configs(create_default_config(), json_file_config());
    assert_eq!(m.server.workers, Some(4));
    assert_eq!(m.database.max_connections, Some(10));
    assert_eq!(m.logging.file.as_deref(), Some("app.log"));
    let mut over = json_file_config();
    over.server.workers = Some(2);
    over.logging.file = Some("x.log".to_string());
    let m = merge_configs(create_default_config(), over);
    assert_eq!(m.server.workers, Some(2));
    assert_eq!(m.logging.file.as_deref(), Some("x.log"));
}

#[test]
fn merge_features_union_with_override() {
    let mut base = create_default_config();
    base.features.insert("only_base".to_string(), true);
    let mut over = json_file_config();
    over.features.insert("only_over".to_string(), true);
    over.features.insert("cache".to_string(), false);
    let m = merge_configs(base, over);
    assert_eq!(m.features.get("metrics"), Some(false));
    assert_eq!(m.features.get("cache"), Some(false));
    assert_eq!(m.features.get("debug_mode"), Some(false));
    assert_eq!(m.features.get("only_base"), Some(true));
    assert_eq!(m.features.get("only_over"), Some(true));
    assert_eq!(m.features.get("missing"), None);
    assert_eq!(m.features.entries().len(), 5);
}

#[test]
fn defaults_pass_validation() {
    assert_eq!(validate_config(&create_default_config()), Ok(()));
    assert!(!needs_password_warning(&create_default_config()));
}

#[test]
fn validator_rejects_each_broken_rule() {
    let mut c = create_default_config();
    c.server.host = String::new();
    assert_eq!(validate_config(&c), validation_err("Server host cannot be empty"));

    let mut c = create_default_config();
    c.server.port = 0;
    assert_eq!(validate_config(&c), validation_err("Server port must be greater than 0"));

    let mut c = create_default_config();
    c.server.workers = Some(0);
    assert_eq!(validate_config(&c), validation_err("Server workers must be greater than 0"));

    let mut c = create_default_config();
    c.database.host = String::new();
    assert_eq!(validate_config(&c), validation_err("Database host cannot be empty"));

    let mut c = create_default_config();
    c.database.port = 0;
    assert_eq!(validate_config(&c), validation_err("Database port must be greater than 0"));

    let mut c = create_default_config();
    c.database.username = String::new();
    assert_eq!(validate_config(&c), validation_err("Database username cannot be empty"));

    let mut c = create_default_config();
    c.database.database = String::new();
    assert_eq!(validate_config(&c), validation_err("Database name cannot be empty"));

    let mut c = create_default_config();
    c.database.max_connections = Some(0);
    assert_eq!(
        validate_config(&c),
        validation_err("Database max connections must be greater than 0")
    );

    let mut c = create_default_config();
    c.logging.level = "INFO".to_string();
    assert_eq!(validate_config(&c), validation_err("Invalid logging level: INFO"));
}

#[test]
fn validator_accepts_absent_optionals_and_all_levels() {
    for level in ["debug", "info", "warn", "error"] {
        let mut c = create_default_config();
        c.server.workers = None;
        c.database.max_connections = None;
        c.logging.file = None;
        c.logging.level = level.to_string();
        assert_eq!(validate_config(&c), Ok(()));
    }
}

#[test]
fn validator_reports_the_first_broken_rule() {
    let mut c = create_default_config();
    c.database.port = 0;
    c.server.host = String::new();
    assert_eq!(validate_config(&c), validation_err("Server host cannot be empty"));
}

#[test]
fn empty_password_on_remote_host_warns() {
    let mut c = create_default_config();
    c.database.host = "db.example.com".to_string();
    assert!(needs_password_warning(&c));
    assert_eq!(validate_config(&c), Ok(()));
    c.database.password = "pw".to_string();
    assert!(!needs_password_warning(&c));
}

#[test]
fn file_feature_names_are_lowercased() {
    let mut file = json_file_config();
    file.features.insert("Cache".to_string(), false);
    file.features.insert("NEW_UI".to_string(), true);
    let c = load_config(Some(file), &Vec::new(), &CliArgs::new()).unwrap();
    assert_eq!(c.features.get("cache"), Some(false));
    assert_eq!(c.features.get("Cache"), None);
    assert_eq!(c.features.get("new_ui"), Some(true));
    assert_eq!(c.features.get("NEW_UI"), None);
    assert_eq!(c.features.get("metrics"), Some(false));
    assert_eq!(c.features.entries().len(), 4);
}
