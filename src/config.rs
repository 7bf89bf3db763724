//! The configuration record, its mathematical view, the error type, and the
//! built-in defaults.

use vstd::prelude::*;

use crate::features::FeatureMap;
use crate::text::{parse_u16_spec, parse_unsigned_spec};

verus! {

/// The view of an optional text field.
pub open spec fn opt_text(s: Option<String>) -> Option<Seq<char>> {
    match s {
        Some(t) => Some(t@),
        None => None,
    }
}

/// The `server` section.
#[derive(Debug, Clone)]
pub struct ServerConfig {
    pub host: String,
    pub port: u16,
    pub workers: Option<u32>,
}

/// The `database` section.
#[derive(Debug, Clone)]
pub struct DatabaseConfig {
    pub host: String,
    pub port: u16,
    pub username: String,
    pub password: String,
    pub database: String,
    pub max_connections: Option<u32>,
}

/// The `logging` section.
#[derive(Debug, Clone)]
pub struct LoggingConfig {
    pub level: String,
    pub file: Option<String>,
}

/// The whole configuration.
#[derive(Debug, Clone)]
pub struct AppConfig {
    pub server: ServerConfig,
    pub database: DatabaseConfig,
    pub logging: LoggingConfig,
    pub features: FeatureMap,
}

/// The formats a configuration file may be written in.
#[derive(Debug, Clone, Copy, PartialEq, Eq, Structural)]
pub enum ConfigFormat {
    Toml,
    Json,
    Yaml,
}

/// Why a configuration could not be loaded.
#[derive(Debug, Clone, PartialEq, Eq)]
pub enum ConfigError {
    /// The configuration file does not exist; carries its path.
    FileNotFound(String),
    /// A file, a variable or a flag could not be decoded.
    ParseError(String),
    /// The assembled configuration breaks a rule.
    ValidationError(String),
    /// The configuration file could not be read.
    IoError(String),
}

/// View of the `server` section.
pub struct ServerView {
    pub host: Seq<char>,
    pub port: u16,
    pub workers: Option<u32>,
}

/// View of the `database` section.
pub struct DatabaseView {
    pub host: Seq<char>,
    pub port: u16,
    pub username: Seq<char>,
    pub password: Seq<char>,
    pub database: Seq<char>,
    pub max_connections: Option<u32>,
}

/// View of the `logging` section.
pub struct LoggingView {
    pub level: Seq<char>,
    pub file: Option<Seq<char>>,
}

/// View of a whole configuration.
pub struct ConfigView {
    pub server: ServerView,
    pub database: DatabaseView,
    pub logging: LoggingView,
    pub features: Map<Seq<char>, bool>,
}

/// View of an error: its kind and its message.
pub enum ErrorView {
    FileNotFound(Seq<char>),
    ParseError(Seq<char>),
    ValidationError(Seq<char>),
    IoError(Seq<char>),
}

impl View for ServerConfig {
    type V = ServerView;

    open spec fn view(&self) -> ServerView {
        ServerView { host: self.host@, port: self.port, workers: self.workers }
    }
}

impl View for DatabaseConfig {
    type V = DatabaseView;

    open spec fn view(&self) -> DatabaseView {
        DatabaseView {
            host: self.host@,
            port: self.port,
            username: self.username@,
            password: self.password@,
            database: self.database@,
            max_connections: self.max_connections,
        }
    }
}

impl View for LoggingConfig {
    type V = LoggingView;

    open spec fn view(&self) -> LoggingView {
        LoggingView { level: self.level@, file: opt_text(self.file) }
    }
}

impl View for AppConfig {
    type V = ConfigView;

    open spec fn view(&self) -> ConfigView {
        ConfigView {
            server: self.server@,
            database: self.database@,
            logging: self.logging@,
            features: self.features@,
        }
    }
}

impl View for ConfigError {
    type V = ErrorView;

    open spec fn view(&self) -> ErrorView {
        match self {
            ConfigError::FileNotFound(m) => ErrorView::FileNotFound(m@),
            ConfigError::ParseError(m) => ErrorView::ParseError(m@),
            ConfigError::ValidationError(m) => ErrorView::ValidationError(m@),
            ConfigError::IoError(m) => ErrorView::IoError(m@),
        }
    }
}

/// The view of a loading outcome.
pub open spec fn outcome(r: Result<AppConfig, ConfigError>) -> Result<ConfigView, ErrorView> {
    match r {
        Ok(c) => Ok(c@),
        Err(e) => Err(e@),
    }
}

/// The built-in defaults.
pub open spec fn default_view() -> ConfigView {
    ConfigView {
        server: ServerView { host: "127.0.0.1"@, port: 8080, workers: Some(4) },
        database: DatabaseView {
            host: "localhost"@,
            port: 5432,
            username: "postgres"@,
            password: ""@,
            database: "myapp"@,
            max_connections: Some(10),
        },
        logging: LoggingView { level: "info"@, file: Some("app.log"@) },
        features: map!["debug_mode"@ => false, "metrics"@ => true, "cache"@ => true],
    }
}

/// A text field after a source that may set it.
pub open spec fn text_or(v: Option<Seq<char>>, cur: Seq<char>) -> Seq<char> {
    match v {
        Some(s) => s,
        None => cur,
    }
}

/// An optional text field after a source that may set it.
pub open spec fn opt_text_or(v: Option<Seq<char>>, cur: Option<Seq<char>>) -> Option<Seq<char>> {
    match v {
        Some(s) => Some(s),
        None => cur,
    }
}

/// A port after a source that may set it from text.
pub open spec fn port_or(v: Option<Seq<char>>, cur: u16) -> u16 {
    match v {
        Some(s) => match parse_u16_spec(s) {
            Some(p) => p,
            None => cur,
        },
        None => cur,
    }
}

/// An optional count after a source that may set it from text.
pub open spec fn count_or(v: Option<Seq<char>>, cur: Option<u32>) -> Option<u32> {
    match v {
        Some(s) => match parse_unsigned_spec(s, u32::MAX) {
            Some(n) => Some(n),
            None => cur,
        },
        None => cur,
    }
}

/// Text given for a port that is not one.
pub open spec fn bad_port(v: Option<Seq<char>>) -> bool {
    v matches Some(s) && parse_u16_spec(s) is None
}

/// Text given for a count that is not one.
pub open spec fn bad_count(v: Option<Seq<char>>) -> bool {
    v matches Some(s) && parse_unsigned_spec(s, u32::MAX) is None
}

/// A parse error with the given message.
pub fn parse_error(msg: &str) -> (e: ConfigError)
    ensures
        e@ == ErrorView::ParseError(msg@),
{
    ConfigError::ParseError(String::from_str(msg))
}

/// The configuration that every load starts from.
pub fn create_default_config() -> (r: AppConfig)
    ensures
        r@ == default_view(),
{
    let mut features = FeatureMap::new();
    features.insert(String::from_str("debug_mode"), false);
    features.insert(String::from_str("metrics"), true);
    features.insert(String::from_str("cache"), true);
    proof {
        assert(features@ =~= default_view().features);
    }
    AppConfig {
        server: ServerConfig { host: String::from_str("127.0.0.1"), port: 8080, workers: Some(4) },
        database: DatabaseConfig {
            host: String::from_str("localhost"),
            port: 5432,
            username: String::from_str("postgres"),
            password: String::from_str(""),
            database: String::from_str("myapp"),
            max_connections: Some(10),
        },
        logging: LoggingConfig {
            level: String::from_str("info"),
            file: Some(String::from_str("app.log")),
        },
        features,
    }
}

} // verus!
