//! The command-line source: the values given for each flag override the
//! fields they name.

use vstd::prelude::*;

use crate::config::{
    bad_count, bad_port, count_or, create_default_config, default_view, opt_text, opt_text_or, outcome,
    parse_error, port_or, text_or, AppConfig, ConfigError, ConfigView, DatabaseView, ErrorView,
    LoggingView, ServerView,
};
use crate::text::{parse_u16, parse_u32};

verus! {

/// The text given on the command line for each flag; `None` where the flag
/// was not passed.
#[derive(Debug, Clone)]
pub struct CliArgs {
    /// `--config` / `-c`: the configuration file to read.
    pub config: Option<String>,
    pub server_host: Option<String>,
    pub server_port: Option<String>,
    pub server_workers: Option<String>,
    pub database_host: Option<String>,
    pub database_port: Option<String>,
    pub database_username: Option<String>,
    pub database_password: Option<String>,
    /// `--database-name`, which sets `database.database`.
    pub database_name: Option<String>,
    pub database_max_connections: Option<String>,
    pub logging_level: Option<String>,
    pub logging_file: Option<String>,
}

/// View of the flag values.
pub struct ArgsView {
    pub config: Option<Seq<char>>,
    pub server_host: Option<Seq<char>>,
    pub server_port: Option<Seq<char>>,
    pub server_workers: Option<Seq<char>>,
    pub database_host: Option<Seq<char>>,
    pub database_port: Option<Seq<char>>,
    pub database_username: Option<Seq<char>>,
    pub database_password: Option<Seq<char>>,
    pub database_name: Option<Seq<char>>,
    pub database_max_connections: Option<Seq<char>>,
    pub logging_level: Option<Seq<char>>,
    pub logging_file: Option<Seq<char>>,
}

impl View for CliArgs {
    type V = ArgsView;

    open spec fn view(&self) -> ArgsView {
        ArgsView {
            config: opt_text(self.config),
            server_host: opt_text(self.server_host),
            server_port: opt_text(self.server_port),
            server_workers: opt_text(self.server_workers),
            database_host: opt_text(self.database_host),
            database_port: opt_text(self.database_port),
            database_username: opt_text(self.database_username),
            database_password: opt_text(self.database_password),
            database_name: opt_text(self.database_name),
            database_max_connections: opt_text(self.database_max_connections),
            logging_level: opt_text(self.logging_level),
            logging_file: opt_text(self.logging_file),
        }
    }
}

/// The view of a command line that passes no flag.
pub open spec fn no_args() -> ArgsView {
    ArgsView {
        config: None,
        server_host: None,
        server_port: None,
        server_workers: None,
        database_host: None,
        database_port: None,
        database_username: None,
        database_password: None,
        database_name: None,
        database_max_connections: None,
        logging_level: None,
        logging_file: None,
    }
}

impl CliArgs {
    /// A command line that passes no flag.
    pub fn new() -> (r: Self)
        ensures
            r@ == no_args(),
    {
        CliArgs {
            config: None,
            server_host: None,
            server_port: None,
            server_workers: None,
            database_host: None,
            database_port: None,
            database_username: None,
            database_password: None,
            database_name: None,
            database_max_connections: None,
            logging_level: None,
            logging_file: None,
        }
    }
}

/// The message of the first flag, in the order the fields are read, whose
/// text is not a number where one is needed.
pub open spec fn args_error(a: ArgsView) -> Option<Seq<char>> {
    if bad_port(a.server_port) {
        Some("Invalid server port"@)
    } else if bad_count(a.server_workers) {
        Some("Invalid server workers"@)
    } else if bad_port(a.database_port) {
        Some("Invalid database port"@)
    } else if bad_count(a.database_max_connections) {
        Some("Invalid max connections"@)
    } else {
        None
    }
}

/// `c` with every field whose flag was passed set from that flag.
pub open spec fn apply_args_spec(c: ConfigView, a: ArgsView) -> ConfigView {
    ConfigView {
        server: ServerView {
            host: text_or(a.server_host, c.server.host),
            port: port_or(a.server_port, c.server.port),
            workers: count_or(a.server_workers, c.server.workers),
        },
        database: DatabaseView {
            host: text_or(a.database_host, c.database.host),
            port: port_or(a.database_port, c.database.port),
            username: text_or(a.database_username, c.database.username),
            password: text_or(a.database_password, c.database.password),
            database: text_or(a.database_name, c.database.database),
            max_connections: count_or(a.database_max_connections, c.database.max_connections),
        },
        logging: LoggingView {
            level: text_or(a.logging_level, c.logging.level),
            file: opt_text_or(a.logging_file, c.logging.file),
        },
        features: c.features,
    }
}

/// What applying the flags to `c` yields.
pub open spec fn args_outcome(c: ConfigView, a: ArgsView) -> Result<ConfigView, ErrorView> {
    match args_error(a) {
        Some(m) => Err(ErrorView::ParseError(m)),
        None => Ok(apply_args_spec(c, a)),
    }
}

/// Overrides the fields of `config` whose flags were passed; the others keep
/// their values, and the feature flags are left alone.
pub fn apply_args(config: AppConfig, args: &CliArgs) -> (r: Result<AppConfig, ConfigError>)
    ensures
        outcome(r) == args_outcome(config@, args@),
{
    let mut config = config;
    if let Some(host) = &args.server_host {
        config.server.host = host.clone();
    }
    if let Some(text) = &args.server_port {
        match parse_u16(text.as_str()) {
            Some(port) => config.server.port = port,
            None => return Err(parse_error("Invalid server port")),
        }
    }
    if let Some(text) = &args.server_workers {
        match parse_u32(text.as_str()) {
            Some(n) => config.server.workers = Some(n),
            None => return Err(parse_error("Invalid server workers")),
        }
    }
    if let Some(host) = &args.database_host {
        config.database.host = host.clone();
    }
    if let Some(text) = &args.database_port {
        match parse_u16(text.as_str()) {
            Some(port) => config.database.port = port,
            None => return Err(parse_error("Invalid database port")),
        }
    }
    if let Some(username) = &args.database_username {
        config.database.username = username.clone();
    }
    if let Some(password) = &args.database_password {
        config.database.password = password.clone();
    }
    if let Some(name) = &args.database_name {
        config.database.database = name.clone();
    }
    if let Some(text) = &args.database_max_connections {
        match parse_u32(text.as_str()) {
            Some(n) => config.database.max_connections = Some(n),
            None => return Err(parse_error("Invalid max connections")),
        }
    }
    if let Some(level) = &args.logging_level {
        config.logging.level = level.clone();
    }
    if let Some(file) = &args.logging_file {
        config.logging.file = Some(file.clone());
    }
    Ok(config)
}

/// The command-line source on its own: the defaults, with every field whose
/// flag was passed set from that flag.
pub fn load_config_from_args(args: &CliArgs) -> (r: Result<AppConfig, ConfigError>)
    ensures
        outcome(r) == args_outcome(default_view(), args@),
{
    apply_args(create_default_config(), args)
}

} // verus!
