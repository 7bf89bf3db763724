//! Layered application configuration: built-in defaults, a configuration
//! file, environment variables and command-line flags, merged with a fixed
//! precedence and validated.

pub mod args;
pub mod config;
pub mod env;
pub mod features;
pub mod file;
pub mod laws;
pub mod merge;
pub mod pipeline;
pub mod render;
pub mod text;
pub mod validate;

pub use args::{apply_args, load_config_from_args, CliArgs};
pub use config::{
    create_default_config, AppConfig, ConfigError, ConfigFormat, DatabaseConfig, LoggingConfig,
    ServerConfig,
};
pub use env::load_config_from_env;
pub use features::FeatureMap;
pub use file::{check_config_file, decode_error, detect_format_from_extension, format_from_extension};
pub use merge::merge_configs;
pub use pipeline::load_config;
pub use render::print_config;
pub use validate::{needs_password_warning, validate_config};
