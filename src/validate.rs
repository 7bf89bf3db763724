//! The rules that a finished configuration must keep.

use vstd::prelude::*;

use crate::config::{AppConfig, ConfigError, ConfigView, ErrorView};
use crate::text::text_eq;

verus! {

/// The logging levels the loader knows.
pub open spec fn known_level(level: Seq<char>) -> bool {
    level == "debug"@ || level == "info"@ || level == "warn"@ || level == "error"@
}

/// The first rule, in the order they are checked, that `c` breaks, as its
/// message; `None` when `c` keeps them all.
pub open spec fn validation_failure(c: ConfigView) -> Option<Seq<char>> {
    if c.server.host.len() == 0 {
        Some("Server host cannot be empty"@)
    } else if c.server.port == 0 {
        Some("Server port must be greater than 0"@)
    } else if c.server.workers == Some(0u32) {
        Some("Server workers must be greater than 0"@)
    } else if c.database.host.len() == 0 {
        Some("Database host cannot be empty"@)
    } else if c.database.port == 0 {
        Some("Database port must be greater than 0"@)
    } else if c.database.username.len() == 0 {
        Some("Database username cannot be empty"@)
    } else if c.database.database.len() == 0 {
        Some("Database name cannot be empty"@)
    } else if c.database.max_connections == Some(0u32) {
        Some("Database max connections must be greater than 0"@)
    } else if !known_level(c.logging.level) {
        Some("Invalid logging level: "@ + c.logging.level)
    } else {
        None
    }
}

/// An empty password for a database that is not on this machine: allowed,
/// but worth a warning.
pub open spec fn insecure_password(c: ConfigView) -> bool {
    c.database.password.len() == 0 && c.database.host != "localhost"@
}

fn invalid(msg: &str) -> (e: ConfigError)
    ensures
        e@ == ErrorView::ValidationError(msg@),
{
    ConfigError::ValidationError(String::from_str(msg))
}

/// Checks the rules of a finished configuration; the error names the first
/// rule broken.
pub fn validate_config(config: &AppConfig) -> (r: Result<(), ConfigError>)
    ensures
        r is Ok <==> validation_failure(config@) is None,
        r matches Err(e) ==> validation_failure(config@) == Some(e@->ValidationError_0)
            && e@ is ValidationError,
{
    if config.server.host.as_str().is_empty() {
        return Err(invalid("Server host cannot be empty"));
    }
    if config.server.port == 0 {
        return Err(invalid("Server port must be greater than 0"));
    }
    if let Some(workers) = config.server.workers {
        if workers == 0 {
            return Err(invalid("Server workers must be greater than 0"));
        }
    }
    if config.database.host.as_str().is_empty() {
        return Err(invalid("Database host cannot be empty"));
    }
    if config.database.port == 0 {
        return Err(invalid("Database port must be greater than 0"));
    }
    if config.database.username.as_str().is_empty() {
        return Err(invalid("Database username cannot be empty"));
    }
    if config.database.database.as_str().is_empty() {
        return Err(invalid("Database name cannot be empty"));
    }
    if let Some(max) = config.database.max_connections {
        if max == 0 {
            return Err(invalid("Database max connections must be greater than 0"));
        }
    }
    let level = config.logging.level.as_str();
    if !(text_eq(level, "debug") || text_eq(level, "info") || text_eq(level, "warn") || text_eq(
        level,
        "error",
    )) {
        let msg = String::from_str("Invalid logging level: ").concat(level);
        return Err(ConfigError::ValidationError(msg));
    }
    Ok(())
}

/// Whether the configuration deserves the warning about an empty password
/// for a database that is not on this machine.
pub fn needs_password_warning(config: &AppConfig) -> (r: bool)
    ensures
        r == insecure_password(config@),
{
    config.database.password.as_str().is_empty() && !text_eq(
        config.database.host.as_str(),
        "localhost",
    )
}

} // verus!
