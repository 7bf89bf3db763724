//! The orchestrator: defaults, then the file, then the environment, then the
//! command line, then validation.

use vstd::prelude::*;

use crate::args::{apply_args, args_outcome, ArgsView, CliArgs};
use crate::config::{create_default_config, default_view, outcome, AppConfig, ConfigError, ConfigView, ErrorView};
use crate::env::{env_outcome, env_view, load_config_from_env};
use crate::features::lowered_pairs_map;
use crate::merge::{merge_configs, merge_spec};
use crate::validate::{validate_config, validation_failure};

verus! {

/// The defaults, merged with the file's configuration when there is one.
pub open spec fn file_layer(file: Option<ConfigView>) -> ConfigView {
    match file {
        Some(f) => merge_spec(default_view(), f),
        None => default_view(),
    }
}

/// What a whole load yields: the first error of the environment, of the
/// command line, or of validation, else the assembled configuration.
pub open spec fn load_spec(
    file: Option<ConfigView>,
    env: Seq<(Seq<char>, Seq<char>)>,
    args: ArgsView,
) -> Result<ConfigView, ErrorView> {
    match env_outcome(file_layer(file), env) {
        Err(e) => Err(e),
        Ok(c1) => match args_outcome(c1, args) {
            Err(e) => Err(e),
            Ok(c2) => match validation_failure(c2) {
                Some(m) => Err(ErrorView::ValidationError(m)),
                None => Ok(c2),
            },
        },
    }
}

/// The view of the file's configuration, if one was read, as the loader
/// takes it: each feature name is the lowercase form of the file's name.
pub open spec fn file_view(file: Option<AppConfig>) -> Option<ConfigView> {
    match file {
        Some(f) => Some(
            ConfigView {
                server: f.server@,
                database: f.database@,
                logging: f.logging@,
                features: lowered_pairs_map(f.features.pairs()),
            },
        ),
        None => None,
    }
}

/// Assembles the configuration from the configuration `file` (already read
/// and decoded, if the command line named one; its feature names are
/// lowercased), the environment snapshot `vars`, and the flags `args`, and
/// validates it.
pub fn load_config(file: Option<AppConfig>, vars: &Vec<(String, String)>, args: &CliArgs) -> (r:
    Result<AppConfig, ConfigError>)
    ensures
        outcome(r) == load_spec(file_view(file), env_view(vars@), args@),
{
    let defaults = create_default_config();
    let layered = match file {
        Some(f) => {
            let mut f = f;
            f.features = f.features.with_lowercase_names();
            merge_configs(defaults, f)
        },
        None => defaults,
    };
    let with_env = match load_config_from_env(Some(layered), vars) {
        Ok(c) => c,
        Err(e) => return Err(e),
    };
    let with_args = match apply_args(with_env, args) {
        Ok(c) => c,
        Err(e) => return Err(e),
    };
    match validate_config(&with_args) {
        Ok(()) => Ok(with_args),
        Err(e) => Err(e),
    }
}

} // verus!
