//! The environment source: variables named `APP_<SECTION>_<FIELD>` override
//! fields, and `APP_FEATURES_<NAME>` sets feature flags.

use vstd::prelude::*;

use crate::config::{
    bad_count, bad_port, count_or, create_default_config, default_view, opt_text_or, outcome,
    parse_error, port_or, text_or, AppConfig, ConfigError, ConfigView, DatabaseView, ErrorView,
    LoggingView, ServerView,
};
use crate::features::FeatureMap;
use crate::text::{
    lower_of, lowercase, parse_bool, parse_bool_spec, parse_u16, parse_u32, starts_with, text_eq,
};

verus! {

/// The view of an environment snapshot: (name, value) pairs.
pub open spec fn env_view(vars: Seq<(String, String)>) -> Seq<(Seq<char>, Seq<char>)> {
    vars.map_values(|p: (String, String)| (p.0@, p.1@))
}

/// The value of variable `name`; where a snapshot names it twice, the later
/// one counts.
pub open spec fn lookup(env: Seq<(Seq<char>, Seq<char>)>, name: Seq<char>) -> Option<Seq<char>>
    decreases env.len(),
{
    if env.len() == 0 {
        None
    } else if env.last().0 == name {
        Some(env.last().1)
    } else {
        lookup(env.drop_last(), name)
    }
}

/// The prefix of the variables that set feature flags.
pub open spec fn feature_prefix() -> Seq<char> {
    "APP_FEATURES_"@
}

/// The feature flag that a variable sets, if it sets one: its name after the
/// prefix, lowercased, and its value read as a boolean.
pub open spec fn feature_of(var: (Seq<char>, Seq<char>)) -> Option<(Seq<char>, bool)> {
    let p = feature_prefix();
    if p.len() <= var.0.len() && var.0.take(p.len() as int) == p && parse_bool_spec(var.1) is Some {
        Some((lower_of(var.0.skip(p.len() as int)), parse_bool_spec(var.1)->0))
    } else {
        None
    }
}

/// The flags `m` after the feature variables of `env`, in order.
pub open spec fn env_features(m: Map<Seq<char>, bool>, env: Seq<(Seq<char>, Seq<char>)>) -> Map<
    Seq<char>,
    bool,
>
    decreases env.len(),
{
    if env.len() == 0 {
        m
    } else {
        let prev = env_features(m, env.drop_last());
        match feature_of(env.last()) {
            Some((name, value)) => prev.insert(name, value),
            None => prev,
        }
    }
}

/// The message for the first integer variable, in the order the fields are
/// read, whose value is not a number.
pub open spec fn env_error(env: Seq<(Seq<char>, Seq<char>)>) -> Option<Seq<char>> {
    if bad_port(lookup(env, "APP_SERVER_PORT"@)) {
        Some("Invalid APP_SERVER_PORT"@)
    } else if bad_count(lookup(env, "APP_SERVER_WORKERS"@)) {
        Some("Invalid APP_SERVER_WORKERS"@)
    } else if bad_port(lookup(env, "APP_DATABASE_PORT"@)) {
        Some("Invalid APP_DATABASE_PORT"@)
    } else if bad_count(lookup(env, "APP_DATABASE_MAX_CONNECTIONS"@)) {
        Some("Invalid APP_DATABASE_MAX_CONNECTIONS"@)
    } else {
        None
    }
}

/// `c` with every field whose variable is set taken from that variable.
pub open spec fn apply_env_spec(c: ConfigView, env: Seq<(Seq<char>, Seq<char>)>) -> ConfigView {
    ConfigView {
        server: ServerView {
            host: text_or(lookup(env, "APP_SERVER_HOST"@), c.server.host),
            port: port_or(lookup(env, "APP_SERVER_PORT"@), c.server.port),
            workers: count_or(lookup(env, "APP_SERVER_WORKERS"@), c.server.workers),
        },
        database: DatabaseView {
            host: text_or(lookup(env, "APP_DATABASE_HOST"@), c.database.host),
            port: port_or(lookup(env, "APP_DATABASE_PORT"@), c.database.port),
            username: text_or(lookup(env, "APP_DATABASE_USERNAME"@), c.database.username),
            password: text_or(lookup(env, "APP_DATABASE_PASSWORD"@), c.database.password),
            database: text_or(lookup(env, "APP_DATABASE_DATABASE"@), c.database.database),
            max_connections: count_or(
                lookup(env, "APP_DATABASE_MAX_CONNECTIONS"@),
                c.database.max_connections,
            ),
        },
        logging: LoggingView {
            level: text_or(lookup(env, "APP_LOGGING_LEVEL"@), c.logging.level),
            file: opt_text_or(lookup(env, "APP_LOGGING_FILE"@), c.logging.file),
        },
        features: env_features(c.features, env),
    }
}

/// What applying the environment to `c` yields.
pub open spec fn env_outcome(c: ConfigView, env: Seq<(Seq<char>, Seq<char>)>) -> Result<
    ConfigView,
    ErrorView,
> {
    match env_error(env) {
        Some(m) => Err(ErrorView::ParseError(m)),
        None => Ok(apply_env_spec(c, env)),
    }
}

/// The value of variable `name` in the snapshot.
pub fn find_var<'a>(vars: &'a Vec<(String, String)>, name: &str) -> (r: Option<&'a String>)
    ensures
        match r {
            Some(v) => lookup(env_view(vars@), name@) == Some(v@),
            None => lookup(env_view(vars@), name@) is None,
        },
{
    let ghost env = env_view(vars@);
    let n = vars.len();
    let mut found: Option<&String> = None;
    let mut i: usize = 0;
    while i < n
        invariant
            n == vars@.len(),
            env == env_view(vars@),
            i <= n,
            match found {
                Some(v) => lookup(env.take(i as int), name@) == Some(v@),
                None => lookup(env.take(i as int), name@) is None,
            },
        decreases n - i,
    {
        assert(env.take(i + 1).drop_last() =~= env.take(i as int));
        assert(env.take(i + 1).last() == (vars@[i as int].0@, vars@[i as int].1@));
        if text_eq(vars[i].0.as_str(), name) {
            found = Some(&vars[i].1);
        }
        i = i + 1;
    }
    assert(env.take(n as int) =~= env);
    found
}

/// Sets the feature flags that the `APP_FEATURES_` variables of the snapshot
/// give; a value that is not a boolean is passed over.
pub fn apply_feature_vars(features: &mut FeatureMap, vars: &Vec<(String, String)>)
    ensures
        final(features)@ == env_features(old(features)@, env_view(vars@)),
{
    let ghost env = env_view(vars@);
    let ghost start = features@;
    let prefix = "APP_FEATURES_";
    let plen = prefix.unicode_len();
    let n = vars.len();
    let mut i: usize = 0;
    while i < n
        invariant
            n == vars@.len(),
            env == env_view(vars@),
            prefix@ == feature_prefix(),
            plen == prefix@.len(),
            i <= n,
            features@ == env_features(start, env.take(i as int)),
        decreases n - i,
    {
        assert(env.take(i + 1).drop_last() =~= env.take(i as int));
        assert(env.take(i + 1).last() == (vars@[i as int].0@, vars@[i as int].1@));
        let key = vars[i].0.as_str();
        if starts_with(key, prefix) {
            if let Some(value) = parse_bool(vars[i].1.as_str()) {
                let rest = key.substring_char(plen, key.unicode_len());
                assert(rest@ =~= key@.skip(plen as int));
                let name = lowercase(rest);
                features.insert(name, value);
            }
        }
        i = i + 1;
    }
    assert(env.take(n as int) =~= env);
}

/// The environment source: starts from `existing`, or from the defaults when
/// there is none, and applies the variables of the snapshot `vars`.
pub fn load_config_from_env(existing: Option<AppConfig>, vars: &Vec<(String, String)>) -> (r:
    Result<AppConfig, ConfigError>)
    ensures
        outcome(r) == env_outcome(
            match existing {
                Some(c) => c@,
                None => default_view(),
            },
            env_view(vars@),
        ),
{
    let mut config = match existing {
        Some(c) => c,
        None => create_default_config(),
    };
    if let Some(host) = find_var(vars, "APP_SERVER_HOST") {
        config.server.host = host.clone();
    }
    if let Some(text) = find_var(vars, "APP_SERVER_PORT") {
        match parse_u16(text.as_str()) {
            Some(port) => config.server.port = port,
            None => return Err(parse_error("Invalid APP_SERVER_PORT")),
        }
    }
    if let Some(text) = find_var(vars, "APP_SERVER_WORKERS") {
        match parse_u32(text.as_str()) {
            Some(n) => config.server.workers = Some(n),
            None => return Err(parse_error("Invalid APP_SERVER_WORKERS")),
        }
    }
    if let Some(host) = find_var(vars, "APP_DATABASE_HOST") {
        config.database.host = host.clone();
    }
    if let Some(text) = find_var(vars, "APP_DATABASE_PORT") {
        match parse_u16(text.as_str()) {
            Some(port) => config.database.port = port,
            None => return Err(parse_error("Invalid APP_DATABASE_PORT")),
        }
    }
    if let Some(username) = find_var(vars, "APP_DATABASE_USERNAME") {
        config.database.username = username.clone();
    }
    if let Some(password) = find_var(vars, "APP_DATABASE_PASSWORD") {
        config.database.password = password.clone();
    }
    if let Some(name) = find_var(vars, "APP_DATABASE_DATABASE") {
        config.database.database = name.clone();
    }
    if let Some(text) = find_var(vars, "APP_DATABASE_MAX_CONNECTIONS") {
        match parse_u32(text.as_str()) {
            Some(n) => config.database.max_connections = Some(n),
            None => return Err(parse_error("Invalid APP_DATABASE_MAX_CONNECTIONS")),
        }
    }
    if let Some(level) = find_var(vars, "APP_LOGGING_LEVEL") {
        config.logging.level = level.clone();
    }
    if let Some(file) = find_var(vars, "APP_LOGGING_FILE") {
        config.logging.file = Some(file.clone());
    }
    apply_feature_vars(&mut config.features, vars);
    Ok(config)
}

} // verus!
