//! Properties of the loader as a whole, proved over the views.

use vstd::prelude::*;

use crate::args::{args_outcome, ArgsView};
use crate::config::{bad_count, bad_port, default_view, ConfigView, ErrorView};
use crate::env::{env_features, env_outcome, feature_of, lookup};
use crate::merge::merge_spec;
use crate::pipeline::{file_layer, load_spec};
use crate::text::{parse_u16_spec, parse_unsigned_spec};
use crate::validate::{known_level, validation_failure};

verus! {

/// The first value present among three sources, else the fallback.
pub open spec fn first_of<T>(top: Option<T>, mid: Option<T>, low: Option<T>, fallback: T) -> T {
    match top {
        Some(v) => v,
        None => match mid {
            Some(v) => v,
            None => match low {
                Some(v) => v,
                None => fallback,
            },
        },
    }
}

/// A field of the file's configuration, if a file was read.
pub open spec fn from_file<T>(file: Option<ConfigView>, field: spec_fn(ConfigView) -> T) -> Option<T> {
    match file {
        Some(f) => Some(field(f)),
        None => None,
    }
}

/// An optional field of the file's configuration, if a file was read and
/// sets it.
pub open spec fn from_file_opt<T>(file: Option<ConfigView>, field: spec_fn(ConfigView) -> Option<T>) -> Option<T> {
    match file {
        Some(f) => field(f),
        None => None,
    }
}

/// A port given as text, read.
pub open spec fn port_given(v: Option<Seq<char>>) -> Option<u16> {
    match v {
        Some(s) => parse_u16_spec(s),
        None => None,
    }
}

/// A count given as text, read.
pub open spec fn count_given(v: Option<Seq<char>>) -> Option<u32> {
    match v {
        Some(s) => parse_unsigned_spec(s, u32::MAX),
        None => None,
    }
}

/// The defaults keep every rule of the validator.
pub proof fn lemma_defaults_valid()
    ensures
        validation_failure(default_view()) is None,
{
    reveal_strlit("127.0.0.1");
    reveal_strlit("localhost");
    reveal_strlit("postgres");
    reveal_strlit("myapp");
    assert(known_level("info"@));
}

/// Precedence: in a successful load, each field holds the value of the
/// highest source that gives it (command line, then environment, then file,
/// then defaults); a source that is silent on a field leaves the lower
/// sources' value in place. Feature flags come from the environment's
/// variables over the file's flags over the defaults.
pub proof fn lemma_precedence(
    file: Option<ConfigView>,
    env: Seq<(Seq<char>, Seq<char>)>,
    args: ArgsView,
    c: ConfigView,
)
    requires
        load_spec(file, env, args) == Ok::<ConfigView, ErrorView>(c),
    ensures
        c.server.host == first_of(
            args.server_host,
            lookup(env, "APP_SERVER_HOST"@),
            from_file(file, |f: ConfigView| f.server.host),
            default_view().server.host,
        ),
        c.server.port == first_of(
            port_given(args.server_port),
            port_given(lookup(env, "APP_SERVER_PORT"@)),
            from_file(file, |f: ConfigView| f.server.port),
            default_view().server.port,
        ),
        c.server.workers == Some(
            first_of(
                count_given(args.server_workers),
                count_given(lookup(env, "APP_SERVER_WORKERS"@)),
                from_file_opt(file, |f: ConfigView| f.server.workers),
                4u32,
            ),
        ),
        c.database.host == first_of(
            args.database_host,
            lookup(env, "APP_DATABASE_HOST"@),
            from_file(file, |f: ConfigView| f.database.host),
            default_view().database.host,
        ),
        c.database.port == first_of(
            port_given(args.database_port),
            port_given(lookup(env, "APP_DATABASE_PORT"@)),
            from_file(file, |f: ConfigView| f.database.port),
            default_view().database.port,
        ),
        c.database.username == first_of(
            args.database_username,
            lookup(env, "APP_DATABASE_USERNAME"@),
            from_file(file, |f: ConfigView| f.database.username),
            default_view().database.username,
        ),
        c.database.password == first_of(
            args.database_password,
            lookup(env, "APP_DATABASE_PASSWORD"@),
            from_file(file, |f: ConfigView| f.database.password),
            default_view().database.password,
        ),
        c.database.database == first_of(
            args.database_name,
            lookup(env, "APP_DATABASE_DATABASE"@),
            from_file(file, |f: ConfigView| f.database.database),
            default_view().database.database,
        ),
        c.database.max_connections == Some(
            first_of(
                count_given(args.database_max_connections),
                count_given(lookup(env, "APP_DATABASE_MAX_CONNECTIONS"@)),
                from_file_opt(file, |f: ConfigView| f.database.max_connections),
                10u32,
            ),
        ),
        c.logging.level == first_of(
            args.logging_level,
            lookup(env, "APP_LOGGING_LEVEL"@),
            from_file(file, |f: ConfigView| f.logging.level),
            default_view().logging.level,
        ),
        c.logging.file == Some(
            first_of(
                args.logging_file,
                lookup(env, "APP_LOGGING_FILE"@),
                from_file_opt(file, |f: ConfigView| f.logging.file),
                "app.log"@,
            ),
        ),
        c.features == env_features(
            match file {
                Some(f) => default_view().features.union_prefer_right(f.features),
                None => default_view().features,
            },
            env,
        ),
{
}

/// A feature flag that no variable of the environment names keeps the value
/// it had before the environment was applied, or stays absent.
pub proof fn lemma_env_features_untouched(
    m: Map<Seq<char>, bool>,
    env: Seq<(Seq<char>, Seq<char>)>,
    k: Seq<char>,
)
    requires
        forall|i: int| 0 <= i < env.len() ==> !(#[trigger] feature_of(env[i]) matches Some(
            (name, _),
        ) && name == k),
    ensures
        env_features(m, env).contains_key(k) == m.contains_key(k),
        m.contains_key(k) ==> env_features(m, env)[k] == m[k],
    decreases env.len(),
{
    if env.len() > 0 {
        let prev = env.drop_last();
        assert forall|i: int| 0 <= i < prev.len() implies !(#[trigger] feature_of(prev[i]) matches Some(
            (name, _),
        ) && name == k) by {
            assert(prev[i] == env[i]);
        }
        lemma_env_features_untouched(m, prev, k);
        assert(env.last() == env[env.len() - 1]);
    }
}

/// Merging feature flags is a union in which the overriding side wins: a
/// flag of the override keeps its value, and a flag only the base has
/// survives with its value.
pub proof fn lemma_merge_features(b: ConfigView, o: ConfigView, k: Seq<char>)
    ensures
        merge_spec(b, o).features.contains_key(k) <==> (o.features.contains_key(k)
            || b.features.contains_key(k)),
        o.features.contains_key(k) ==> merge_spec(b, o).features[k] == o.features[k],
        !o.features.contains_key(k) && b.features.contains_key(k) ==> merge_spec(b, o).features[k]
            == b.features[k],
{
}

/// An integer variable of the environment whose value is not a number makes
/// the environment source fail with a parse error; when it is the only such
/// variable, the message names it.
pub proof fn lemma_env_integer_rejected(c: ConfigView, env: Seq<(Seq<char>, Seq<char>)>)
    ensures
        (bad_port(lookup(env, "APP_SERVER_PORT"@)) || bad_count(lookup(env, "APP_SERVER_WORKERS"@))
            || bad_port(lookup(env, "APP_DATABASE_PORT"@)) || bad_count(
            lookup(env, "APP_DATABASE_MAX_CONNECTIONS"@),
        )) ==> env_outcome(c, env) matches Err(ErrorView::ParseError(_)),
        bad_port(lookup(env, "APP_SERVER_PORT"@)) ==> env_outcome(c, env) == Err::<
            ConfigView,
            ErrorView,
        >(ErrorView::ParseError("Invalid APP_SERVER_PORT"@)),
        bad_count(lookup(env, "APP_SERVER_WORKERS"@)) && !bad_port(lookup(env, "APP_SERVER_PORT"@))
            ==> env_outcome(c, env) == Err::<ConfigView, ErrorView>(
            ErrorView::ParseError("Invalid APP_SERVER_WORKERS"@),
        ),
        bad_port(lookup(env, "APP_DATABASE_PORT"@)) && !bad_port(lookup(env, "APP_SERVER_PORT"@))
            && !bad_count(lookup(env, "APP_SERVER_WORKERS"@)) ==> env_outcome(c, env) == Err::<
            ConfigView,
            ErrorView,
        >(ErrorView::ParseError("Invalid APP_DATABASE_PORT"@)),
        bad_count(lookup(env, "APP_DATABASE_MAX_CONNECTIONS"@)) && !bad_port(
            lookup(env, "APP_SERVER_PORT"@),
        ) && !bad_count(lookup(env, "APP_SERVER_WORKERS"@)) && !bad_port(
            lookup(env, "APP_DATABASE_PORT"@),
        ) ==> env_outcome(c, env) == Err::<ConfigView, ErrorView>(
            ErrorView::ParseError("Invalid APP_DATABASE_MAX_CONNECTIONS"@),
        ),
{
}

/// An integer flag whose text is not a number makes the command-line source
/// fail with a parse error; when it is the only such flag, the message names
/// its field.
pub proof fn lemma_args_integer_rejected(c: ConfigView, a: ArgsView)
    ensures
        (bad_port(a.server_port) || bad_count(a.server_workers) || bad_port(a.database_port)
            || bad_count(a.database_max_connections)) ==> args_outcome(c, a) matches Err(
            ErrorView::ParseError(_),
        ),
        bad_port(a.server_port) ==> args_outcome(c, a) == Err::<ConfigView, ErrorView>(
            ErrorView::ParseError("Invalid server port"@),
        ),
        bad_count(a.server_workers) && !bad_port(a.server_port) ==> args_outcome(c, a) == Err::<
            ConfigView,
            ErrorView,
        >(ErrorView::ParseError("Invalid server workers"@)),
        bad_port(a.database_port) && !bad_port(a.server_port) && !bad_count(a.server_workers)
            ==> args_outcome(c, a) == Err::<ConfigView, ErrorView>(
            ErrorView::ParseError("Invalid database port"@),
        ),
        bad_count(a.database_max_connections) && !bad_port(a.server_port) && !bad_count(
            a.server_workers,
        ) && !bad_port(a.database_port) ==> args_outcome(c, a) == Err::<ConfigView, ErrorView>(
            ErrorView::ParseError("Invalid max connections"@),
        ),
{
}

/// The validator refuses an empty host, a zero port, zero workers, zero
/// connections, an empty username or database name, and an unknown level.
pub proof fn lemma_validator_rejects(c: ConfigView)
    ensures
        c.server.host.len() == 0 ==> validation_failure(c) is Some,
        c.server.port == 0 ==> validation_failure(c) is Some,
        c.server.workers == Some(0u32) ==> validation_failure(c) is Some,
        c.database.host.len() == 0 ==> validation_failure(c) is Some,
        c.database.port == 0 ==> validation_failure(c) is Some,
        c.database.username.len() == 0 ==> validation_failure(c) is Some,
        c.database.database.len() == 0 ==> validation_failure(c) is Some,
        c.database.max_connections == Some(0u32) ==> validation_failure(c) is Some,
        !known_level(c.logging.level) ==> validation_failure(c) is Some,
        validation_failure(c) is None <==> (c.server.host.len() > 0 && c.server.port != 0
            && c.server.workers != Some(0u32) && c.database.host.len() > 0 && c.database.port != 0
            && c.database.username.len() > 0 && c.database.database.len() > 0
            && c.database.max_connections != Some(0u32) && known_level(c.logging.level)),
{
}

} // verus!
