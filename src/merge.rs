//! Combining two configurations, the second winning where it speaks.

use vstd::prelude::*;

use crate::config::{
    AppConfig, ConfigView, DatabaseConfig, DatabaseView, LoggingConfig, LoggingView, ServerConfig,
    ServerView,
};
use crate::features::{pairs_map, FeatureMap};

verus! {

/// `o` if it is present, else `b`.
pub open spec fn present_or<T>(o: Option<T>, b: Option<T>) -> Option<T> {
    if o is Some {
        o
    } else {
        b
    }
}

/// The merge of `b` with `o`: every required field from `o`; each optional
/// field from `o` where `o` has it, else from `b`; the feature flags of both,
/// `o` winning on a shared name.
pub open spec fn merge_spec(b: ConfigView, o: ConfigView) -> ConfigView {
    ConfigView {
        server: ServerView {
            host: o.server.host,
            port: o.server.port,
            workers: present_or(o.server.workers, b.server.workers),
        },
        database: DatabaseView {
            host: o.database.host,
            port: o.database.port,
            username: o.database.username,
            password: o.database.password,
            database: o.database.database,
            max_connections: present_or(o.database.max_connections, b.database.max_connections),
        },
        logging: LoggingView {
            level: o.logging.level,
            file: present_or(o.logging.file, b.logging.file),
        },
        features: b.features.union_prefer_right(o.features),
    }
}

fn present_or_exec<T>(o: Option<T>, b: Option<T>) -> (r: Option<T>)
    ensures
        r == present_or(o, b),
{
    match o {
        Some(v) => Some(v),
        None => b,
    }
}

/// Merges `overrides` into `base`.
pub fn merge_configs(base: AppConfig, overrides: AppConfig) -> (r: AppConfig)
    ensures
        r@ == merge_spec(base@, overrides@),
{
    let AppConfig { server: bs, database: bd, logging: bl, features: base_features } = base;
    let AppConfig { server: os, database: od, logging: ol, features: over_features } = overrides;
    let mut features: FeatureMap = base_features;
    let pairs = over_features.entries();
    let n = pairs.len();
    let mut i: usize = 0;
    while i < n
        invariant
            n == pairs@.len(),
            pairs_map(pairs@) == over_features@,
            i <= n,
            features@ == base_features@.union_prefer_right(pairs_map(pairs@.take(i as int))),
        decreases n - i,
    {
        assert(pairs@.take(i + 1).drop_last() =~= pairs@.take(i as int));
        features.insert(pairs[i].0.clone(), pairs[i].1);
        assert(features@ =~= base_features@.union_prefer_right(pairs_map(pairs@.take(i + 1))));
        i = i + 1;
    }
    assert(pairs@.take(n as int) =~= pairs@);
    AppConfig {
        server: ServerConfig {
            host: os.host,
            port: os.port,
            workers: present_or_exec(os.workers, bs.workers),
        },
        database: DatabaseConfig {
            host: od.host,
            port: od.port,
            username: od.username,
            password: od.password,
            database: od.database,
            max_connections: present_or_exec(od.max_connections, bd.max_connections),
        },
        logging: LoggingConfig { level: ol.level, file: present_or_exec(ol.file, bl.file) },
        features,
    }
}

} // verus!
