//! The human-readable form of a configuration, with the password masked.

use vstd::prelude::*;

use crate::config::{
    AppConfig, ConfigView, DatabaseConfig, DatabaseView, LoggingConfig, LoggingView, ServerConfig,
    ServerView,
};

verus! {

/// The character of a decimal digit.
pub open spec fn digit_char(d: nat) -> char {
    seq!['0', '1', '2', '3', '4', '5', '6', '7', '8', '9'][d as int]
}

/// The decimal digits of `n`, most significant first, without leading zeros.
pub open spec fn decimal_text(n: nat) -> Seq<char>
    decreases n,
{
    if n < 10 {
        seq![digit_char(n)]
    } else {
        decimal_text(n / 10) + seq![digit_char(n % 10)]
    }
}

/// How an absent optional value is shown.
pub open spec fn unset_text() -> Seq<char> {
    "(unset)"@
}

/// An optional count as shown.
pub open spec fn count_text(v: Option<u32>) -> Seq<char> {
    match v {
        Some(n) => decimal_text(n as nat),
        None => unset_text(),
    }
}

/// A password as shown: never its characters.
pub open spec fn masked_text(password: Seq<char>) -> Seq<char> {
    if password.len() == 0 {
        "(empty)"@
    } else {
        "********"@
    }
}

/// A boolean as shown.
pub open spec fn bool_text(b: bool) -> Seq<char> {
    if b {
        "true"@
    } else {
        "false"@
    }
}

/// One `key = value` line of a section.
pub open spec fn line(key: Seq<char>, value: Seq<char>) -> Seq<char> {
    "  "@ + key + " = "@ + value + "\n"@
}

/// The `server` section as shown.
pub open spec fn server_text(s: ServerView) -> Seq<char> {
    "[server]\n"@ + line("host"@, s.host) + line("port"@, decimal_text(s.port as nat)) + line(
        "workers"@,
        count_text(s.workers),
    )
}

/// The `database` section as shown.
pub open spec fn database_text(d: DatabaseView) -> Seq<char> {
    "[database]\n"@ + line("host"@, d.host) + line("port"@, decimal_text(d.port as nat)) + line(
        "username"@,
        d.username,
    ) + line("password"@, masked_text(d.password)) + line("database"@, d.database) + line(
        "max_connections"@,
        count_text(d.max_connections),
    )
}

/// The `logging` section as shown.
pub open spec fn logging_text(l: LoggingView) -> Seq<char> {
    "[logging]\n"@ + line("level"@, l.level) + line(
        "file"@,
        match l.file {
            Some(f) => f,
            None => unset_text(),
        },
    )
}

/// The feature lines for the given flags, in their order.
pub open spec fn flags_text(flags: Seq<(String, bool)>) -> Seq<char>
    decreases flags.len(),
{
    if flags.len() == 0 {
        Seq::empty()
    } else {
        flags_text(flags.drop_last()) + line(flags.last().0@, bool_text(flags.last().1))
    }
}

/// The whole configuration as shown, its flags in the order given.
pub open spec fn config_text(c: ConfigView, flags: Seq<(String, bool)>) -> Seq<char> {
    server_text(c.server) + database_text(c.database) + logging_text(c.logging) + "[features]\n"@
        + flags_text(flags)
}

fn digit_str(d: u32) -> (r: &'static str)
    requires
        d < 10,
    ensures
        r@ == seq![digit_char(d as nat)],
{
    proof {
        reveal_strlit("0");
        reveal_strlit("1");
        reveal_strlit("2");
        reveal_strlit("3");
        reveal_strlit("4");
        reveal_strlit("5");
        reveal_strlit("6");
        reveal_strlit("7");
        reveal_strlit("8");
        reveal_strlit("9");
    }
    let r = if d == 0 {
        "0"
    } else if d == 1 {
        "1"
    } else if d == 2 {
        "2"
    } else if d == 3 {
        "3"
    } else if d == 4 {
        "4"
    } else if d == 5 {
        "5"
    } else if d == 6 {
        "6"
    } else if d == 7 {
        "7"
    } else if d == 8 {
        "8"
    } else {
        "9"
    };
    assert(r@ =~= seq![digit_char(d as nat)]);
    r
}

/// Appends the decimal digits of `n`.
fn append_decimal(out: &mut String, n: u32)
    ensures
        final(out)@ == old(out)@ + decimal_text(n as nat),
    decreases n,
{
    if n >= 10 {
        append_decimal(out, n / 10);
    }
    out.append(digit_str(n % 10));
    assert(final(out)@ =~= old(out)@ + decimal_text(n as nat));
}

/// Appends `  key = value` and a line break.
fn append_line(out: &mut String, key: &str, value: &str)
    ensures
        final(out)@ == old(out)@ + line(key@, value@),
{
    out.append("  ");
    out.append(key);
    out.append(" = ");
    out.append(value);
    out.append("\n");
    assert(final(out)@ =~= old(out)@ + line(key@, value@));
}

/// Appends `  key = n` and a line break.
fn append_number_line(out: &mut String, key: &str, n: u32)
    ensures
        final(out)@ == old(out)@ + line(key@, decimal_text(n as nat)),
{
    out.append("  ");
    out.append(key);
    out.append(" = ");
    append_decimal(out, n);
    out.append("\n");
    assert(final(out)@ =~= old(out)@ + line(key@, decimal_text(n as nat)));
}

/// Appends the line of an optional count.
fn append_count_line(out: &mut String, key: &str, v: Option<u32>)
    ensures
        final(out)@ == old(out)@ + line(key@, count_text(v)),
{
    match v {
        Some(n) => append_number_line(out, key, n),
        None => append_line(out, key, "(unset)"),
    }
}

fn append_server(out: &mut String, s: &ServerConfig)
    ensures
        final(out)@ == old(out)@ + server_text(s@),
{
    out.append("[server]\n");
    append_line(out, "host", s.host.as_str());
    append_number_line(out, "port", s.port as u32);
    append_count_line(out, "workers", s.workers);
    assert(final(out)@ =~= old(out)@ + server_text(s@));
}

fn append_database(out: &mut String, d: &DatabaseConfig)
    ensures
        final(out)@ == old(out)@ + database_text(d@),
{
    out.append("[database]\n");
    append_line(out, "host", d.host.as_str());
    append_number_line(out, "port", d.port as u32);
    append_line(out, "username", d.username.as_str());
    if d.password.as_str().is_empty() {
        append_line(out, "password", "(empty)");
    } else {
        append_line(out, "password", "********");
    }
    append_line(out, "database", d.database.as_str());
    append_count_line(out, "max_connections", d.max_connections);
    assert(final(out)@ =~= old(out)@ + database_text(d@));
}

fn append_logging(out: &mut String, l: &LoggingConfig)
    ensures
        final(out)@ == old(out)@ + logging_text(l@),
{
    out.append("[logging]\n");
    append_line(out, "level", l.level.as_str());
    match &l.file {
        Some(f) => append_line(out, "file", f.as_str()),
        None => append_line(out, "file", "(unset)"),
    }
    assert(final(out)@ =~= old(out)@ + logging_text(l@));
}

fn append_flags(out: &mut String, flags: &Vec<(String, bool)>)
    ensures
        final(out)@ == old(out)@ + flags_text(flags@),
{
    let ghost start = out@;
    let n = flags.len();
    let mut i: usize = 0;
    while i < n
        invariant
            n == flags@.len(),
            i <= n,
            out@ == start + flags_text(flags@.take(i as int)),
        decreases n - i,
    {
        assert(flags@.take(i + 1).drop_last() =~= flags@.take(i as int));
        let value = if flags[i].1 {
            "true"
        } else {
            "false"
        };
        append_line(out, flags[i].0.as_str(), value);
        assert(out@ =~= start + flags_text(flags@.take(i + 1)));
        i = i + 1;
    }
    assert(flags@.take(n as int) =~= flags@);
}

/// Writes the configuration into `out`: a `[section]` header and a
/// `key = value` line per field, the password masked, absent optional values
/// shown as `(unset)`, and the feature flags last.
pub fn print_config(config: &AppConfig, out: &mut String)
    ensures
        final(out)@ == old(out)@ + config_text(config@, config.features.pairs()),
{
    append_server(out, &config.server);
    append_database(out, &config.database);
    append_logging(out, &config.logging);
    out.append("[features]\n");
    append_flags(out, config.features.entries());
    assert(final(out)@ =~= old(out)@ + config_text(config@, config.features.pairs()));
}

} // verus!
