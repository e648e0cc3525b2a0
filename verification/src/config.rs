use vstd::prelude::*;

use crate::constants::DEBOUNCE_MS;
use crate::text::owned;

verus! {

/// Settings read from `config.toml`; a missing field takes its default.
#[derive(Debug, Clone)]
pub struct BreezeConfig {
    pub enabled: bool,
    pub debounce_ms: u64,
    pub log_level: String,
    pub log_max_files: usize,
}

impl Default for BreezeConfig {
    /// Enabled, a 2000 ms debounce, level `info`, seven log files.
    fn default() -> (r: Self)
        ensures
            r.enabled,
            r.debounce_ms == DEBOUNCE_MS,
            r.log_level@ == "info"@,
            r.log_max_files == 7,
    {
        BreezeConfig {
            enabled: true,
            debounce_ms: DEBOUNCE_MS,
            log_level: owned("info"),
            log_max_files: 7,
        }
    }
}

/// Whether the helper confirms dialogs at all: `enabled = false` turns it off.
pub fn auto_confirm_enabled(config: &BreezeConfig) -> (r: bool)
    ensures
        r == config.enabled,
{
    config.enabled
}

/// The verbosity levels of the log.
#[derive(Debug, Clone, Copy, PartialEq, Eq, Structural)]
pub enum LogLevel {
    Error,
    Warn,
    Info,
    Debug,
    Trace,
}

/// The ASCII lower-case form of a character; other characters are kept.
pub open spec fn ascii_lower(c: char) -> char {
    if 'A' <= c && c <= 'Z' {
        ((c as int) + 32) as char
    } else {
        c
    }
}

/// Equality up to ASCII case.
pub open spec fn eq_ignore_ascii_case(a: Seq<char>, b: Seq<char>) -> bool {
    &&& a.len() == b.len()
    &&& forall|i: int| 0 <= i < a.len() ==> ascii_lower(#[trigger] a[i]) == ascii_lower(b[i])
}

/// Whether every character is an ASCII decimal digit.
pub open spec fn all_digits(s: Seq<char>) -> bool {
    forall|i: int| 0 <= i < s.len() ==> '0' <= #[trigger] s[i] && s[i] <= '9'
}

/// The number that a string of decimal digits denotes.
pub open spec fn digits_value(s: Seq<char>) -> nat
    decreases s.len(),
{
    if s.len() == 0 {
        0
    } else {
        digits_value(s.drop_last()) * 10 + ((s.last() as int) - ('0' as int)) as nat
    }
}

/// The number that `s` denotes as `usize::from_str` reads it: an optional `+`,
/// then at least one decimal digit. `None` when `s` has another form.
pub open spec fn decimal_value(s: Seq<char>) -> Option<nat> {
    let d = if s.len() > 0 && s[0] == '+' { s.drop_first() } else { s };
    if d.len() > 0 && all_digits(d) {
        Some(digits_value(d))
    } else {
        None
    }
}

/// The level that `tracing::Level::from_str` reads from `s`: a number 1 to 5
/// (error to trace), else one of the five names in any ASCII case.
pub open spec fn level_from_str_spec(s: Seq<char>) -> Option<LogLevel> {
    let n = decimal_value(s);
    if n == Some(1nat) {
        Some(LogLevel::Error)
    } else if n == Some(2nat) {
        Some(LogLevel::Warn)
    } else if n == Some(3nat) {
        Some(LogLevel::Info)
    } else if n == Some(4nat) {
        Some(LogLevel::Debug)
    } else if n == Some(5nat) {
        Some(LogLevel::Trace)
    } else if eq_ignore_ascii_case(s, "error"@) {
        Some(LogLevel::Error)
    } else if eq_ignore_ascii_case(s, "warn"@) {
        Some(LogLevel::Warn)
    } else if eq_ignore_ascii_case(s, "info"@) {
        Some(LogLevel::Info)
    } else if eq_ignore_ascii_case(s, "debug"@) {
        Some(LogLevel::Debug)
    } else if eq_ignore_ascii_case(s, "trace"@) {
        Some(LogLevel::Trace)
    } else {
        None
    }
}

/// Calls `tracing::Level::from_str` (through `str::parse`). Its source reads an
/// optional `+` and decimal digits as a number 1 to 5, and otherwise compares the
/// text with `error`, `warn`, `info`, `debug` and `trace` ignoring ASCII case;
/// the contract claims that it returns the level that `level_from_str_spec` gives.
#[verifier::external_body]
fn parse_tracing_level(s: &str) -> (r: Option<LogLevel>)
    ensures
        r == level_from_str_spec(s@),
{
    match s.parse::<tracing::Level>() {
        Ok(tracing::Level::ERROR) => Some(LogLevel::Error),
        Ok(tracing::Level::WARN) => Some(LogLevel::Warn),
        Ok(tracing::Level::INFO) => Some(LogLevel::Info),
        Ok(tracing::Level::DEBUG) => Some(LogLevel::Debug),
        // the one level left is TRACE
        Ok(_) => Some(LogLevel::Trace),
        Err(_) => None,
    }
}

/// The level that the log is written at: the configured level, or `info` when
/// the configured text names no level.
pub open spec fn log_level_spec(log_level: Seq<char>) -> LogLevel {
    match level_from_str_spec(log_level) {
        Some(l) => l,
        None => LogLevel::Info,
    }
}

/// The level that the log is written at for this configuration.
pub fn log_level_of(config: &BreezeConfig) -> (r: LogLevel)
    ensures
        r == log_level_spec(config.log_level@),
{
    match parse_tracing_level(config.log_level.as_str()) {
        Some(l) => l,
        None => LogLevel::Info,
    }
}

/// The configured level is used whenever the text names one, and `info` only
/// when it names none.
pub proof fn lemma_configured_level_used(s: Seq<char>)
    ensures
        level_from_str_spec(s) matches Some(l) ==> log_level_spec(s) == l,
        level_from_str_spec(s) is None ==> log_level_spec(s) == LogLevel::Info,
{
}

proof fn lemma_name_is_not_a_number(s: Seq<char>, name: Seq<char>)
    requires
        eq_ignore_ascii_case(s, name),
        name.len() > 0,
        'a' <= name[0] <= 'z',
    ensures
        decimal_value(s) is None,
{
    assert(ascii_lower(s[0]) == ascii_lower(name[0]));
    assert(ascii_lower(name[0]) == name[0]);
    assert(s[0] != '+');
    assert(!('0' <= s[0] && s[0] <= '9'));
    assert(!all_digits(s));
}

/// A level named in any ASCII case is the level the log is written at:
/// `debug`, `DEBUG` or `Debug` give debug, and so on for the five names.
pub proof fn lemma_level_names(s: Seq<char>)
    ensures
        eq_ignore_ascii_case(s, "error"@) ==> log_level_spec(s) == LogLevel::Error,
        eq_ignore_ascii_case(s, "warn"@) ==> log_level_spec(s) == LogLevel::Warn,
        eq_ignore_ascii_case(s, "info"@) ==> log_level_spec(s) == LogLevel::Info,
        eq_ignore_ascii_case(s, "debug"@) ==> log_level_spec(s) == LogLevel::Debug,
        eq_ignore_ascii_case(s, "trace"@) ==> log_level_spec(s) == LogLevel::Trace,
{
    reveal_strlit("error");
    reveal_strlit("warn");
    reveal_strlit("info");
    reveal_strlit("debug");
    reveal_strlit("trace");
    if eq_ignore_ascii_case(s, "error"@) {
        lemma_name_is_not_a_number(s, "error"@);
    }
    if eq_ignore_ascii_case(s, "warn"@) {
        lemma_name_is_not_a_number(s, "warn"@);
        assert(!eq_ignore_ascii_case(s, "error"@));
    }
    if eq_ignore_ascii_case(s, "info"@) {
        lemma_name_is_not_a_number(s, "info"@);
        assert(!eq_ignore_ascii_case(s, "error"@));
        assert(!eq_ignore_ascii_case(s, "warn"@));
    }
    if eq_ignore_ascii_case(s, "debug"@) {
        lemma_name_is_not_a_number(s, "debug"@);
        assert(ascii_lower(s[0]) == 'd');
        assert(!eq_ignore_ascii_case(s, "error"@)) by {
            assert(ascii_lower("error"@[0]) == 'e');
        }
        assert(!eq_ignore_ascii_case(s, "warn"@));
        assert(!eq_ignore_ascii_case(s, "info"@));
    }
    if eq_ignore_ascii_case(s, "trace"@) {
        lemma_name_is_not_a_number(s, "trace"@);
        assert(ascii_lower(s[0]) == 't');
        assert(!eq_ignore_ascii_case(s, "error"@)) by {
            assert(ascii_lower("error"@[0]) == 'e');
        }
        assert(!eq_ignore_ascii_case(s, "warn"@));
        assert(!eq_ignore_ascii_case(s, "info"@));
        assert(!eq_ignore_ascii_case(s, "debug"@)) by {
            assert(ascii_lower("debug"@[0]) == 'd');
        }
    }
}

/// A number from 1 to 5 (optionally after `+`) names the levels from error to trace.
pub proof fn lemma_level_numbers(s: Seq<char>)
    ensures
        decimal_value(s) == Some(1nat) ==> log_level_spec(s) == LogLevel::Error,
        decimal_value(s) == Some(2nat) ==> log_level_spec(s) == LogLevel::Warn,
        decimal_value(s) == Some(3nat) ==> log_level_spec(s) == LogLevel::Info,
        decimal_value(s) == Some(4nat) ==> log_level_spec(s) == LogLevel::Debug,
        decimal_value(s) == Some(5nat) ==> log_level_spec(s) == LogLevel::Trace,
{
}

} // verus!
