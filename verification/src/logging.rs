//! How the application's logging is set up from its settings: the overall
//! level, the level of each named module, colors, and the log file.

use vstd::prelude::*;
use std::str::FromStr;

use crate::configuration::{ModuleLogLevel, OESAppSettings};

verus! {

/// A maximal log level, as a log filter names it.
#[derive(Clone, Copy, Debug, PartialEq, Eq, Structural)]
pub enum LogLevel {
    Off,
    Error,
    Warn,
    Info,
    Debug,
    Trace,
}

/// A character with ASCII letters in lowercase.
pub open spec fn ascii_lower(c: char) -> char {
    if 'A' <= c && c <= 'Z' {
        ((c as u32) + 32) as char
    } else {
        c
    }
}

/// Whether two strings are equal when ASCII letters are compared without
/// regard to case.
pub open spec fn eq_ignore_ascii_case(a: Seq<char>, b: Seq<char>) -> bool {
    a.len() == b.len() && forall|i: int| 0 <= i < a.len() ==> ascii_lower(a[i]) == ascii_lower(b[i])
}

/// The level a name stands for: one of `OFF`, `ERROR`, `WARN`, `INFO`,
/// `DEBUG` and `TRACE`, with ASCII letters in any case.
pub open spec fn level_named(s: Seq<char>) -> Option<LogLevel> {
    if eq_ignore_ascii_case("OFF"@, s) {
        Some(LogLevel::Off)
    } else if eq_ignore_ascii_case("ERROR"@, s) {
        Some(LogLevel::Error)
    } else if eq_ignore_ascii_case("WARN"@, s) {
        Some(LogLevel::Warn)
    } else if eq_ignore_ascii_case("INFO"@, s) {
        Some(LogLevel::Info)
    } else if eq_ignore_ascii_case("DEBUG"@, s) {
        Some(LogLevel::Debug)
    } else if eq_ignore_ascii_case("TRACE"@, s) {
        Some(LogLevel::Trace)
    } else {
        None
    }
}

/// Calls `log::LevelFilter::from_str`, which accepts the names `OFF`,
/// `ERROR`, `WARN`, `INFO`, `DEBUG` and `TRACE` compared without regard to
/// ASCII case (`eq_ignore_ascii_case`), and refuses anything else.
#[verifier::external_body]
fn parse_level_filter(s: &str) -> (r: Option<LogLevel>)
    ensures
        r == level_named(s@),
{
    match log::LevelFilter::from_str(s) {
        Ok(log::LevelFilter::Off) => Some(LogLevel::Off),
        Ok(log::LevelFilter::Error) => Some(LogLevel::Error),
        Ok(log::LevelFilter::Warn) => Some(LogLevel::Warn),
        Ok(log::LevelFilter::Info) => Some(LogLevel::Info),
        Ok(log::LevelFilter::Debug) => Some(LogLevel::Debug),
        Ok(log::LevelFilter::Trace) => Some(LogLevel::Trace),
        Err(_) => None,
    }
}

/// How logging is set up.
pub struct LogPlan {
    /// The level of every module without a level of its own.
    pub level: LogLevel,
    /// The levels of named modules, in the order of the settings.
    pub module_levels: Vec<(String, LogLevel)>,
    pub colored: bool,
    pub app_name: String,
    /// The file that log lines also go to, besides standard output.
    pub log_file: Option<String>,
}

/// The level a setting names, or `default` when it names none.
pub open spec fn level_or(s: Seq<char>, default: LogLevel) -> LogLevel {
    match level_named(s) {
        Some(l) => l,
        None => default,
    }
}

/// The module levels of the settings: each named level, or off when its
/// name is no level.
pub open spec fn module_levels_of(ms: Seq<ModuleLogLevel>) -> Seq<(Seq<char>, LogLevel)> {
    ms.map_values(|m: ModuleLogLevel| (m.module@, level_or(m.level@, LogLevel::Off)))
}

/// How logging is set up from the application's settings: the overall
/// level as named (errors only when it names none), the module levels as
/// named (off when one names none), colors only when set on.
pub fn log_plan(settings: &OESAppSettings) -> (r: LogPlan)
    ensures
        r.level == level_or(settings.log_level@, LogLevel::Error),
        r.module_levels@.map_values(|e: (String, LogLevel)| (e.0@, e.1)) == match settings.module_log_levels {
            Some(ms) => module_levels_of(ms@),
            None => Seq::empty(),
        },
        r.colored == (settings.colored == Some(true)),
        r.app_name@ == settings.app_name@,
        r.log_file == settings.log_file,
{
    let level = match parse_level_filter(settings.log_level.as_str()) {
        Some(l) => l,
        None => LogLevel::Error,
    };
    let mut module_levels: Vec<(String, LogLevel)> = Vec::new();
    match &settings.module_log_levels {
        Some(ms) => {
            let n = ms.len();
            let mut i: usize = 0;
            while i < n
                invariant
                    n == ms@.len(),
                    i <= n,
                    module_levels@.map_values(|e: (String, LogLevel)| (e.0@, e.1))
                        == module_levels_of(ms@.subrange(0, i as int)),
                decreases n - i,
            {
                let m = &ms[i];
                let l = match parse_level_filter(m.level.as_str()) {
                    Some(l) => l,
                    None => LogLevel::Off,
                };
                let ghost before = module_levels@;
                module_levels.push((m.module.clone(), l));
                proof {
                    assert(module_levels@.map_values(|e: (String, LogLevel)| (e.0@, e.1)) =~= before.map_values(
                        |e: (String, LogLevel)| (e.0@, e.1),
                    ).push((m.module@, l)));
                    assert(module_levels_of(ms@.subrange(0, i + 1)) =~= module_levels_of(
                        ms@.subrange(0, i as int),
                    ).push((m.module@, level_or(m.level@, LogLevel::Off))));
                }
                i = i + 1;
            }
            proof {
                assert(ms@.subrange(0, n as int) =~= ms@);
            }
        },
        None => {
            proof {
                assert(module_levels@.map_values(|e: (String, LogLevel)| (e.0@, e.1)) =~= Seq::<
                    (Seq<char>, LogLevel),
                >::empty());
            }
        },
    }
    LogPlan {
        level,
        module_levels,
        colored: settings.colored(),
        app_name: settings.app_name.clone(),
        log_file: match &settings.log_file {
            Some(f) => Some(f.clone()),
            None => None,
        },
    }
}

} // verus!
