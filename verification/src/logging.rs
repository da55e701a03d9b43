//! Log settings: the verbosity level and the output format, and their names
//! as they appear on the command line, in the environment and in filters.
use vstd::prelude::*;

use crate::text::str_eq;

verus! {

/// How much is logged.
#[derive(Clone, Copy, Debug, PartialEq, Eq, Structural)]
pub enum LogLevel {
    Trace,
    Debug,
    Info,
    Warn,
    Error,
}

/// The name of a level.
pub open spec fn level_name(l: LogLevel) -> Seq<char> {
    match l {
        LogLevel::Trace => seq!['t', 'r', 'a', 'c', 'e'],
        LogLevel::Debug => seq!['d', 'e', 'b', 'u', 'g'],
        LogLevel::Info => seq!['i', 'n', 'f', 'o'],
        LogLevel::Warn => seq!['w', 'a', 'r', 'n'],
        LogLevel::Error => seq!['e', 'r', 'r', 'o', 'r'],
    }
}

/// The level a name stands for, if any.
pub open spec fn level_named(s: Seq<char>) -> Option<LogLevel> {
    if s == level_name(LogLevel::Trace) {
        Some(LogLevel::Trace)
    } else if s == level_name(LogLevel::Debug) {
        Some(LogLevel::Debug)
    } else if s == level_name(LogLevel::Info) {
        Some(LogLevel::Info)
    } else if s == level_name(LogLevel::Warn) {
        Some(LogLevel::Warn)
    } else if s == level_name(LogLevel::Error) {
        Some(LogLevel::Error)
    } else {
        None
    }
}

impl LogLevel {
    /// The name of the level, as used in log filters.
    pub fn as_str(&self) -> (s: &'static str)
        ensures
            s@ == level_name(*self),
    {
        proof {
            reveal_strlit("trace");
            reveal_strlit("debug");
            reveal_strlit("info");
            reveal_strlit("warn");
            reveal_strlit("error");
        }
        match self {
            LogLevel::Trace => {
                assert("trace"@ =~= level_name(LogLevel::Trace));
                "trace"
            },
            LogLevel::Debug => {
                assert("debug"@ =~= level_name(LogLevel::Debug));
                "debug"
            },
            LogLevel::Info => {
                assert("info"@ =~= level_name(LogLevel::Info));
                "info"
            },
            LogLevel::Warn => {
                assert("warn"@ =~= level_name(LogLevel::Warn));
                "warn"
            },
            LogLevel::Error => {
                assert("error"@ =~= level_name(LogLevel::Error));
                "error"
            },
        }
    }

    /// The level with the given name; `None` for any other text.
    pub fn from_name(s: &str) -> (r: Option<LogLevel>)
        ensures
            r == level_named(s@),
    {
        if str_eq(s, LogLevel::Trace.as_str()) {
            Some(LogLevel::Trace)
        } else if str_eq(s, LogLevel::Debug.as_str()) {
            Some(LogLevel::Debug)
        } else if str_eq(s, LogLevel::Info.as_str()) {
            Some(LogLevel::Info)
        } else if str_eq(s, LogLevel::Warn.as_str()) {
            Some(LogLevel::Warn)
        } else if str_eq(s, LogLevel::Error.as_str()) {
            Some(LogLevel::Error)
        } else {
            None
        }
    }
}

impl Default for LogLevel {
    fn default() -> (l: Self)
        ensures
            l == LogLevel::Info,
    {
        LogLevel::Info
    }
}

impl AsRef<str> for LogLevel {
    fn as_ref(&self) -> (s: &str)
        ensures
            s@ == level_name(*self),
    {
        self.as_str()
    }
}

/// Every level is read back from its own name, and no two levels share a name.
pub proof fn lemma_level_name_roundtrip(l: LogLevel)
    ensures
        level_named(level_name(l)) == Some(l),
{
    assert(level_name(LogLevel::Trace) != level_name(LogLevel::Debug));
    assert(level_name(LogLevel::Trace) != level_name(LogLevel::Error));
    assert(level_name(LogLevel::Debug) != level_name(LogLevel::Error));
    assert(level_name(LogLevel::Info) != level_name(LogLevel::Warn));
    assert(level_name(LogLevel::Trace).len() == 5);
    assert(level_name(LogLevel::Info).len() == 4);
    match l {
        LogLevel::Trace => {},
        LogLevel::Debug => {
            assert(level_name(LogLevel::Debug)[0] != level_name(LogLevel::Trace)[0]);
        },
        LogLevel::Info => {},
        LogLevel::Warn => {
            assert(level_name(LogLevel::Warn)[0] != level_name(LogLevel::Info)[0]);
        },
        LogLevel::Error => {
            assert(level_name(LogLevel::Error)[0] != level_name(LogLevel::Trace)[0]);
            assert(level_name(LogLevel::Error)[0] != level_name(LogLevel::Debug)[0]);
        },
    }
}

/// How log lines are written.
#[derive(Clone, Copy, Debug, PartialEq, Eq, Structural)]
pub enum LogFormat {
    Text,
    Json,
}

/// The name of a format.
pub open spec fn format_name(f: LogFormat) -> Seq<char> {
    match f {
        LogFormat::Text => seq!['t', 'e', 'x', 't'],
        LogFormat::Json => seq!['j', 's', 'o', 'n'],
    }
}

/// The format a name stands for, if any.
pub open spec fn format_named(s: Seq<char>) -> Option<LogFormat> {
    if s == format_name(LogFormat::Text) {
        Some(LogFormat::Text)
    } else if s == format_name(LogFormat::Json) {
        Some(LogFormat::Json)
    } else {
        None
    }
}

impl LogFormat {
    /// The name of the format, as written on the command line.
    pub fn as_str(&self) -> (s: &'static str)
        ensures
            s@ == format_name(*self),
    {
        proof {
            reveal_strlit("text");
            reveal_strlit("json");
        }
        match self {
            LogFormat::Text => {
                assert("text"@ =~= format_name(LogFormat::Text));
                "text"
            },
            LogFormat::Json => {
                assert("json"@ =~= format_name(LogFormat::Json));
                "json"
            },
        }
    }

    /// The format with the given name; `None` for any other text.
    pub fn from_name(s: &str) -> (r: Option<LogFormat>)
        ensures
            r == format_named(s@),
    {
        if str_eq(s, LogFormat::Text.as_str()) {
            Some(LogFormat::Text)
        } else if str_eq(s, LogFormat::Json.as_str()) {
            Some(LogFormat::Json)
        } else {
            None
        }
    }
}

impl Default for LogFormat {
    fn default() -> (f: Self)
        ensures
            f == LogFormat::Text,
    {
        LogFormat::Text
    }
}

/// Every format is read back from its own name.
pub proof fn lemma_format_name_roundtrip(f: LogFormat)
    ensures
        format_named(format_name(f)) == Some(f),
{
    assert(format_name(LogFormat::Text)[0] != format_name(LogFormat::Json)[0]);
}

} // verus!
