use vstd::prelude::*;
use vstd::string::*;

verus! {

/// A severity filter level, ordered from silent to most verbose.
#[derive(Clone, Copy, Debug, PartialEq, Eq, Structural)]
pub enum Level {
    Off,
    Error,
    Warn,
    Info,
    Debug,
    Trace,
}

/// `c` reads as the lowercase letter `l`, either literally or as its
/// ASCII uppercase form.
pub open spec fn folds_to(c: char, l: char) -> bool {
    c == l || (65 <= c as u32 && c as u32 <= 90 && c as u32 + 32 == l as u32)
}

/// `s` spells the (lowercase) token `name`, ignoring ASCII case.
pub open spec fn str_folds_to(s: Seq<char>, name: Seq<char>) -> bool {
    s.len() == name.len() && (forall|i: int| 0 <= i < s.len() ==> folds_to(s[i], #[trigger] name[i]))
}

/// Which level, if any, a severity string denotes: one of the six level
/// names, compared ignoring ASCII case. Anything else is unrecognized.
pub open spec fn parse_level_spec(s: Seq<char>) -> Option<Level> {
    if str_folds_to(s, "off"@) {
        Some(Level::Off)
    } else if str_folds_to(s, "error"@) {
        Some(Level::Error)
    } else if str_folds_to(s, "warn"@) {
        Some(Level::Warn)
    } else if str_folds_to(s, "info"@) {
        Some(Level::Info)
    } else if str_folds_to(s, "debug"@) {
        Some(Level::Debug)
    } else if str_folds_to(s, "trace"@) {
        Some(Level::Trace)
    } else {
        None
    }
}

fn char_matches(c: char, l: char) -> (r: bool)
    ensures
        r == folds_to(c, l),
{
    let cu = c as u32;
    let lu = l as u32;
    c == l || (65 <= cu && cu <= 90 && cu + 32 == lu)
}

fn level_token_matches(s: &str, name: &str) -> (r: bool)
    ensures
        r == str_folds_to(s@, name@),
{
    let n = s.unicode_len();
    if n != name.unicode_len() {
        return false;
    }
    let mut i: usize = 0;
    while i < n
        invariant
            n == s@.len(),
            n == name@.len(),
            i <= n,
            forall|j: int| 0 <= j < i ==> folds_to(s@[j], #[trigger] name@[j]),
        decreases n - i,
    {
        if !char_matches(s.get_char(i), name.get_char(i)) {
            return false;
        }
        i += 1;
    }
    true
}

/// Parses a severity string into a `Level`, ignoring ASCII case;
/// returns `None` on every unrecognized string.
pub fn parse_level(s: &str) -> (r: Option<Level>)
    ensures
        r == parse_level_spec(s@),
{
    if level_token_matches(s, "off") {
        Some(Level::Off)
    } else if level_token_matches(s, "error") {
        Some(Level::Error)
    } else if level_token_matches(s, "warn") {
        Some(Level::Warn)
    } else if level_token_matches(s, "info") {
        Some(Level::Info)
    } else if level_token_matches(s, "debug") {
        Some(Level::Debug)
    } else if level_token_matches(s, "trace") {
        Some(Level::Trace)
    } else {
        None
    }
}

/// The lowercase token that denotes this level in a severity string.
pub open spec fn filter_name_spec(l: Level) -> Seq<char> {
    match l {
        Level::Off => "off"@,
        Level::Error => "error"@,
        Level::Warn => "warn"@,
        Level::Info => "info"@,
        Level::Debug => "debug"@,
        Level::Trace => "trace"@,
    }
}

/// The canonical lowercase name of this level.
pub fn filter_name(l: Level) -> (r: &'static str)
    ensures
        r@ == filter_name_spec(l),
{
    match l {
        Level::Off => "off",
        Level::Error => "error",
        Level::Warn => "warn",
        Level::Info => "info",
        Level::Debug => "debug",
        Level::Trace => "trace",
    }
}

/// Law: the canonical lowercase name of every level is itself a
/// recognized severity string, and it denotes exactly that level. An
/// application that validates a string through `parse_level` may
/// therefore hand the canonical name to any consumer of severity strings
/// without changing which level is meant.
pub proof fn lemma_filter_name_parses(l: Level)
    ensures
        parse_level_spec(filter_name_spec(l)) == Some(l),
{
    reveal_strlit("off");
    reveal_strlit("error");
    reveal_strlit("warn");
    reveal_strlit("info");
    reveal_strlit("debug");
    reveal_strlit("trace");
    assert(str_folds_to("off"@, "off"@));
    assert(str_folds_to("error"@, "error"@));
    assert(str_folds_to("warn"@, "warn"@));
    assert(str_folds_to("info"@, "info"@));
    assert(str_folds_to("debug"@, "debug"@));
    assert(str_folds_to("trace"@, "trace"@));
    match l {
        Level::Info => {
            assert(!folds_to("info"@[0], "warn"@[0]));
        },
        Level::Debug => {
            assert(!folds_to("debug"@[0], "error"@[0]));
        },
        Level::Trace => {
            assert(!folds_to("trace"@[0], "error"@[0]));
            assert(!folds_to("trace"@[0], "debug"@[0]));
        },
        _ => {},
    }
}

/// How this level is rendered inside a log line.
pub open spec fn display_name_spec(l: Level) -> Seq<char> {
    match l {
        Level::Off => "OFF"@,
        Level::Error => "ERROR"@,
        Level::Warn => "WARN"@,
        Level::Info => "INFO"@,
        Level::Debug => "DEBUG"@,
        Level::Trace => "TRACE"@,
    }
}

/// The uppercase rendering of this level for log lines.
pub fn display_name(l: Level) -> (r: &'static str)
    ensures
        r@ == display_name_spec(l),
{
    match l {
        Level::Off => "OFF",
        Level::Error => "ERROR",
        Level::Warn => "WARN",
        Level::Info => "INFO",
        Level::Debug => "DEBUG",
        Level::Trace => "TRACE",
    }
}

} // verus!
