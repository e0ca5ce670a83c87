use vstd::prelude::*;
use vstd::string::*;
use crate::level::{Level, display_name, display_name_spec};

verus! {

/// The decimal digit character for `d` (`d < 10`).
pub open spec fn dec_digit(d: nat) -> char {
    if d == 0 {
        '0'
    } else if d == 1 {
        '1'
    } else if d == 2 {
        '2'
    } else if d == 3 {
        '3'
    } else if d == 4 {
        '4'
    } else if d == 5 {
        '5'
    } else if d == 6 {
        '6'
    } else if d == 7 {
        '7'
    } else if d == 8 {
        '8'
    } else {
        '9'
    }
}

/// The decimal rendering of `n`, without leading zeros (just `0` for zero).
pub open spec fn dec_str(n: nat) -> Seq<char>
    decreases n,
{
    if n < 10 {
        seq![dec_digit(n)]
    } else {
        dec_str(n / 10).push(dec_digit(n % 10))
    }
}

fn dec_digit_str(d: u32) -> (r: &'static str)
    requires
        d < 10,
    ensures
        r@ == dec_str(d as nat),
{
    let r: &'static str = if d == 0 {
        "0"
    } else if d == 1 {
        "1"
    } else if d == 2 {
        "2"
    } else if d == 3 {
        "3"
    } else if d == 4 {
        "4"
    } else if d == 5 {
        "5"
    } else if d == 6 {
        "6"
    } else if d == 7 {
        "7"
    } else if d == 8 {
        "8"
    } else {
        "9"
    };
    proof {
        reveal_strlit("0");
        reveal_strlit("1");
        reveal_strlit("2");
        reveal_strlit("3");
        reveal_strlit("4");
        reveal_strlit("5");
        reveal_strlit("6");
        reveal_strlit("7");
        reveal_strlit("8");
        reveal_strlit("9");
        assert(r@ =~= dec_str(d as nat));
    }
    r
}

/// Renders `n` in decimal.
pub fn u32_to_string(n: u32) -> (r: String)
    ensures
        r@ == dec_str(n as nat),
    decreases n,
{
    if n < 10 {
        String::from_str(dec_digit_str(n))
    } else {
        let mut s = u32_to_string(n / 10);
        s.append(dec_digit_str(n % 10));
        proof {
            assert(s@ =~= dec_str(n as nat / 10).push(dec_digit(n as nat % 10)));
        }
        s
    }
}

/// The thread or module name that stands in a line when none is known.
pub open spec fn unnamed() -> Seq<char> {
    "<unnamed>"@
}

/// The name rendered for an optional thread or module: the name itself,
/// or `<unnamed>` when there is none.
pub open spec fn name_or_unnamed(s: Option<&str>) -> Seq<char> {
    match s {
        Some(t) => t@,
        None => unnamed(),
    }
}

/// The line number rendered for a record: the number itself, or 0 when
/// there is none.
pub open spec fn line_or_zero(line: Option<u32>) -> u32 {
    match line {
        Some(n) => n,
        None => 0,
    }
}

/// One rendered log line:
/// `[<time>] T[<thread>] <LEVEL> [<module>:<line>] <message>`.
pub open spec fn log_line_spec(
    time: Seq<char>,
    thread: Seq<char>,
    level: Level,
    module: Seq<char>,
    line: nat,
    message: Seq<char>,
) -> Seq<char> {
    "["@ + time + "] T["@ + thread + "] "@ + display_name_spec(level) + " ["@ + module + ":"@
        + dec_str(line) + "] "@ + message
}

/// Renders one log line from its parts: the local time (already formatted
/// with microsecond precision), the thread name, the severity, the module
/// path with its line number, and the message. A missing thread or module
/// name is rendered as `<unnamed>`, a missing line number as `0`.
pub fn log_format(
    time: &str,
    thread_name: Option<&str>,
    level: Level,
    module: Option<&str>,
    line: Option<u32>,
    message: &str,
) -> (r: String)
    ensures
        r@ == log_line_spec(
            time@,
            name_or_unnamed(thread_name),
            level,
            name_or_unnamed(module),
            line_or_zero(line) as nat,
            message@,
        ),
{
    let mut s = String::from_str("[");
    s.append(time);
    s.append("] T[");
    match thread_name {
        Some(t) => s.append(t),
        None => s.append("<unnamed>"),
    }
    s.append("] ");
    s.append(display_name(level));
    s.append(" [");
    match module {
        Some(m) => s.append(m),
        None => s.append("<unnamed>"),
    }
    s.append(":");
    let number = u32_to_string(
        match line {
            Some(n) => n,
            None => 0,
        },
    );
    s.append(number.as_str());
    s.append("] ");
    s.append(message);
    proof {
        assert(s@ =~= log_line_spec(
            time@,
            name_or_unnamed(thread_name),
            level,
            name_or_unnamed(module),
            line_or_zero(line) as nat,
            message@,
        ));
    }
    s
}

} // verus!
