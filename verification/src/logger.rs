use vstd::prelude::*;

verus! {

/// How much a log record matters, most important first.
#[derive(Debug, Clone, Copy, PartialEq, Eq, Structural)]
pub enum Level {
    Error,
    Warn,
    Info,
    Debug,
    Trace,
}

/// The rank of a level: the more important, the smaller.
pub open spec fn rank(l: Level) -> int {
    match l {
        Level::Error => 1,
        Level::Warn => 2,
        Level::Info => 3,
        Level::Debug => 4,
        Level::Trace => 5,
    }
}

/// Records at `Info` and above are shown; debug and trace records are not.
pub open spec fn shown(l: Level) -> bool {
    rank(l) <= rank(Level::Info)
}

/// The label and terminal colour of a level: bold red errors, bold yellow
/// warnings, bold cyan information, and bold grey for the rest.
pub open spec fn style(l: Level) -> (Seq<char>, Seq<char>) {
    match l {
        Level::Error => ("ERROR"@, "\x1b[1;31m"@),
        Level::Warn => ("WARN"@, "\x1b[1;33m"@),
        Level::Info => ("INFO"@, "\x1b[1;36m"@),
        _ => ("DEBUG"@, "\x1b[1;30m"@),
    }
}

/// The line written for a record: the coloured label in brackets, the
/// colour reset, a space and the message.
pub open spec fn line_v(l: Level, message: Seq<char>) -> Seq<char> {
    style(l).1 + "["@ + style(l).0 + "]"@ + "\x1b[0m"@ + " "@ + message
}

/// Whether records of this level are shown.
pub fn enabled(l: Level) -> (r: bool)
    ensures
        r == shown(l),
{
    match l {
        Level::Error | Level::Warn | Level::Info => true,
        _ => false,
    }
}

/// The label and colour of a level.
pub fn level_style(l: Level) -> (r: (&'static str, &'static str))
    ensures
        r.0@ == style(l).0,
        r.1@ == style(l).1,
{
    match l {
        Level::Error => ("ERROR", "\x1b[1;31m"),
        Level::Warn => ("WARN", "\x1b[1;33m"),
        Level::Info => ("INFO", "\x1b[1;36m"),
        _ => ("DEBUG", "\x1b[1;30m"),
    }
}

/// The line to write for a record, or nothing for a level that is not
/// shown.
pub fn log_line(l: Level, message: &str) -> (r: Option<String>)
    ensures
        match r {
            Some(s) => shown(l) && s@ == line_v(l, message@),
            None => !shown(l),
        },
{
    if !enabled(l) {
        return None;
    }
    let (label, color) = level_style(l);
    let mut s = color.to_owned();
    s.append("[");
    s.append(label);
    s.append("]");
    s.append("\x1b[0m");
    s.append(" ");
    s.append(message);
    Some(s)
}

} // verus!
