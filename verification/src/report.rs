//! What a caller is told: the lines of the log, and whether the id that it
//! asks for can name a node.

use vstd::prelude::*;
use vstd::string::StringExecFns;
use crate::text::{decimal, push_decimal};

verus! {

/// The severity of a log record.
#[derive(Clone, Copy, Debug, PartialEq, Eq, Structural)]
pub enum Level {
    Error,
    Warn,
    Info,
    Debug,
    Trace,
}

impl Level {
    /// The word with which a line of this severity starts.
    pub open spec fn label(self) -> Seq<char> {
        match self {
            Level::Error => "Error"@,
            Level::Warn => "Warning"@,
            Level::Info => "Info"@,
            Level::Debug => "Debug"@,
            Level::Trace => "Trace"@,
        }
    }

    /// The word with which a line of this severity starts.
    pub fn as_label(&self) -> (s: &'static str)
        ensures
            s@ == self.label(),
    {
        match self {
            Level::Error => "Error",
            Level::Warn => "Warning",
            Level::Info => "Info",
            Level::Debug => "Debug",
            Level::Trace => "Trace",
        }
    }
}

/// A line of the log: the severity, the place that the record comes from,
/// and the message. A record without a line number is given line 0.
pub open spec fn log_line(level: Level, target: Seq<char>, line: Option<u32>, message: Seq<char>) -> Seq<
    char,
> {
    let number = match line {
        Some(n) => n as nat,
        None => 0,
    };
    level.label() + " (in "@ + target + ":"@ + decimal(number) + "): "@ + message
}

/// Formats a log record as one line.
pub fn log_format(level: Level, target: &str, line: Option<u32>, message: &str) -> (s: String)
    ensures
        s@ == log_line(level, target@, line, message@),
{
    let number: u32 = match line {
        Some(n) => n,
        None => 0,
    };
    let mut s: String = String::from_str(level.as_label());
    s.append(" (in ");
    s.append(target);
    s.append(":");
    push_decimal(&mut s, number as u128);
    s.append("): ");
    s.append(message);
    s
}

/// Whether a text that a caller gives as an id can name a node.
#[derive(Clone, Copy, Debug, PartialEq, Eq, Structural)]
pub enum IdCheck {
    /// It can.
    Usable,
    /// It is not valid UTF-8.
    NotUtf8,
    /// It is empty.
    Empty,
}

/// What holds of an id that a caller gives: `None` stands for a text that
/// is not valid UTF-8.
pub open spec fn id_check(id: Option<Seq<char>>) -> IdCheck {
    match id {
        None => IdCheck::NotUtf8,
        Some(text) => if text.len() == 0 {
            IdCheck::Empty
        } else {
            IdCheck::Usable
        },
    }
}

/// Checks an id that a caller gives before a node is looked up by it.
pub fn check_id(id: Option<&str>) -> (r: IdCheck)
    ensures
        r == id_check(
            match id {
                Some(text) => Some(text@),
                None => None,
            },
        ),
{
    match id {
        None => IdCheck::NotUtf8,
        Some(text) => if text.is_empty() {
            IdCheck::Empty
        } else {
            IdCheck::Usable
        },
    }
}

} // verus!
