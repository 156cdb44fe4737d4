//! How much the program logs.

use vstd::prelude::*;
use vstd::string::StrSliceExecFns;

verus! {

/// The least severe kind of message that is still logged.
#[derive(Debug, Clone, Copy, PartialEq, Eq, Structural)]
pub enum Level {
    Trace,
    Debug,
    Info,
    Warn,
    Error,
}

/// Whether two texts hold the same characters.
pub fn same_text(a: &str, b: &str) -> (same: bool)
    ensures
        same == (a@ == b@),
{
    let len = a.unicode_len();
    if len != b.unicode_len() {
        return false;
    }
    let mut i: usize = 0;
    while i < len
        invariant
            len == a@.len(),
            len == b@.len(),
            i <= len,
            forall|j: int| 0 <= j < i ==> a@[j] == b@[j],
        decreases len - i,
    {
        if a.get_char(i) != b.get_char(i) {
            return false;
        }
        i = i + 1;
    }
    assert(a@ =~= b@);
    true
}

/// The level that a setting asks for. The name of a level is understood
/// in capitals and in small letters, and in no mixture of the two.
/// Anything else, and no setting at all, asks for `Info`.
pub open spec fn spec_level(setting: Option<Seq<char>>) -> Level {
    match setting {
        Some(s) => if s == "TRACE"@ || s == "trace"@ {
            Level::Trace
        } else if s == "DEBUG"@ || s == "debug"@ {
            Level::Debug
        } else if s == "INFO"@ || s == "info"@ {
            Level::Info
        } else if s == "WARN"@ || s == "warn"@ {
            Level::Warn
        } else if s == "ERROR"@ || s == "error"@ {
            Level::Error
        } else {
            Level::Info
        },
        None => Level::Info,
    }
}

/// The level that a setting asks for.
pub fn level(setting: Option<&str>) -> (level: Level)
    ensures
        level == spec_level(
            match setting {
                Some(s) => Some(s@),
                None => None,
            },
        ),
{
    match setting {
        Some(s) => {
            if same_text(s, "TRACE") || same_text(s, "trace") {
                Level::Trace
            } else if same_text(s, "DEBUG") || same_text(s, "debug") {
                Level::Debug
            } else if same_text(s, "INFO") || same_text(s, "info") {
                Level::Info
            } else if same_text(s, "WARN") || same_text(s, "warn") {
                Level::Warn
            } else if same_text(s, "ERROR") || same_text(s, "error") {
                Level::Error
            } else {
                Level::Info
            }
        },
        None => Level::Info,
    }
}

} // verus!
