//! The severity of a log line, read off its leading characters.

use vstd::prelude::*;
use crate::text::{has_prefix, starts_with};

verus! {

/// The severity of a log line.
#[derive(Clone, Copy, PartialEq, Eq, Debug, Structural)]
pub enum LogType {
    Info,
    Warn,
    Error,
    Other,
}

/// The characters `INFO`.
pub open spec fn info_tag() -> Seq<char> {
    seq!['I', 'N', 'F', 'O']
}

/// The characters `WARN`.
pub open spec fn warn_tag() -> Seq<char> {
    seq!['W', 'A', 'R', 'N']
}

/// The characters `ERROR`.
pub open spec fn error_tag() -> Seq<char> {
    seq!['E', 'R', 'R', 'O', 'R']
}

/// The severity of `line`: the tag it begins with, in upper case exactly, or
/// `Other` when it begins with none of the three.
pub open spec fn classify_spec(line: Seq<char>) -> LogType {
    if has_prefix(line, info_tag()) {
        LogType::Info
    } else if has_prefix(line, warn_tag()) {
        LogType::Warn
    } else if has_prefix(line, error_tag()) {
        LogType::Error
    } else {
        LogType::Other
    }
}

/// A line begins with at most one of the three tags, so each severity is
/// decided by its own tag alone and `Other` by the absence of all three.
pub proof fn lemma_classify_by_tag(line: Seq<char>)
    ensures
        classify_spec(line) == LogType::Info <==> has_prefix(line, info_tag()),
        classify_spec(line) == LogType::Warn <==> has_prefix(line, warn_tag()),
        classify_spec(line) == LogType::Error <==> has_prefix(line, error_tag()),
        classify_spec(line) == LogType::Other <==> !has_prefix(line, info_tag()) && !has_prefix(
            line,
            warn_tag(),
        ) && !has_prefix(line, error_tag()),
{
    if has_prefix(line, info_tag()) {
        assert(line.subrange(0, 4)[0] == 'I');
    }
    if has_prefix(line, warn_tag()) {
        assert(line.subrange(0, 4)[0] == 'W');
    }
    if has_prefix(line, error_tag()) {
        assert(line.subrange(0, 5)[0] == 'E');
    }
}

/// Classifies a line by its leading characters.
#[allow(non_snake_case)]
pub fn classifyLine(line: &str) -> (kind: LogType)
    ensures
        kind == classify_spec(line@),
{
    proof {
        reveal_strlit("INFO");
        reveal_strlit("WARN");
        reveal_strlit("ERROR");
        assert("INFO"@ =~= info_tag());
        assert("WARN"@ =~= warn_tag());
        assert("ERROR"@ =~= error_tag());
    }
    if starts_with(line, "INFO") {
        LogType::Info
    } else if starts_with(line, "WARN") {
        LogType::Warn
    } else if starts_with(line, "ERROR") {
        LogType::Error
    } else {
        LogType::Other
    }
}

} // verus!
