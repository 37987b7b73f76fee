//! The line filter: up to three optional criteria, all of which a line must
//! meet to be kept.

use vstd::prelude::*;
use crate::category::{classifyLine, classify_spec, LogType};
use crate::text::{
    contains, contains_text, lowercase_of, occurs_at, same_text, to_lowercase,
};

verus! {

/// The characters `info`.
pub open spec fn info_name() -> Seq<char> {
    seq!['i', 'n', 'f', 'o']
}

/// The characters `warn`.
pub open spec fn warn_name() -> Seq<char> {
    seq!['w', 'a', 'r', 'n']
}

/// The characters `error`.
pub open spec fn error_name() -> Seq<char> {
    seq!['e', 'r', 'r', 'o', 'r']
}

/// The severity that a lower-cased name selects; any name but the three
/// selects none.
pub open spec fn category_of_name(name: Seq<char>) -> Option<LogType> {
    if name == info_name() {
        Some(LogType::Info)
    } else if name == warn_name() {
        Some(LogType::Warn)
    } else if name == error_name() {
        Some(LogType::Error)
    } else {
        None
    }
}

/// The characters of an optional text.
pub open spec fn text_of(text: Option<&str>) -> Option<Seq<char>> {
    match text {
        Some(t) => Some(t@),
        None => None,
    }
}

/// No severity is asked for, or the line has the severity asked for.
pub open spec fn category_check(line: Seq<char>, wanted: Option<LogType>) -> bool {
    wanted matches Some(kind) ==> classify_spec(line) == kind
}

/// No date is asked for, or the line holds the date's characters verbatim.
pub open spec fn date_check(line: Seq<char>, date: Option<Seq<char>>) -> bool {
    date matches Some(d) ==> contains_text(line, d)
}

/// No keyword is asked for, or the lower-cased line holds the lower-cased
/// keyword.
pub open spec fn keyword_check(line: Seq<char>, keyword: Option<Seq<char>>) -> bool {
    keyword matches Some(k) ==> contains_text(lowercase_of(line), lowercase_of(k))
}

/// A line is kept exactly when it meets all three checks.
pub open spec fn passes_spec(
    line: Seq<char>,
    wanted: Option<LogType>,
    date: Option<Seq<char>>,
    keyword: Option<Seq<char>>,
) -> bool {
    &&& category_check(line, wanted)
    &&& date_check(line, date)
    &&& keyword_check(line, keyword)
}

/// The severity named by an already lower-cased word.
pub fn category_named(lowered: &str) -> (wanted: Option<LogType>)
    ensures
        wanted == category_of_name(lowered@),
{
    proof {
        reveal_strlit("info");
        reveal_strlit("warn");
        reveal_strlit("error");
        assert("info"@ =~= info_name());
        assert("warn"@ =~= warn_name());
        assert("error"@ =~= error_name());
    }
    if same_text(lowered, "info") {
        Some(LogType::Info)
    } else if same_text(lowered, "warn") {
        Some(LogType::Warn)
    } else if same_text(lowered, "error") {
        Some(LogType::Error)
    } else {
        None
    }
}

/// The severity that a word names, whatever its letter case.
pub fn parse_category(word: &str) -> (wanted: Option<LogType>)
    ensures
        wanted == category_of_name(lowercase_of(word@)),
{
    let lowered = to_lowercase(word);
    category_named(lowered.as_str())
}

/// Decides whether a line is kept, given the lower-cased line and keyword.
///
/// `lowered_line` is read only when a keyword is given.
pub fn filter_lowered(
    line: &str,
    log_type: Option<LogType>,
    date_filter: Option<&str>,
    lowered_line: &str,
    lowered_keyword: Option<&str>,
) -> (kept: bool)
    ensures
        kept == (category_check(line@, log_type) && date_check(line@, text_of(date_filter)) && (
        lowered_keyword matches Some(k) ==> contains_text(lowered_line@, k@))),
{
    let matches_type = match log_type {
        Some(kind) => classifyLine(line) == kind,
        None => true,
    };
    let matches_date = match date_filter {
        Some(date) => contains(line, date),
        None => true,
    };
    let matches_keyword = match lowered_keyword {
        Some(keyword) => contains(lowered_line, keyword),
        None => true,
    };
    matches_type && matches_date && matches_keyword
}

/// Decides whether a line is kept under the three optional criteria.
#[allow(non_snake_case)]
pub fn filterLine(
    line: &str,
    log_type: Option<LogType>,
    date_filter: Option<&str>,
    keyword: Option<&str>,
) -> (kept: bool)
    ensures
        kept == passes_spec(line@, log_type, text_of(date_filter), text_of(keyword)),
{
    match keyword {
        Some(word) => {
            let lowered_line = to_lowercase(line);
            let lowered_word = to_lowercase(word);
            filter_lowered(
                line,
                log_type,
                date_filter,
                lowered_line.as_str(),
                Some(lowered_word.as_str()),
            )
        },
        None => filter_lowered(line, log_type, date_filter, line, None),
    }
}

/// The criteria of one run: each of the three is present or absent on its
/// own, and none changes once the run has begun.
pub struct FilterCriteria {
    pub category: Option<LogType>,
    pub date: Option<String>,
    pub keyword: Option<String>,
}

/// The characters of an optional owned text.
pub open spec fn owned_text_of(text: Option<String>) -> Option<Seq<char>> {
    match text {
        Some(t) => Some(t@),
        None => None,
    }
}

impl FilterCriteria {
    /// Whether these criteria keep `line`.
    pub open spec fn keeps(&self, line: Seq<char>) -> bool {
        passes_spec(line, self.category, owned_text_of(self.date), owned_text_of(self.keyword))
    }

    /// The criteria that keep every line.
    pub fn none() -> (criteria: FilterCriteria)
        ensures
            criteria.category is None,
            criteria.date is None,
            criteria.keyword is None,
    {
        FilterCriteria { category: None, date: None, keyword: None }
    }

    /// Criteria from three optional words: the first names a severity in any
    /// letter case, and sets no severity when it names none; the second and
    /// third are taken as they are.
    pub fn from_words(category: Option<&str>, date: Option<&str>, keyword: Option<&str>) -> (criteria:
        FilterCriteria)
        ensures
            criteria.category == match category {
                Some(word) => category_of_name(lowercase_of(word@)),
                None => None,
            },
            owned_text_of(criteria.date) == text_of(date),
            owned_text_of(criteria.keyword) == text_of(keyword),
    {
        let wanted = match category {
            Some(word) => parse_category(word),
            None => None,
        };
        let date = match date {
            Some(d) => Some(d.to_owned()),
            None => None,
        };
        let keyword = match keyword {
            Some(k) => Some(k.to_owned()),
            None => None,
        };
        FilterCriteria { category: wanted, date, keyword }
    }

    /// Decides whether these criteria keep a line.
    pub fn passes(&self, line: &str) -> (kept: bool)
        ensures
            kept == self.keeps(line@),
    {
        let date = match &self.date {
            Some(d) => Some(d.as_str()),
            None => None,
        };
        let keyword = match &self.keyword {
            Some(k) => Some(k.as_str()),
            None => None,
        };
        filterLine(line, self.category, date, keyword)
    }
}

/// With no criterion set, every line is kept.
pub proof fn lemma_no_criteria_keep_every_line(line: Seq<char>)
    ensures
        passes_spec(line, None, None, None),
{
}

/// A line is kept exactly when each of the three checks holds on its own:
/// failing any one of them drops the line, whatever the other two say.
pub proof fn lemma_kept_iff_every_check_holds(
    line: Seq<char>,
    wanted: Option<LogType>,
    date: Option<Seq<char>>,
    keyword: Option<Seq<char>>,
)
    ensures
        passes_spec(line, wanted, date, keyword) <==> (category_check(line, wanted) && date_check(
            line,
            date,
        ) && keyword_check(line, keyword)),
        passes_spec(line, wanted, date, keyword) == (passes_spec(line, wanted, None, None)
            && passes_spec(line, None, date, None) && passes_spec(line, None, None, keyword)),
{
}

/// The keyword check sees letters only through their lower-cased form: lines
/// that lower-case alike, and keywords that lower-case alike, are checked
/// alike.
pub proof fn lemma_keyword_check_ignores_case(
    line: Seq<char>,
    other_line: Seq<char>,
    keyword: Seq<char>,
    other_keyword: Seq<char>,
)
    requires
        lowercase_of(line) == lowercase_of(other_line),
        lowercase_of(keyword) == lowercase_of(other_keyword),
    ensures
        keyword_check(line, Some(keyword)) == keyword_check(other_line, Some(other_keyword)),
{
}

/// The date check is a verbatim search: it holds exactly when the date
/// stands somewhere in the line, and it stands at a place exactly when the
/// line's characters from there on equal the date's, one for one.
pub proof fn lemma_date_check_is_verbatim(line: Seq<char>, date: Seq<char>, at: int)
    ensures
        date_check(line, Some(date)) <==> exists|k: int| occurs_at(line, date, k),
        occurs_at(line, date, at) <==> (0 <= at && at + date.len() <= line.len() && forall|i: int|
            0 <= i < date.len() ==> line[at + i] == #[trigger] date[i]),
{
    if occurs_at(line, date, at) {
        assert forall|i: int| 0 <= i < date.len() implies line[at + i] == #[trigger] date[i] by {
            assert(line.subrange(at, at + date.len())[i] == line[at + i]);
        }
    }
    if 0 <= at && at + date.len() <= line.len() && forall|i: int|
        0 <= i < date.len() ==> line[at + i] == #[trigger] date[i] {
        assert(line.subrange(at, at + date.len()) =~= date);
    }
}

} // verus!
