//! Substring vocabulary over `Seq<char>`, and the standard-library string
//! searches that are taken on trust.

use vstd::prelude::*;

verus! {

/// `needle` stands in `hay` as a contiguous run beginning at index `at`.
pub open spec fn occurs_at(hay: Seq<char>, needle: Seq<char>, at: int) -> bool {
    &&& 0 <= at
    &&& at + needle.len() <= hay.len()
    &&& hay.subrange(at, at + needle.len()) == needle
}

/// `hay` begins with `prefix`.
pub open spec fn has_prefix(hay: Seq<char>, prefix: Seq<char>) -> bool {
    occurs_at(hay, prefix, 0)
}

/// `needle` stands somewhere in `hay`. The empty needle stands in every text.
pub open spec fn contains_text(hay: Seq<char>, needle: Seq<char>) -> bool {
    exists|at: int| occurs_at(hay, needle, at)
}

/// The lower-cased form of a text, as `str::to_lowercase` computes it from
/// the Unicode case tables. Nothing is stated about its value beyond its
/// being a function of the text alone.
pub uninterp spec fn lowercase_of(text: Seq<char>) -> Seq<char>;

/// Trusted: `str::starts_with` with a string pattern. Claims that it answers
/// whether the characters of `prefix` are the leading characters of `text`.
#[verifier::external_body]
pub(crate) fn starts_with(text: &str, prefix: &str) -> (found: bool)
    ensures
        found == has_prefix(text@, prefix@),
{
    text.starts_with(prefix)
}

/// Trusted: `str::contains` with a string pattern. Claims that it answers
/// whether the characters of `needle` stand contiguously somewhere in `text`,
/// compared character for character.
#[verifier::external_body]
pub(crate) fn contains(text: &str, needle: &str) -> (found: bool)
    ensures
        found == contains_text(text@, needle@),
{
    text.contains(needle)
}

/// Trusted: `str::to_lowercase`. Claims only that the result is
/// `lowercase_of` of the argument.
#[verifier::external_body]
pub(crate) fn to_lowercase(text: &str) -> (lower: String)
    ensures
        lower@ == lowercase_of(text@),
{
    text.to_lowercase()
}

/// Whether two texts hold the same characters.
pub(crate) fn same_text(left: &str, right: &str) -> (same: bool)
    ensures
        same == (left@ == right@),
{
    let same = starts_with(left, right) && starts_with(right, left);
    proof {
        if same {
            assert(left@.subrange(0, left@.len() as int) =~= left@);
        }
        if left@ == right@ {
            assert(left@.subrange(0, left@.len() as int) =~= left@);
        }
    }
    same
}

} // verus!
