//! Regular-expression matching, delegated to the `regex` crate, and the
//! patterns of the annotation grammar and of interpreter diagnostics.

use vstd::prelude::*;

verus! {

/// Whether the `regex` crate compiles `pattern`.
pub uninterp spec fn regex_accepts(pattern: Seq<char>) -> bool;

/// The capture groups of the leftmost match of `pattern` in `text`, group 0
/// first, or `None` where `text` holds no match. A group that took no part in
/// the match is `None`.
pub uninterp spec fn regex_captures(pattern: Seq<char>, text: Seq<char>) -> Option<
    Seq<Option<Seq<char>>>,
>;

/// `regex::Error`, the error of `regex::Regex::new`: carried through
/// unopened.
#[verifier::external_type_specification]
#[verifier::external_body]
pub struct ExRegexError(regex::Error);

/// Why a match could not be attempted.
#[derive(Debug, Clone, Copy, PartialEq, Eq)]
pub enum PatternError {
    /// The pattern is not one that the matcher compiles.
    Rejected,
}

/// A comment that expects a line of output; group 1 is the line.
pub const EXPECTED_OUTPUT_PATTERN: &'static str = r"// expect: ?(.*)";

/// A comment that expects a compile error on its own line; group 1 is the
/// message.
pub const EXPECTED_ERROR_PATTERN: &'static str = r"// (Error.*)";

/// A comment that expects a compile error on a line that it names; group 2
/// is the language it is meant for, if any, group 3 the line, group 4 the
/// message.
pub const ERROR_LINE_PATTERN: &'static str = r"// \[((java|c) )?line (\d+)\] (Error.*)";

/// A comment that expects a runtime error; group 1 is the message.
pub const EXPECTED_RUNTIME_ERROR_PATTERN: &'static str = r"// expect runtime error: (.+)";

/// A compile error as an interpreter prints it; group 1 is the line, group 2
/// the message.
pub const SYNTAX_ERROR_PATTERN: &'static str = r"\[.*line (\d+)\] (Error.+)";

/// A line of a stack trace; group 1 is the line that it names.
pub const STACK_TRACE_PATTERN: &'static str = r"\[line (\d+)\]";

/// The marker of a file that is no test.
pub const NONTEST_PATTERN: &'static str = r"// nontest";

/// The character contents of a match's capture groups.
pub open spec fn groups_view(found: Option<Vec<Option<String>>>) -> Option<Seq<Option<Seq<char>>>> {
    match found {
        Some(groups) => Some(
            groups@.map_values(
                |g: Option<String>|
                    match g {
                        Some(s) => Some(s@),
                        None => None,
                    },
            ),
        ),
        None => None,
    }
}

/// Capture group `i` of a match: `None` where there was no match, where the
/// pattern has no such group, or where the group took no part.
pub open spec fn group(found: Option<Seq<Option<Seq<char>>>>, i: int) -> Option<Seq<char>> {
    match found {
        Some(groups) => if 0 <= i < groups.len() {
            groups[i]
        } else {
            None
        },
        None => None,
    }
}

/// Calls `regex::Regex::new` on `pattern` and, where that compiles,
/// `regex::Regex::captures` on `text`, copying each group out as a `String`.
/// Trusted: the call fails exactly on the patterns that `regex_accepts`
/// excludes, and the groups handed back are those that `regex_captures` names.
#[verifier::external_body]
fn try_captures(pattern: &str, text: &str) -> (r: Result<Option<Vec<Option<String>>>, regex::Error>)
    ensures
        r is Ok <==> regex_accepts(pattern@),
        r matches Ok(found) ==> groups_view(found) == regex_captures(pattern@, text@),
{
    let compiled = regex::Regex::new(pattern)?;
    Ok(
        compiled.captures(text).map(
            |c| c.iter().map(|g| g.map(|m| m.as_str().to_string())).collect(),
        ),
    )
}

/// Searches `text` for the leftmost match of `pattern` and returns its
/// capture groups.
pub fn find_groups(pattern: &str, text: &str) -> (r: Result<
    Option<Vec<Option<String>>>,
    PatternError,
>)
    ensures
        r is Ok <==> regex_accepts(pattern@),
        r matches Ok(found) ==> groups_view(found) == regex_captures(pattern@, text@),
{
    match try_captures(pattern, text) {
        Ok(found) => Ok(found),
        Err(_) => Err(PatternError::Rejected),
    }
}

/// Whether `pattern` can be used for matching.
pub fn accepts(pattern: &str) -> (r: bool)
    ensures
        r == regex_accepts(pattern@),
{
    find_groups(pattern, "").is_ok()
}

/// The capture groups of `pattern` in `text`, for a pattern known to compile.
pub(crate) fn groups_in(pattern: &str, text: &str) -> (r: Option<Vec<Option<String>>>)
    requires
        regex_accepts(pattern@),
    ensures
        groups_view(r) == regex_captures(pattern@, text@),
{
    match try_captures(pattern, text) {
        Ok(found) => found,
        Err(_) => vstd::pervasive::unreached(),
    }
}

/// Copies capture group `i` out of a match.
pub fn group_text(found: &Option<Vec<Option<String>>>, i: usize) -> (r: Option<String>)
    ensures
        match r {
            Some(s) => group(groups_view(*found), i as int) == Some(s@),
            None => group(groups_view(*found), i as int) is None,
        },
{
    match found {
        Some(groups) => {
            if i < groups.len() {
                match &groups[i] {
                    Some(s) => Some(s.clone()),
                    None => None,
                }
            } else {
                None
            }
        },
        None => None,
    }
}

/// The character contents of the matches found in a list of lines.
pub open spec fn matches_view(found: Seq<Option<Vec<Option<String>>>>) -> Seq<
    Option<Seq<Option<Seq<char>>>>,
> {
    found.map_values(|m: Option<Vec<Option<String>>>| groups_view(m))
}

/// The match of `pattern` in each of `lines`.
pub open spec fn captures_each(pattern: Seq<char>, lines: Seq<Seq<char>>) -> Seq<
    Option<Seq<Option<Seq<char>>>>,
> {
    lines.map_values(|line: Seq<char>| regex_captures(pattern, line))
}

/// Searches each of `lines` for `pattern`.
pub fn match_each(pattern: &str, lines: &Vec<String>) -> (r: Result<
    Vec<Option<Vec<Option<String>>>>,
    PatternError,
>)
    ensures
        r is Ok <==> regex_accepts(pattern@),
        r matches Ok(found) ==> matches_view(found@) == captures_each(
            pattern@,
            crate::text::texts(lines@),
        ),
{
    if !accepts(pattern) {
        return Err(PatternError::Rejected);
    }
    let mut found: Vec<Option<Vec<Option<String>>>> = Vec::new();
    let mut i: usize = 0;
    while i < lines.len()
        invariant
            regex_accepts(pattern@),
            i <= lines.len(),
            found@.len() == i,
            forall|j: int|
                0 <= j < i ==> groups_view(#[trigger] found@[j]) == regex_captures(
                    pattern@,
                    lines@[j]@,
                ),
        decreases lines.len() - i,
    {
        let m = groups_in(pattern, lines[i].as_str());
        found.push(m);
        i += 1;
    }
    assert(matches_view(found@) =~= captures_each(pattern@, crate::text::texts(lines@)));
    Ok(found)
}

} // verus!
