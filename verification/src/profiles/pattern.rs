//! The regular expressions that paths are matched with.

use vstd::prelude::*;
use vstd::string::{StrSliceExecFns, StringExecFns};

verus! {

/// Whether `c` has the Unicode property `White_Space`.
pub open spec fn is_space(c: char) -> bool {
    ||| '\u{9}' <= c <= '\u{d}'
    ||| c == ' '
    ||| c == '\u{85}'
    ||| c == '\u{a0}'
    ||| c == '\u{1680}'
    ||| '\u{2000}' <= c <= '\u{200a}'
    ||| c == '\u{2028}'
    ||| c == '\u{2029}'
    ||| c == '\u{202f}'
    ||| c == '\u{205f}'
    ||| c == '\u{3000}'
}

/// `text` without white space at its start.
pub open spec fn trimmed_start(text: Seq<char>) -> Seq<char>
    decreases text.len(),
{
    if text.len() > 0 && is_space(text[0]) {
        trimmed_start(text.drop_first())
    } else {
        text
    }
}

/// `text` without white space at its end.
pub open spec fn trimmed_end(text: Seq<char>) -> Seq<char>
    decreases text.len(),
{
    if text.len() > 0 && is_space(text.last()) {
        trimmed_end(text.drop_last())
    } else {
        text
    }
}

/// `text` without white space at its ends.
pub open spec fn trimmed(text: Seq<char>) -> Seq<char> {
    trimmed_end(trimmed_start(text))
}

/// `text` with `^` before and `$` after it, where they are not there already.
pub open spec fn anchored(text: Seq<char>) -> Seq<char> {
    let head = if text.len() > 0 && text[0] == '^' {
        Seq::empty()
    } else {
        seq!['^']
    };
    let tail = if text.len() > 0 && text.last() == '$' {
        Seq::empty()
    } else {
        seq!['$']
    };
    head + text + tail
}

/// Whether `pattern` is a regular expression that is not too large.
pub uninterp spec fn is_regex(pattern: Seq<char>) -> bool;

/// `regex::Regex::new` accepts regular expressions. Which these are is not stated beyond the
/// name.
#[verifier::external_body]
pub(crate) fn compiles(pattern: &String) -> (compiles: bool)
    ensures
        compiles == is_regex(pattern@),
{
    regex::Regex::new(pattern).is_ok()
}

fn space(c: char) -> (space: bool)
    ensures
        space == is_space(c),
{
    ('\u{9}' <= c && c <= '\u{d}') || c == ' ' || c == '\u{85}' || c == '\u{a0}' || c
        == '\u{1680}' || ('\u{2000}' <= c && c <= '\u{200a}') || c == '\u{2028}' || c
        == '\u{2029}' || c == '\u{202f}' || c == '\u{205f}' || c == '\u{3000}'
}

/// `text` without white space at its ends.
pub fn trim(text: &str) -> (rest: &str)
    ensures
        rest@ == trimmed(text@),
{
    let len = text.unicode_len();
    let mut start: usize = 0;
    assert(text@.skip(0) =~= text@);
    while start < len && space(text.get_char(start))
        invariant
            len == text@.len(),
            start <= len,
            trimmed_start(text@.skip(start as int)) == trimmed_start(text@),
        decreases len - start,
    {
        assert(text@.skip(start as int).drop_first() =~= text@.skip(start + 1));
        start += 1;
    }
    assert(trimmed_start(text@) =~= text@.skip(start as int));
    let mut end: usize = len;
    assert(text@.subrange(start as int, end as int) =~= text@.skip(start as int));
    while start < end && space(text.get_char(end - 1))
        invariant
            len == text@.len(),
            start <= end <= len,
            trimmed_end(text@.subrange(start as int, end as int)) == trimmed(text@),
        decreases end,
    {
        assert(text@.subrange(start as int, end as int).drop_last() =~= text@.subrange(
            start as int,
            end - 1,
        ));
        end -= 1;
    }
    text.substring_char(start, end)
}

/// `text` as a pattern for whole paths.
pub fn anchor(text: &str) -> (pattern: String)
    ensures
        pattern@ == anchored(text@),
{
    proof {
        reveal_strlit("^");
        reveal_strlit("$");
    }
    let len = text.unicode_len();
    let mut pattern = String::new();
    if !(len > 0 && text.get_char(0) == '^') {
        pattern.append("^");
        assert(pattern@ =~= seq!['^']);
    }
    pattern.append(text);
    if !(len > 0 && text.get_char(len - 1) == '$') {
        pattern.append("$");
        assert("$"@ =~= seq!['$']);
    }
    assert(pattern@ =~= anchored(text@));
    pattern
}

/// The pattern that `regex` stands for, if it is a regular expression.
pub fn path_pattern(regex: &String) -> (pattern: Option<String>)
    ensures
        match pattern {
            Some(pattern) => is_regex(anchored(trimmed(regex@))) && pattern@ == anchored(
                trimmed(regex@),
            ),
            None => !is_regex(anchored(trimmed(regex@))),
        },
{
    let pattern = anchor(trim(regex.as_str()));
    if compiles(&pattern) {
        Some(pattern)
    } else {
        None
    }
}

/// A pattern matches from the start of a path to its end.
pub proof fn law_patterns_are_anchored(regex: Seq<char>)
    ensures
        anchored(trimmed(regex)).len() > 0,
        anchored(trimmed(regex))[0] == '^',
        anchored(trimmed(regex)).last() == '$',
{
}

} // verus!
