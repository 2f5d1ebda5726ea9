//! What the conditions of a profile say of requests.

use super::api::{self, MethodType};
use super::pattern::{self, anchor, path_pattern, trim};
use super::request::{self, convert_req_match, RequestMatch};
use vstd::prelude::*;

verus! {

/// Whether the code point `c` is white space.
pub open spec fn blank(c: char) -> bool {
    let code = c as int;
    ||| 9 <= code <= 13
    ||| code == 32
    ||| code == 133
    ||| code == 160
    ||| code == 5760
    ||| 8192 <= code <= 8202
    ||| 8232 <= code <= 8233
    ||| code == 8239
    ||| code == 8287
    ||| code == 12288
}

/// Whether `rest` stands at `start` in `text`, with nothing but white space around it.
pub open spec fn stands_alone(rest: Seq<char>, text: Seq<char>, start: int) -> bool {
    &&& 0 <= start
    &&& start + rest.len() <= text.len()
    &&& rest == text.subrange(start, start + rest.len())
    &&& forall|i: int| 0 <= i < start ==> blank(#[trigger] text[i])
    &&& forall|i: int| start + rest.len() <= i < text.len() ==> blank(#[trigger] text[i])
}

/// Whether `rest` is `text` without the white space around it.
pub open spec fn is_trimmed(rest: Seq<char>, text: Seq<char>) -> bool {
    &&& exists|start: int| #[trigger] stands_alone(rest, text, start)
    &&& rest.len() > 0 ==> !blank(rest[0]) && !blank(rest.last())
}

/// Whether `whole` is `text` from the start of a path to its end.
pub open spec fn is_anchored(whole: Seq<char>, text: Seq<char>) -> bool {
    let starts = text.len() > 0 && text[0] == '^';
    let ends = text.len() > 0 && text.last() == '$';
    let before: int = if starts {
        0
    } else {
        1
    };
    let after: int = if ends {
        0
    } else {
        1
    };
    &&& whole.len() == before + text.len() + after
    &&& whole[0] == '^'
    &&& whole.last() == '$'
    &&& whole.subrange(before, before + text.len()) == text
}

proof fn lemma_trimmed_start(text: Seq<char>) -> (start: int)
    ensures
        0 <= start <= text.len(),
        pattern::trimmed_start(text) == text.skip(start),
        forall|i: int| 0 <= i < start ==> blank(#[trigger] text[i]),
        start < text.len() ==> !blank(text[start]),
    decreases text.len(),
{
    if text.len() > 0 && pattern::is_space(text[0]) {
        let start = lemma_trimmed_start(text.drop_first()) + 1;
        assert(text.drop_first().skip(start - 1) =~= text.skip(start));
        assert forall|i: int| 0 <= i < start implies blank(#[trigger] text[i]) by {
            if i > 0 {
                assert(text.drop_first()[i - 1] == text[i]);
            }
        }
        start
    } else {
        assert(text.skip(0) =~= text);
        0
    }
}

proof fn lemma_trimmed_end(text: Seq<char>) -> (end: int)
    ensures
        0 <= end <= text.len(),
        pattern::trimmed_end(text) == text.take(end),
        forall|i: int| end <= i < text.len() ==> blank(#[trigger] text[i]),
        end > 0 ==> !blank(text[end - 1]),
    decreases text.len(),
{
    if text.len() > 0 && pattern::is_space(text.last()) {
        let end = lemma_trimmed_end(text.drop_last());
        assert(text.drop_last().take(end) =~= text.take(end));
        assert forall|i: int| end <= i < text.len() implies blank(#[trigger] text[i]) by {
            if i < text.len() - 1 {
                assert(text.drop_last()[i] == text[i]);
            }
        }
        end
    } else {
        assert(text.take(text.len() as int) =~= text);
        text.len() as int
    }
}

proof fn lemma_trimmed(text: Seq<char>)
    ensures
        is_trimmed(pattern::trimmed(text), text),
{
    let start = lemma_trimmed_start(text);
    let rest = text.skip(start);
    let end = lemma_trimmed_end(rest);
    let kept = rest.take(end);
    assert(kept =~= text.subrange(start, start + kept.len()));
    assert forall|i: int| start + kept.len() <= i < text.len() implies blank(#[trigger] text[i]) by {
        assert(rest[i - start] == text[i]);
    }
    assert(stands_alone(kept, text, start));
}

proof fn lemma_anchored(text: Seq<char>)
    ensures
        is_anchored(pattern::anchored(text), text),
{
    let whole = pattern::anchored(text);
    let before: int = if text.len() > 0 && text[0] == '^' {
        0
    } else {
        1
    };
    assert(whole.subrange(before, before + text.len()) =~= text);
}

/// White space around a text goes, and nothing else.
pub proof fn law_texts_are_trimmed(text: &str, rest: &str)
    requires
        call_ensures(trim, (text,), rest),
    ensures
        is_trimmed(rest@, text@),
{
    lemma_trimmed(text@);
}

/// A pattern holds the text that it is made of, between one `^` and one `$` at least.
pub proof fn law_patterns_hold_the_text(text: &str, whole: String)
    requires
        call_ensures(anchor, (text,), whole),
    ensures
        is_anchored(whole@, text@),
{
    lemma_anchored(text@);
}

/// Whether `whole` is the pattern for whole paths that `regex` stands for.
pub open spec fn is_path_pattern(whole: Seq<char>, regex: Seq<char>) -> bool {
    exists|text: Seq<char>| is_trimmed(text, regex) && #[trigger] is_anchored(whole, text)
}

proof fn lemma_path_pattern(regex: Seq<char>)
    ensures
        is_path_pattern(pattern::anchored(pattern::trimmed(regex)), regex),
{
    lemma_trimmed(regex);
    lemma_anchored(pattern::trimmed(regex));
}

/// A path is matched as a whole by what the message says. What is no regular expression is
/// refused, and nothing else.
pub proof fn law_path_patterns(regex: String, made: Option<String>)
    requires
        call_ensures(path_pattern, (&regex,), made),
    ensures
        made matches Some(whole) ==> is_path_pattern(whole@, regex@) && pattern::is_regex(whole@),
        made is None ==> exists|whole: Seq<char>|
            is_path_pattern(whole, regex@) && !(#[trigger] pattern::is_regex(whole)),
{
    lemma_path_pattern(regex@);
}

/// The methods that have a number, from zero on.
pub open spec fn numbered_methods() -> Seq<Seq<char>> {
    seq![
        "GET"@,
        "POST"@,
        "PUT"@,
        "DELETE"@,
        "PATCH"@,
        "OPTIONS"@,
        "CONNECT"@,
        "HEAD"@,
        "TRACE"@,
    ]
}

/// Whether `kind` is a method that requests can have.
pub open spec fn is_method(kind: MethodType) -> bool {
    match kind {
        MethodType::Registered(number) => 0 <= number < 9,
        MethodType::Unregistered(name) => name@.len() > 0 && forall|i: int|
            0 <= i < name@.len() ==> #[trigger] request::is_method_char(name@[i]),
    }
}

/// Whether `name` is the name of the method `kind`.
pub open spec fn is_name_of(name: Seq<char>, kind: MethodType) -> bool {
    match kind {
        MethodType::Registered(number) => 0 <= number < 9 && name == numbered_methods()[number
            as int],
        MethodType::Unregistered(given) => name == given@,
    }
}

/// Whether a message about requests says nothing: it has no kind, no method, or what is negated
/// in it says nothing.
pub open spec fn says_nothing(orig: api::RequestMatch) -> bool
    decreases orig,
{
    match orig.kind {
        None => true,
        Some(api::RequestMatchKind::All(_)) | Some(api::RequestMatchKind::Any(_)) => false,
        Some(api::RequestMatchKind::Not(orig)) => says_nothing(*orig),
        Some(api::RequestMatchKind::Path(regex)) => forall|whole: Seq<char>|
            is_path_pattern(whole, regex@) ==> !(#[trigger] pattern::is_regex(whole)),
        Some(api::RequestMatchKind::Method(None)) => true,
        Some(api::RequestMatchKind::Method(Some(kind))) => !is_method(kind),
    }
}

/// Whether `condition` is what a message says of requests.
pub open spec fn says(orig: api::RequestMatch, condition: RequestMatch) -> bool
    decreases orig,
{
    match orig.kind {
        None => false,
        Some(api::RequestMatchKind::All(origs)) => {
            &&& condition matches RequestMatch::All(conditions)
            &&& all_say(origs@, conditions@)
        },
        Some(api::RequestMatchKind::Any(origs)) => {
            &&& condition matches RequestMatch::Any(conditions)
            &&& all_say(origs@, conditions@)
        },
        Some(api::RequestMatchKind::Not(orig)) => {
            &&& condition matches RequestMatch::Not(condition)
            &&& says(*orig, *condition)
        },
        Some(api::RequestMatchKind::Path(regex)) => {
            &&& condition matches RequestMatch::Path(whole)
            &&& is_path_pattern(whole@, regex@)
            &&& pattern::is_regex(whole@)
        },
        Some(api::RequestMatchKind::Method(kind)) => {
            &&& condition matches RequestMatch::Method(name)
            &&& kind matches Some(kind)
            &&& is_method(kind)
            &&& is_name_of(name@, kind)
        },
    }
}

/// Whether `conditions` are, one by one, what the messages that say something say.
pub open spec fn all_say(origs: Seq<api::RequestMatch>, conditions: Seq<RequestMatch>) -> bool
    decreases origs,
{
    if origs.len() == 0 {
        conditions.len() == 0
    } else if says_nothing(origs.last()) {
        all_say(origs.drop_last(), conditions)
    } else {
        &&& conditions.len() > 0
        &&& says(origs.last(), conditions.last())
        &&& all_say(origs.drop_last(), conditions.drop_last())
    }
}

/// Two patterns for the same text are the same.
proof fn lemma_one_pattern(a: Seq<char>, b: Seq<char>, regex: Seq<char>)
    requires
        is_path_pattern(a, regex),
        is_path_pattern(b, regex),
    ensures
        a == b,
{
    let s = choose|text: Seq<char>| is_trimmed(text, regex) && #[trigger] is_anchored(a, text);
    let t = choose|text: Seq<char>| is_trimmed(text, regex) && #[trigger] is_anchored(b, text);
    let i = choose|start: int| #[trigger] stands_alone(s, regex, start);
    let j = choose|start: int| #[trigger] stands_alone(t, regex, start);
    if s.len() > 0 {
        assert(s[0] == regex[i]);
        assert(s.last() == regex[i + s.len() - 1]);
    }
    if t.len() > 0 {
        assert(t[0] == regex[j]);
        assert(t.last() == regex[j + t.len() - 1]);
    }
    assert(s =~= t);
    let before: int = if s.len() > 0 && s[0] == '^' {
        0
    } else {
        1
    };
    assert forall|k: int| 0 <= k < a.len() implies a[k] == b[k] by {
        if before <= k < before + s.len() {
            assert(a[k] == a.subrange(before, before + s.len())[k - before]);
            assert(b[k] == b.subrange(before, before + s.len())[k - before]);
        }
    }
    assert(a =~= b);
}

proof fn lemma_says_nothing(orig: api::RequestMatch)
    ensures
        says_nothing(orig) <==> request::converted(orig) is None,
    decreases orig,
{
    match orig.kind {
        Some(api::RequestMatchKind::Not(inner)) => lemma_says_nothing(*inner),
        Some(api::RequestMatchKind::Path(regex)) => {
            let text = pattern::anchored(pattern::trimmed(regex@));
            lemma_path_pattern(regex@);
            assert forall|whole: Seq<char>|
                is_path_pattern(whole, regex@) implies whole == text by {
                lemma_one_pattern(whole, text, regex@);
            }
            if pattern::is_regex(text) {
                assert(is_path_pattern(text, regex@));
            }
        },
        Some(api::RequestMatchKind::Method(Some(MethodType::Unregistered(name)))) => {
            let kind = MethodType::Unregistered(name);
            if is_method(kind) {
                assert(forall|i: int|
                    0 <= i < name@.len() ==> request::is_method_char(#[trigger] name@[i]));
            }
        },
        _ => {},
    }
}

proof fn lemma_says(orig: api::RequestMatch, condition: RequestMatch)
    requires
        request::converted(orig) == Some(request::request_view(condition)),
    ensures
        says(orig, condition),
    decreases orig,
{
    lemma_says_nothing(orig);
    match orig.kind {
        Some(api::RequestMatchKind::All(origs)) => {
            assert(condition is All);
            lemma_all_say(origs@, condition->All_0@);
        },
        Some(api::RequestMatchKind::Any(origs)) => {
            assert(condition is Any);
            lemma_all_say(origs@, condition->Any_0@);
        },
        Some(api::RequestMatchKind::Not(inner)) => {
            assert(condition is Not);
            lemma_says(*inner, *condition->Not_0);
        },
        Some(api::RequestMatchKind::Path(regex)) => {
            lemma_path_pattern(regex@);
        },
        _ => {},
    }
}

proof fn lemma_all_say(origs: Seq<api::RequestMatch>, conditions: Seq<RequestMatch>)
    requires
        request::all_converted(origs) == request::request_views(conditions),
    ensures
        all_say(origs, conditions),
    decreases origs,
{
    lemma_views_len(conditions);
    if origs.len() > 0 {
        let last = origs.last();
        lemma_says_nothing(last);
        let rest = request::all_converted(origs.drop_last());
        if says_nothing(last) {
            lemma_all_say(origs.drop_last(), conditions);
        } else {
            let all = request::all_converted(origs);
            assert(all.drop_last() =~= rest);
            assert(all.last() == request::converted(last)->0);
            assert(conditions.len() > 0);
            assert(request::request_views(conditions).drop_last() =~= request::request_views(
                conditions.drop_last(),
            ));
            assert(request::request_views(conditions).last() == request::request_view(
                conditions.last(),
            ));
            lemma_says(last, conditions.last());
            lemma_all_say(origs.drop_last(), conditions.drop_last());
        }
    }
}

proof fn lemma_views_len(conditions: Seq<RequestMatch>)
    ensures
        request::request_views(conditions).len() == conditions.len(),
    decreases conditions.len(),
{
    if conditions.len() > 0 {
        lemma_views_len(conditions.drop_last());
    }
}

/// What a condition on requests comes of.
pub(crate) proof fn lemma_condition(orig: api::RequestMatch, condition: Option<RequestMatch>)
    requires
        request::optional_view(condition) == request::converted(orig),
    ensures
        condition is None <==> says_nothing(orig),
        condition matches Some(condition) ==> says(orig, condition),
{
    lemma_says_nothing(orig);
    if let Some(condition) = condition {
        lemma_says(orig, condition);
    }
}

/// A message about requests becomes the condition that it says: of the same kind, with the same
/// paths and methods, and without the parts that say nothing. One that says nothing becomes
/// none.
pub proof fn law_request_conditions_are_kept(
    orig: api::RequestMatch,
    condition: Option<RequestMatch>,
)
    requires
        call_ensures(convert_req_match, (&orig,), condition),
    ensures
        condition is None <==> says_nothing(orig),
        condition matches Some(condition) ==> says(orig, condition),
{
    lemma_condition(orig, condition);
}

} // verus!
