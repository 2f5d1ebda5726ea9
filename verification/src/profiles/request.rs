//! Conditions on requests.

use super::api::{self, MethodType};
use super::pattern::{self, path_pattern};
use crate::text;
use linkerd2_proxy_api::http_types::http_method;
use std::convert::TryFrom;
use vstd::prelude::*;

verus! {

/// A condition on requests.
#[derive(Debug)]
pub enum RequestMatch {
    All(Vec<RequestMatch>),
    Any(Vec<RequestMatch>),
    Not(Box<RequestMatch>),
    /// The path matches a regular expression.
    Path(String),
    Method(String),
}

/// The content of a condition on requests.
pub enum RequestMatchView {
    All(Seq<RequestMatchView>),
    Any(Seq<RequestMatchView>),
    Not(Box<RequestMatchView>),
    Path(Seq<char>),
    Method(Seq<char>),
}

/// The content of `condition`.
pub open spec fn request_view(condition: RequestMatch) -> RequestMatchView
    decreases condition,
{
    match condition {
        RequestMatch::All(conditions) => RequestMatchView::All(request_views(conditions@)),
        RequestMatch::Any(conditions) => RequestMatchView::Any(request_views(conditions@)),
        RequestMatch::Not(condition) => RequestMatchView::Not(Box::new(request_view(*condition))),
        RequestMatch::Path(pattern) => RequestMatchView::Path(pattern@),
        RequestMatch::Method(method) => RequestMatchView::Method(method@),
    }
}

/// The content of each of `conditions`.
pub open spec fn request_views(conditions: Seq<RequestMatch>) -> Seq<RequestMatchView>
    decreases conditions,
{
    if conditions.len() == 0 {
        Seq::empty()
    } else {
        request_views(conditions.drop_last()).push(request_view(conditions.last()))
    }
}

/// Whether `c` may stand in the name of a method.
pub open spec fn is_method_char(c: char) -> bool {
    ||| '0' <= c <= '9'
    ||| 'A' <= c <= 'Z'
    ||| 'a' <= c <= 'z'
    ||| c == '!'
    ||| c == '*'
    ||| c == '+'
    ||| c == '-'
    ||| c == '.'
    ||| c == '^'
    ||| c == '_'
    ||| c == '`'
    ||| c == '|'
    ||| c == '~'
}

/// The method that has the number `number`.
pub open spec fn registered(number: i32) -> Option<Seq<char>> {
    match number {
        0 => Some("GET"@),
        1 => Some("POST"@),
        2 => Some("PUT"@),
        3 => Some("DELETE"@),
        4 => Some("PATCH"@),
        5 => Some("OPTIONS"@),
        6 => Some("CONNECT"@),
        7 => Some("HEAD"@),
        8 => Some("TRACE"@),
        _ => None,
    }
}

/// The name of the method that `kind` means.
pub open spec fn method_name(kind: MethodType) -> Option<Seq<char>> {
    match kind {
        MethodType::Registered(number) => registered(number),
        MethodType::Unregistered(name) => if name@.len() > 0 && (forall|i: int|
            0 <= i < name@.len() ==> is_method_char(#[trigger] name@[i])) {
            Some(name@)
        } else {
            None
        },
    }
}

/// `TryFrom<http_method::Type>` of the `linkerd2-proxy-api` crate for `http::Method` knows nine
/// methods by number, and takes any other that has a name made of the characters that the
/// `http` crate allows.
#[verifier::external_body]
pub(crate) fn http_method(kind: &MethodType) -> (name: Option<String>)
    ensures
        text::text_view(name) == method_name(*kind),
{
    let kind = match kind {
        MethodType::Registered(number) => http_method::Type::Registered(*number),
        MethodType::Unregistered(name) => http_method::Type::Unregistered(name.clone()),
    };
    http::Method::try_from(kind).ok().map(|method| method.as_str().to_owned())
}

/// The condition that a message means, if it means one.
pub open spec fn converted(orig: api::RequestMatch) -> Option<RequestMatchView>
    decreases orig,
{
    match orig.kind {
        None => None,
        Some(api::RequestMatchKind::All(conditions)) => Some(
            RequestMatchView::All(all_converted(conditions@)),
        ),
        Some(api::RequestMatchKind::Any(conditions)) => Some(
            RequestMatchView::Any(all_converted(conditions@)),
        ),
        Some(api::RequestMatchKind::Not(condition)) => match converted(*condition) {
            Some(condition) => Some(RequestMatchView::Not(Box::new(condition))),
            None => None,
        },
        Some(api::RequestMatchKind::Path(regex)) => {
            let text = pattern::anchored(pattern::trimmed(regex@));
            if pattern::is_regex(text) {
                Some(RequestMatchView::Path(text))
            } else {
                None
            }
        },
        Some(api::RequestMatchKind::Method(None)) => None,
        Some(api::RequestMatchKind::Method(Some(kind))) => match method_name(kind) {
            Some(name) => Some(RequestMatchView::Method(name)),
            None => None,
        },
    }
}

/// The conditions that messages mean, without the messages that mean none.
pub open spec fn all_converted(origs: Seq<api::RequestMatch>) -> Seq<RequestMatchView>
    decreases origs,
{
    if origs.len() == 0 {
        Seq::empty()
    } else {
        let rest = all_converted(origs.drop_last());
        match converted(origs.last()) {
            Some(condition) => rest.push(condition),
            None => rest,
        }
    }
}

/// The content of an optional condition.
pub open spec fn optional_view(condition: Option<RequestMatch>) -> Option<RequestMatchView> {
    match condition {
        Some(condition) => Some(request_view(condition)),
        None => None,
    }
}

/// The condition that a message means, if it means one.
pub fn convert_req_match(orig: &api::RequestMatch) -> (condition: Option<RequestMatch>)
    ensures
        optional_view(condition) == converted(*orig),
    decreases *orig,
{
    match &orig.kind {
        None => None,
        Some(api::RequestMatchKind::All(origs)) => Some(
            RequestMatch::All(convert_req_matches(origs)),
        ),
        Some(api::RequestMatchKind::Any(origs)) => Some(
            RequestMatch::Any(convert_req_matches(origs)),
        ),
        Some(api::RequestMatchKind::Not(orig)) => match convert_req_match(orig) {
            Some(condition) => Some(RequestMatch::Not(Box::new(condition))),
            None => None,
        },
        Some(api::RequestMatchKind::Path(regex)) => match path_pattern(regex) {
            Some(pattern) => Some(RequestMatch::Path(pattern)),
            None => None,
        },
        Some(api::RequestMatchKind::Method(None)) => None,
        Some(api::RequestMatchKind::Method(Some(kind))) => match http_method(kind) {
            Some(name) => Some(RequestMatch::Method(name)),
            None => None,
        },
    }
}

fn convert_req_matches(origs: &Vec<api::RequestMatch>) -> (conditions: Vec<RequestMatch>)
    ensures
        request_views(conditions@) == all_converted(origs@),
    decreases *origs,
{
    let mut conditions: Vec<RequestMatch> = Vec::new();
    let mut i: usize = 0;
    while i < origs.len()
        invariant
            i <= origs@.len(),
            request_views(conditions@) == all_converted(origs@.take(i as int)),
        decreases origs@.len() - i,
    {
        assert(decreases_to!(*origs => origs@[i as int]));
        let ghost before = conditions@;
        assert(origs@.take(i + 1).drop_last() =~= origs@.take(i as int));
        assert(origs@.take(i + 1).last() == origs@[i as int]);
        if let Some(condition) = convert_req_match(&origs[i]) {
            conditions.push(condition);
            assert(conditions@.drop_last() =~= before);
        }
        i += 1;
    }
    assert(origs@.take(i as int) =~= origs@);
    conditions
}

} // verus!
