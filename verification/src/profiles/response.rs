//! Conditions on responses.

use super::api;
use vstd::prelude::*;

verus! {

/// A condition on responses.
#[derive(Debug)]
pub enum ResponseMatch {
    All(Vec<ResponseMatch>),
    Any(Vec<ResponseMatch>),
    Not(Box<ResponseMatch>),
    /// The status is in a range.
    Status {
        min: u16,
        max: u16,
    },
}

/// Which responses are failures, or are none.
#[derive(Debug)]
pub struct ResponseClass {
    pub is_failure: bool,
    pub condition: ResponseMatch,
}

/// The content of a condition on responses.
pub enum ResponseMatchView {
    All(Seq<ResponseMatchView>),
    Any(Seq<ResponseMatchView>),
    Not(Box<ResponseMatchView>),
    Status { min: u16, max: u16 },
}

/// The content of a class of responses.
pub struct ResponseClassView {
    pub is_failure: bool,
    pub condition: ResponseMatchView,
}

/// The content of `condition`.
pub open spec fn response_view(condition: ResponseMatch) -> ResponseMatchView
    decreases condition,
{
    match condition {
        ResponseMatch::All(conditions) => ResponseMatchView::All(response_views(conditions@)),
        ResponseMatch::Any(conditions) => ResponseMatchView::Any(response_views(conditions@)),
        ResponseMatch::Not(condition) => ResponseMatchView::Not(
            Box::new(response_view(*condition)),
        ),
        ResponseMatch::Status { min, max } => ResponseMatchView::Status { min, max },
    }
}

/// The content of each of `conditions`.
pub open spec fn response_views(conditions: Seq<ResponseMatch>) -> Seq<ResponseMatchView>
    decreases conditions,
{
    if conditions.len() == 0 {
        Seq::empty()
    } else {
        response_views(conditions.drop_last()).push(response_view(conditions.last()))
    }
}

/// The content of `class`.
pub open spec fn class_view(class: ResponseClass) -> ResponseClassView {
    ResponseClassView { is_failure: class.is_failure, condition: response_view(class.condition) }
}

/// The content of each of `classes`.
pub open spec fn class_views(classes: Seq<ResponseClass>) -> Seq<ResponseClassView> {
    classes.map_values(|class: ResponseClass| class_view(class))
}

/// Whether `status` is a status code.
pub open spec fn is_status(status: int) -> bool {
    100 <= status < 1000
}

/// The low bits of `status`, which are taken for the status code.
pub open spec fn low_bits(status: u32) -> int {
    status as int % 0x1_0000
}

/// `http::StatusCode::from_u16` accepts the numbers of three digits, and keeps them.
#[verifier::external_body]
pub(crate) fn status_code(status: u16) -> (code: Option<u16>)
    ensures
        code == if is_status(status as int) {
            Some(status)
        } else {
            None
        },
{
    http::StatusCode::from_u16(status).ok().map(|code| code.as_u16())
}

/// The condition that a message means, if it means one.
pub open spec fn converted(orig: api::ResponseMatch) -> Option<ResponseMatchView>
    decreases orig,
{
    match orig.kind {
        None => None,
        Some(api::ResponseMatchKind::All(conditions)) => {
            let conditions = all_converted(conditions@);
            if conditions.len() == 0 {
                None
            } else {
                Some(ResponseMatchView::All(conditions))
            }
        },
        Some(api::ResponseMatchKind::Any(conditions)) => {
            let conditions = all_converted(conditions@);
            if conditions.len() == 0 {
                None
            } else {
                Some(ResponseMatchView::Any(conditions))
            }
        },
        Some(api::ResponseMatchKind::Not(condition)) => match converted(*condition) {
            Some(condition) => Some(ResponseMatchView::Not(Box::new(condition))),
            None => None,
        },
        Some(api::ResponseMatchKind::Status { min, max }) => if is_status(low_bits(min))
            && is_status(low_bits(max)) {
            Some(
                ResponseMatchView::Status { min: low_bits(min) as u16, max: low_bits(max) as u16 },
            )
        } else {
            None
        },
    }
}

/// The conditions that messages mean, without the messages that mean none.
pub open spec fn all_converted(origs: Seq<api::ResponseMatch>) -> Seq<ResponseMatchView>
    decreases origs,
{
    if origs.len() == 0 {
        Seq::empty()
    } else {
        let rest = all_converted(origs.drop_last());
        match converted(origs.last()) {
            Some(condition) => rest.push(condition),
            None => rest,
        }
    }
}

/// The content of an optional condition.
pub open spec fn optional_view(condition: Option<ResponseMatch>) -> Option<ResponseMatchView> {
    match condition {
        Some(condition) => Some(response_view(condition)),
        None => None,
    }
}

fn truncate(status: u32) -> (low: u16)
    ensures
        low == low_bits(status),
{
    let low: u16 = #[verifier::truncate]
    (status as u16);
    assert(status as u16 == status % 0x1_0000) by (bit_vector);
    low
}

/// The condition that a message means, if it means one.
pub fn convert_rsp_match(orig: &api::ResponseMatch) -> (condition: Option<ResponseMatch>)
    ensures
        optional_view(condition) == converted(*orig),
    decreases *orig,
{
    match &orig.kind {
        None => None,
        Some(api::ResponseMatchKind::All(origs)) => {
            let conditions = convert_rsp_matches(origs);
            if conditions.len() == 0 {
                return None;
            }
            Some(ResponseMatch::All(conditions))
        },
        Some(api::ResponseMatchKind::Any(origs)) => {
            let conditions = convert_rsp_matches(origs);
            if conditions.len() == 0 {
                return None;
            }
            Some(ResponseMatch::Any(conditions))
        },
        Some(api::ResponseMatchKind::Not(orig)) => match convert_rsp_match(orig) {
            Some(condition) => Some(ResponseMatch::Not(Box::new(condition))),
            None => None,
        },
        Some(api::ResponseMatchKind::Status { min, max }) => {
            match (status_code(truncate(*min)), status_code(truncate(*max))) {
                (Some(min), Some(max)) => Some(ResponseMatch::Status { min, max }),
                _ => None,
            }
        },
    }
}

fn convert_rsp_matches(origs: &Vec<api::ResponseMatch>) -> (conditions: Vec<ResponseMatch>)
    ensures
        response_views(conditions@) == all_converted(origs@),
        conditions@.len() == all_converted(origs@).len(),
    decreases *origs,
{
    let mut conditions: Vec<ResponseMatch> = Vec::new();
    let mut i: usize = 0;
    while i < origs.len()
        invariant
            i <= origs@.len(),
            response_views(conditions@) == all_converted(origs@.take(i as int)),
            conditions@.len() == all_converted(origs@.take(i as int)).len(),
        decreases origs@.len() - i,
    {
        assert(decreases_to!(*origs => origs@[i as int]));
        let ghost before = conditions@;
        assert(origs@.take(i + 1).drop_last() =~= origs@.take(i as int));
        assert(origs@.take(i + 1).last() == origs@[i as int]);
        if let Some(condition) = convert_rsp_match(&origs[i]) {
            conditions.push(condition);
            assert(conditions@.drop_last() =~= before);
        }
        i += 1;
    }
    assert(origs@.take(i as int) =~= origs@);
    conditions
}

/// The class that a message means, if it means one.
pub open spec fn converted_class(orig: api::ResponseClass) -> Option<ResponseClassView> {
    match orig.condition {
        None => None,
        Some(condition) => match converted(condition) {
            Some(condition) => Some(
                ResponseClassView { is_failure: orig.is_failure, condition },
            ),
            None => None,
        },
    }
}

/// The classes that messages mean, without the messages that mean none.
pub open spec fn converted_classes(origs: Seq<api::ResponseClass>) -> Seq<ResponseClassView>
    decreases origs.len(),
{
    if origs.len() == 0 {
        Seq::empty()
    } else {
        let rest = converted_classes(origs.drop_last());
        match converted_class(origs.last()) {
            Some(class) => rest.push(class),
            None => rest,
        }
    }
}

/// The content of an optional class.
pub open spec fn optional_class_view(class: Option<ResponseClass>) -> Option<ResponseClassView> {
    match class {
        Some(class) => Some(class_view(class)),
        None => None,
    }
}

/// The class that a message means, if it means one.
pub fn convert_rsp_class(orig: &api::ResponseClass) -> (class: Option<ResponseClass>)
    ensures
        optional_class_view(class) == converted_class(*orig),
{
    match &orig.condition {
        None => None,
        Some(condition) => match convert_rsp_match(condition) {
            Some(condition) => Some(ResponseClass { is_failure: orig.is_failure, condition }),
            None => None,
        },
    }
}

/// The classes that messages mean, without the messages that mean none.
pub fn convert_rsp_classes(origs: &Vec<api::ResponseClass>) -> (classes: Vec<ResponseClass>)
    ensures
        class_views(classes@) == converted_classes(origs@),
{
    let mut classes: Vec<ResponseClass> = Vec::new();
    let mut i: usize = 0;
    assert(class_views(classes@) =~= Seq::empty());
    while i < origs.len()
        invariant
            i <= origs@.len(),
            class_views(classes@) == converted_classes(origs@.take(i as int)),
        decreases origs@.len() - i,
    {
        let ghost before = classes@;
        assert(origs@.take(i + 1).drop_last() =~= origs@.take(i as int));
        if let Some(class) = convert_rsp_class(&origs[i]) {
            classes.push(class);
            assert(class_views(classes@) =~= class_views(before).push(class_view(class)));
        }
        i += 1;
    }
    assert(origs@.take(i as int) =~= origs@);
    classes
}

/// Whether every list in `condition` holds something and every status is a status code.
pub open spec fn sound(condition: ResponseMatchView) -> bool
    decreases condition,
{
    match condition {
        ResponseMatchView::All(conditions) => conditions.len() > 0 && all_sound(conditions),
        ResponseMatchView::Any(conditions) => conditions.len() > 0 && all_sound(conditions),
        ResponseMatchView::Not(condition) => sound(*condition),
        ResponseMatchView::Status { min, max } => is_status(min as int) && is_status(max as int),
    }
}

/// Whether all of `conditions` are sound.
pub open spec fn all_sound(conditions: Seq<ResponseMatchView>) -> bool
    decreases conditions,
{
    conditions.len() == 0 || (all_sound(conditions.drop_last()) && sound(conditions.last()))
}

/// A condition that comes of a message never has an empty list in it, nor a status that is
/// none.
pub proof fn law_conditions_are_sound(orig: api::ResponseMatch)
    ensures
        converted(orig) matches Some(condition) ==> sound(condition),
    decreases orig,
{
    match orig.kind {
        Some(api::ResponseMatchKind::All(conditions)) => {
            lemma_all_sound(conditions@);
        },
        Some(api::ResponseMatchKind::Any(conditions)) => {
            lemma_all_sound(conditions@);
        },
        Some(api::ResponseMatchKind::Not(condition)) => {
            law_conditions_are_sound(*condition);
        },
        _ => {},
    }
}

proof fn lemma_all_sound(origs: Seq<api::ResponseMatch>)
    ensures
        all_sound(all_converted(origs)),
    decreases origs,
{
    if origs.len() > 0 {
        lemma_all_sound(origs.drop_last());
        law_conditions_are_sound(origs.last());
        let rest = all_converted(origs.drop_last());
        if let Some(condition) = converted(origs.last()) {
            assert(rest.push(condition).drop_last() =~= rest);
        }
    }
}

} // verus!
