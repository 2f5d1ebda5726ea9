//! What the conditions of a profile say of responses.

use super::api;
use super::response::{
    self, convert_rsp_class, convert_rsp_classes, convert_rsp_match, ResponseClass, ResponseMatch,
};
use vstd::prelude::*;

verus! {

/// Whether a message about responses says nothing: it has no kind, a status in it is none, or
/// all that is in it says nothing.
pub open spec fn says_nothing(orig: api::ResponseMatch) -> bool
    decreases orig,
{
    match orig.kind {
        None => true,
        Some(api::ResponseMatchKind::All(origs)) | Some(api::ResponseMatchKind::Any(origs)) =>
        all_say_nothing(origs@),
        Some(api::ResponseMatchKind::Not(orig)) => says_nothing(*orig),
        Some(api::ResponseMatchKind::Status { min, max }) => !(100 <= min as int % 0x1_0000 <= 999)
            || !(100 <= max as int % 0x1_0000 <= 999),
    }
}

/// Whether none of the messages about responses says anything.
pub open spec fn all_say_nothing(origs: Seq<api::ResponseMatch>) -> bool
    decreases origs,
{
    origs.len() == 0 || (says_nothing(origs.last()) && all_say_nothing(origs.drop_last()))
}

/// Whether `condition` is what a message says of responses: of the same kind, with the same
/// statuses in it.
pub open spec fn says(orig: api::ResponseMatch, condition: ResponseMatch) -> bool
    decreases orig,
{
    match orig.kind {
        None => false,
        Some(api::ResponseMatchKind::All(origs)) => {
            &&& condition matches ResponseMatch::All(conditions)
            &&& conditions@.len() > 0
            &&& all_say(origs@, conditions@)
        },
        Some(api::ResponseMatchKind::Any(origs)) => {
            &&& condition matches ResponseMatch::Any(conditions)
            &&& conditions@.len() > 0
            &&& all_say(origs@, conditions@)
        },
        Some(api::ResponseMatchKind::Not(orig)) => {
            &&& condition matches ResponseMatch::Not(condition)
            &&& says(*orig, *condition)
        },
        Some(api::ResponseMatchKind::Status { min, max }) => {
            &&& condition matches ResponseMatch::Status { min: least, max: greatest }
            &&& least as int == min as int % 0x1_0000
            &&& greatest as int == max as int % 0x1_0000
        },
    }
}

/// Whether `conditions` are, one by one, what the messages that say something say.
pub open spec fn all_say(origs: Seq<api::ResponseMatch>, conditions: Seq<ResponseMatch>) -> bool
    decreases origs,
{
    if origs.len() == 0 {
        conditions.len() == 0
    } else if says_nothing(origs.last()) {
        all_say(origs.drop_last(), conditions)
    } else {
        &&& conditions.len() > 0
        &&& says(origs.last(), conditions.last())
        &&& all_say(origs.drop_last(), conditions.drop_last())
    }
}

proof fn lemma_says(orig: api::ResponseMatch, condition: ResponseMatch)
    requires
        response::converted(orig) == Some(response::response_view(condition)),
    ensures
        says(orig, condition),
    decreases orig,
{
    match orig.kind {
        Some(api::ResponseMatchKind::All(origs)) => {
            assert(condition is All);
            let conditions = condition->All_0;
            lemma_all_say(origs@, conditions@);
        },
        Some(api::ResponseMatchKind::Any(origs)) => {
            assert(condition is Any);
            let conditions = condition->Any_0;
            lemma_all_say(origs@, conditions@);
        },
        Some(api::ResponseMatchKind::Not(inner)) => {
            assert(condition is Not);
            lemma_says(*inner, *condition->Not_0);
        },
        _ => {},
    }
}

proof fn lemma_all_say(origs: Seq<api::ResponseMatch>, conditions: Seq<ResponseMatch>)
    requires
        response::all_converted(origs) == response::response_views(conditions),
    ensures
        all_say(origs, conditions),
        conditions.len() == response::all_converted(origs).len(),
    decreases origs,
{
    lemma_views_len(conditions);
    if origs.len() > 0 {
        let last = origs.last();
        lemma_says_nothing(last);
        let rest = response::all_converted(origs.drop_last());
        if says_nothing(last) {
            lemma_all_say(origs.drop_last(), conditions);
        } else {
            let all = response::all_converted(origs);
            assert(all.drop_last() =~= rest);
            assert(conditions.len() > 0);
            assert(response::response_views(conditions).drop_last() =~= response::response_views(
                conditions.drop_last(),
            ));
            assert(all.last() == response::converted(last)->0);
            assert(response::response_views(conditions).last() == response::response_view(
                conditions.last(),
            ));
            lemma_says(last, conditions.last());
            lemma_all_say(origs.drop_last(), conditions.drop_last());
        }
    }
}

proof fn lemma_views_len(conditions: Seq<ResponseMatch>)
    ensures
        response::response_views(conditions).len() == conditions.len(),
    decreases conditions.len(),
{
    if conditions.len() > 0 {
        lemma_views_len(conditions.drop_last());
    }
}

proof fn lemma_says_nothing(orig: api::ResponseMatch)
    ensures
        says_nothing(orig) <==> response::converted(orig) is None,
    decreases orig,
{
    match orig.kind {
        Some(api::ResponseMatchKind::All(origs)) => lemma_all_say_nothing(origs@),
        Some(api::ResponseMatchKind::Any(origs)) => lemma_all_say_nothing(origs@),
        Some(api::ResponseMatchKind::Not(inner)) => lemma_says_nothing(*inner),
        _ => {},
    }
}

proof fn lemma_all_say_nothing(origs: Seq<api::ResponseMatch>)
    ensures
        all_say_nothing(origs) <==> response::all_converted(origs).len() == 0,
    decreases origs,
{
    if origs.len() > 0 {
        lemma_says_nothing(origs.last());
        lemma_all_say_nothing(origs.drop_last());
    }
}

/// A message about responses becomes the condition that it says: of the same kind, with the
/// same statuses, and without the parts that say nothing. One that says nothing becomes none.
pub proof fn law_response_conditions_are_kept(
    orig: api::ResponseMatch,
    condition: Option<ResponseMatch>,
)
    requires
        call_ensures(convert_rsp_match, (&orig,), condition),
    ensures
        condition is None <==> says_nothing(orig),
        condition matches Some(condition) ==> says(orig, condition),
{
    lemma_says_nothing(orig);
    if let Some(condition) = condition {
        lemma_says(orig, condition);
    }
}

/// Whether a response with the status `code` meets `condition`.
pub open spec fn meets(code: u16, condition: ResponseMatch) -> bool
    decreases condition,
{
    match condition {
        ResponseMatch::All(conditions) => forall|i: int|
            0 <= i < conditions@.len() ==> meets(code, #[trigger] conditions@[i]),
        ResponseMatch::Any(conditions) => exists|i: int|
            0 <= i < conditions@.len() && meets(code, #[trigger] conditions@[i]),
        ResponseMatch::Not(condition) => !meets(code, *condition),
        ResponseMatch::Status { min, max } => min <= code <= max,
    }
}

/// Whether a response with the status `code` is one that a message speaks of. What says nothing
/// does not count.
pub open spec fn is_meant(code: u16, orig: api::ResponseMatch) -> bool
    decreases orig,
{
    match orig.kind {
        None => false,
        Some(api::ResponseMatchKind::All(origs)) => forall|i: int|
            0 <= i < origs@.len() && !says_nothing(origs@[i]) ==> is_meant(
                code,
                #[trigger] origs@[i],
            ),
        Some(api::ResponseMatchKind::Any(origs)) => exists|i: int|
            0 <= i < origs@.len() && !says_nothing(origs@[i]) && is_meant(
                code,
                #[trigger] origs@[i],
            ),
        Some(api::ResponseMatchKind::Not(orig)) => !is_meant(code, *orig),
        Some(api::ResponseMatchKind::Status { min, max }) => min as int % 0x1_0000 <= code <= max
            as int % 0x1_0000,
    }
}

proof fn lemma_meets(code: u16, orig: api::ResponseMatch, condition: ResponseMatch)
    requires
        says(orig, condition),
    ensures
        meets(code, condition) <==> is_meant(code, orig),
    decreases orig,
{
    match orig.kind {
        Some(api::ResponseMatchKind::All(origs)) => {
            lemma_all_meet(code, origs@, condition->All_0@);
        },
        Some(api::ResponseMatchKind::Any(origs)) => {
            lemma_all_meet(code, origs@, condition->Any_0@);
        },
        Some(api::ResponseMatchKind::Not(inner)) => {
            lemma_meets(code, *inner, *condition->Not_0);
        },
        _ => {},
    }
}

proof fn lemma_all_meet(
    code: u16,
    origs: Seq<api::ResponseMatch>,
    conditions: Seq<ResponseMatch>,
)
    requires
        all_say(origs, conditions),
    ensures
        (forall|i: int| 0 <= i < conditions.len() ==> meets(code, #[trigger] conditions[i])) <==> (
        forall|i: int|
            0 <= i < origs.len() && !says_nothing(origs[i]) ==> is_meant(
                code,
                #[trigger] origs[i],
            )),
        (exists|i: int| 0 <= i < conditions.len() && meets(code, #[trigger] conditions[i])) <==> (
        exists|i: int|
            0 <= i < origs.len() && !says_nothing(origs[i]) && is_meant(
                code,
                #[trigger] origs[i],
            )),
    decreases origs,
{
    if origs.len() > 0 {
        let last = origs.last();
        let rest = origs.drop_last();
        assert(forall|i: int| 0 <= i < rest.len() ==> #[trigger] rest[i] == origs[i]);
        assert(forall|i: int|
            0 <= i < origs.len() ==> (#[trigger] origs[i] == last || origs[i] == rest[i]));
        assert(origs[origs.len() - 1] == last);
        if says_nothing(last) {
            lemma_all_meet(code, rest, conditions);
        } else {
            let fewer = conditions.drop_last();
            assert(forall|i: int| 0 <= i < fewer.len() ==> #[trigger] fewer[i] == conditions[i]);
            assert(conditions[conditions.len() - 1] == conditions.last());
            lemma_meets(code, last, conditions.last());
            lemma_all_meet(code, rest, fewer);
            assert(forall|i: int|
                0 <= i < conditions.len() - 1 ==> meets(code, #[trigger] conditions[i]) == meets(
                    code,
                    fewer[i],
                ));
        }
        assert(forall|i: int|
            0 <= i < origs.len() - 1 ==> is_meant(code, #[trigger] origs[i]) == is_meant(
                code,
                rest[i],
            ));
    }
}

/// A response meets a condition exactly if the message that the condition comes of speaks of
/// it.
pub proof fn law_conditions_are_met(
    orig: api::ResponseMatch,
    condition: Option<ResponseMatch>,
    code: u16,
)
    requires
        call_ensures(convert_rsp_match, (&orig,), condition),
    ensures
        condition matches Some(condition) ==> (meets(code, condition) <==> is_meant(code, orig)),
{
    if let Some(condition) = condition {
        lemma_says(orig, condition);
        lemma_meets(code, orig, condition);
    }
}

/// Whether a message says something of responses.
pub open spec fn has_meaning(orig: api::ResponseClass) -> bool {
    orig.condition matches Some(condition) && !says_nothing(condition)
}

/// Whether `class` is what a message says: failures are failures, and the condition is kept.
pub open spec fn class_says(orig: api::ResponseClass, class: ResponseClass) -> bool {
    &&& class.is_failure == orig.is_failure
    &&& orig.condition matches Some(condition)
    &&& says(condition, class.condition)
}

/// A message about a class of responses says whether they are failures, and so does the class
/// that it becomes. It becomes one exactly if its condition says something.
pub proof fn law_failures_stay_failures(orig: api::ResponseClass, class: Option<ResponseClass>)
    requires
        call_ensures(convert_rsp_class, (&orig,), class),
    ensures
        class is Some <==> has_meaning(orig),
        class matches Some(class) ==> class.is_failure == orig.is_failure && class_says(
            orig,
            class,
        ),
{
    if let Some(condition) = orig.condition {
        lemma_says_nothing(condition);
        if let Some(class) = class {
            lemma_says(condition, class.condition);
        }
    }
}

pub(crate) proof fn lemma_classes(origs: Seq<api::ResponseClass>, classes: Seq<ResponseClass>)
    requires
        response::class_views(classes) == response::converted_classes(origs),
    ensures
        ({
            let kept = origs.filter(|orig: api::ResponseClass| has_meaning(orig));
            &&& classes.len() == kept.len()
            &&& forall|i: int|
                0 <= i < classes.len() ==> class_says(kept[i], #[trigger] classes[i])
        }),
    decreases origs.len(),
{
    reveal(Seq::filter);
    let views = response::class_views(classes);
    assert(views.len() == classes.len());
    if origs.len() > 0 {
        let last = origs.last();
        let rest = origs.drop_last();
        if let Some(condition) = last.condition {
            lemma_says_nothing(condition);
        }
        if has_meaning(last) {
            let shorter = classes.drop_last();
            assert(classes.len() > 0);
            assert(response::class_views(shorter) =~= views.drop_last());
            assert(views.drop_last() =~= response::converted_classes(rest));
            lemma_classes(rest, shorter);
            assert(views.last() == response::class_view(classes.last()));
            lemma_says(last.condition->0, classes.last().condition);
            assert forall|i: int| 0 <= i < classes.len() implies class_says(
                origs.filter(|orig: api::ResponseClass| has_meaning(orig))[i],
                #[trigger] classes[i],
            ) by {
                if i < classes.len() - 1 {
                    assert(shorter[i] == classes[i]);
                }
            }
        } else {
            lemma_classes(rest, classes);
        }
    }
}

/// The messages that say something become classes, in their order, and failures stay failures.
pub proof fn law_classes_keep_their_order(
    origs: Vec<api::ResponseClass>,
    classes: Vec<ResponseClass>,
)
    requires
        call_ensures(convert_rsp_classes, (&origs,), classes),
    ensures
        ({
            let kept = origs@.filter(|orig: api::ResponseClass| has_meaning(orig));
            &&& classes@.len() == kept.len()
            &&& forall|i: int|
                0 <= i < classes@.len() ==> #[trigger] classes@[i].is_failure
                    == kept[i].is_failure && class_says(kept[i], classes@[i])
        }),
{
    lemma_classes(origs@, classes@);
}

} // verus!
