//! What the generated procedure does when it runs, as far as the plan
//! decides it: the order of the steps, which of them may fail, and what
//! becomes of each field.

use vstd::prelude::*;
use crate::fields::{FieldAction, FieldFragmentView};
use crate::synthesis::GeneratedImplementationView;

verus! {

/// How a run of the generated procedure ends: the fields of the frozen value
/// in order, or the failure that ended the run, and the indices of the
/// fields that the run tried to freeze, in the order of the attempts.
pub struct Outcome<V, E> {
    pub result: Result<Seq<V>, E>,
    pub attempts: Seq<int>,
}

/// What the procedure makes of the value of one field: the value itself for
/// an identity field, else whatever freezing the value gives.
pub open spec fn field_step<V, E>(
    fragment: FieldFragmentView,
    value: V,
    freeze: spec_fn(V) -> Result<V, E>,
) -> Result<V, E> {
    match fragment.action {
        FieldAction::Identity => Ok(value),
        FieldAction::Freeze => freeze(value),
    }
}

/// The run over the first `count` fields, in declaration order. The first
/// failure ends it.
pub open spec fn run_fields<V, E>(
    fragments: Seq<FieldFragmentView>,
    input: Seq<V>,
    freeze: spec_fn(V) -> Result<V, E>,
    count: int,
) -> Outcome<V, E>
    decreases count,
{
    if count <= 0 {
        Outcome { result: Ok(Seq::empty()), attempts: Seq::empty() }
    } else {
        let before = run_fields(fragments, input, freeze, count - 1);
        match before.result {
            Err(_) => before,
            Ok(values) => {
                let attempts = if fragments[count - 1].action is Freeze {
                    before.attempts.push(count - 1)
                } else {
                    before.attempts
                };
                match field_step(fragments[count - 1], input[count - 1], freeze) {
                    Ok(value) => Outcome { result: Ok(values.push(value)), attempts },
                    Err(failure) => Outcome { result: Err(failure), attempts },
                }
            },
        }
    }
}

/// A run of the generated procedure on a value with the fields `input`.
/// `verdict` is the failure that the validator finds in the value, if any,
/// and `freeze` is what freezing a field's value gives. The validator, where
/// one is configured, is asked before any field is touched.
pub open spec fn run<V, E>(
    implementation: GeneratedImplementationView,
    input: Seq<V>,
    verdict: Option<E>,
    freeze: spec_fn(V) -> Result<V, E>,
) -> Outcome<V, E> {
    if implementation.validator is Some && verdict is Some {
        Outcome { result: Err(verdict->0), attempts: Seq::empty() }
    } else {
        let fragments = implementation.body.fragments();
        run_fields(fragments, input, freeze, fragments.len() as int)
    }
}

/// The run over the fields tries to freeze only fields that the plan
/// freezes, each at most up to the first failure; where it succeeds, every
/// field has the value of its step; where it fails, the failure is that of
/// the first step that fails.
pub proof fn lemma_run_fields<V, E>(
    fragments: Seq<FieldFragmentView>,
    input: Seq<V>,
    freeze: spec_fn(V) -> Result<V, E>,
    count: int,
)
    requires
        0 <= count <= fragments.len(),
    ensures
        ({
            let outcome = run_fields(fragments, input, freeze, count);
            &&& forall|k: int|
                0 <= k < outcome.attempts.len() ==> 0 <= (#[trigger] outcome.attempts[k]) < count
                    && fragments[outcome.attempts[k]].action is Freeze
            &&& outcome.result is Ok ==> {
                &&& outcome.result->Ok_0.len() == count
                &&& forall|i: int|
                    0 <= i < count ==> field_step(#[trigger] fragments[i], input[i], freeze) == Ok::<V, E>(
                        outcome.result->Ok_0[i],
                    )
                &&& forall|i: int|
                    0 <= i < count && (#[trigger] fragments[i]).action is Freeze
                        ==> outcome.attempts.contains(i)
            }
            &&& outcome.result is Err ==> exists|i: int|
                {
                    &&& 0 <= i < count
                    &&& field_step(#[trigger] fragments[i], input[i], freeze) == Err::<V, E>(
                        outcome.result->Err_0,
                    )
                    &&& forall|k: int| 0 <= k < i ==> field_step(#[trigger] fragments[k], input[k], freeze) is Ok
                    &&& forall|k: int|
                        0 <= k < outcome.attempts.len() ==> (#[trigger] outcome.attempts[k]) <= i
                }
        }),
    decreases count,
{
    if count > 0 {
        lemma_run_fields(fragments, input, freeze, count - 1);
        let before = run_fields(fragments, input, freeze, count - 1);
        let outcome = run_fields(fragments, input, freeze, count);
        match before.result {
            Err(_) => {
                let i = choose|i: int|
                    {
                        &&& 0 <= i < count - 1
                        &&& field_step(#[trigger] fragments[i], input[i], freeze) == Err::<V, E>(
                            before.result->Err_0,
                        )
                        &&& forall|k: int|
                            0 <= k < i ==> field_step(#[trigger] fragments[k], input[k], freeze) is Ok
                        &&& forall|k: int|
                            0 <= k < before.attempts.len() ==> (#[trigger] before.attempts[k]) <= i
                    };
                assert(0 <= i < count && field_step(fragments[i], input[i], freeze) == Err::<V, E>(
                    outcome.result->Err_0,
                ));
            },
            Ok(values) => {
                let last = count - 1;
                match field_step(fragments[last], input[last], freeze) {
                    Ok(value) => {
                        assert forall|i: int| 0 <= i < count && (#[trigger] fragments[i]).action is Freeze
                            implies outcome.attempts.contains(i) by {
                            if i < last {
                                let k = choose|k: int|
                                    0 <= k < before.attempts.len() && before.attempts[k] == i;
                                assert(outcome.attempts[k] == i);
                            } else {
                                assert(outcome.attempts[outcome.attempts.len() - 1] == i);
                            }
                        }
                    },
                    Err(failure) => {
                        assert(field_step(fragments[last], input[last], freeze) == Err::<V, E>(
                            outcome.result->Err_0,
                        ));
                    },
                }
            },
        }
    }
}

} // verus!
