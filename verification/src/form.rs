//! Whole-form validation decisions.
//!
//! A built form carries one validation callback per interactive control (in
//! declaration order, sub-groups flattened into the parent's list) and,
//! separately from any rendered view, one snapshot validator per control
//! that has a semantic validator.  This module decides what those
//! aggregates report:
//!
//! - the snapshot sweep surfaces only the first failure ([`first_failure`]);
//! - a registered validator is gated by its own control's visibility
//!   ([`gated_validation`]), so a whole-form validation honours visibility
//!   without ever constructing a view;
//! - a group's callback is the conjunction of its children's callbacks,
//!   all of which are evaluated ([`group_callback`]);
//! - a submission runs the callbacks in order and stops at the first
//!   failure ([`first_failed_callback`]).

use vstd::prelude::*;
use crate::engine::spec_callback;
use crate::state::ValidationState;

verus! {

/// The first error in a sequence of validation verdicts, or `Ok` when
/// every verdict passed.
pub open spec fn first_err(results: Seq<Result<(), String>>) -> Result<(), String>
    decreases results.len(),
{
    if results.len() == 0 {
        Ok(())
    } else {
        match results[0] {
            Err(m) => Err(m),
            Ok(()) => first_err(results.skip(1)),
        }
    }
}

/// While every verdict before `i` passed, the first error of the whole
/// sequence is the first error of what remains from `i` on.
proof fn lemma_first_err_skip(results: Seq<Result<(), String>>, i: int)
    requires
        0 <= i <= results.len(),
        forall|j: int| 0 <= j < i ==> results[j] is Ok,
    ensures
        first_err(results) == first_err(results.skip(i)),
    decreases i,
{
    if i > 0 {
        lemma_first_err_skip(results, i - 1);
        assert(results.skip(i - 1)[0] == results[i - 1]);
        assert(results.skip(i - 1).skip(1) =~= results.skip(i));
    } else {
        assert(results.skip(0) =~= results);
    }
}

/// The snapshot sweep passes exactly when every verdict passed.
pub proof fn lemma_first_err_ok(results: Seq<Result<(), String>>)
    ensures
        first_err(results) is Ok <==> (forall|i: int| 0 <= i < results.len() ==> results[i] is Ok),
    decreases results.len(),
{
    if results.len() > 0 {
        lemma_first_err_ok(results.skip(1));
        assert(forall|i: int| 0 <= i < results.skip(1).len() ==> results.skip(1)[i] == results[i + 1]);
        if results[0] is Ok {
            if forall|i: int| 0 <= i < results.len() ==> results[i] is Ok {
                assert(forall|i: int| 0 <= i < results.skip(1).len() ==> results.skip(1)[i] is Ok);
            }
            if first_err(results) is Ok {
                assert(forall|i: int| 1 <= i < results.len() ==> results[i] == results.skip(1)[i - 1]);
            }
        }
    }
}

/// Runs a whole-form validation sweep over the verdicts of every
/// registered validator, in declaration order, and surfaces the first
/// failure: one message at a time is reported, later failures are not
/// collected.
pub fn first_failure(results: &Vec<Result<(), String>>) -> (r: Result<(), String>)
    ensures
        r == first_err(results@),
{
    proof {
        assert(results@.skip(0) =~= results@);
    }
    let mut i: usize = 0;
    while i < results.len()
        invariant
            0 <= i <= results@.len(),
            forall|j: int| 0 <= j < i ==> results@[j] is Ok,
            first_err(results@) == first_err(results@.skip(i as int)),
        decreases results@.len() - i,
    {
        match &results[i] {
            Err(m) => {
                proof {
                    assert(results@.skip(i as int)[0] == results@[i as int]);
                }
                return Err(m.clone());
            },
            Ok(()) => {},
        }
        proof {
            assert(results@.skip(i as int)[0] == results@[i as int]);
            assert(results@.skip(i as int).skip(1) =~= results@.skip(i as int + 1));
        }
        i = i + 1;
    }
    proof {
        assert(results@.skip(i as int) =~= Seq::<Result<(), String>>::empty());
    }
    Ok(())
}

/// Gates one control's registered validator by that control's own
/// visibility, so that a whole-form validation — which never constructs a
/// view — honours visibility the same way the control's own callback does.
///
/// `shown` is false exactly when the control has a visibility predicate
/// that currently evaluates false; `verdict` is the validator's verdict on
/// the data under validation, which a hidden control's gate discards.
pub fn gated_validation(shown: bool, verdict: Result<(), String>) -> (r: Result<(), String>)
    ensures
        !shown ==> r == Ok::<(), String>(()),
        shown ==> r == verdict,
{
    if !shown {
        Ok(())
    } else {
        verdict
    }
}

/// Whether every callback in a sweep reported success.
pub open spec fn all_passed(results: Seq<bool>) -> bool {
    forall|i: int| 0 <= i < results.len() ==> results[i]
}

/// Aggregates a group's validation callback from its children's reports:
/// the group passes if and only if every child (each already respecting
/// its own visibility) passed.  Every child is consulted — there is no
/// short-circuit, so every child's error state is brought up to date
/// before the aggregate is known.
pub fn group_callback(results: &Vec<bool>) -> (r: bool)
    ensures
        r == all_passed(results@),
{
    let mut success = true;
    let mut i: usize = 0;
    while i < results.len()
        invariant
            0 <= i <= results@.len(),
            success == all_passed(results@.take(i as int)),
        decreases results@.len() - i,
    {
        if !results[i] {
            success = false;
        }
        proof {
            assert(results@.take(i as int + 1).drop_last() =~= results@.take(i as int));
            assert(results@.take(i as int + 1).last() == results@[i as int]);
        }
        i = i + 1;
    }
    proof {
        assert(results@.take(i as int) =~= results@);
    }
    success
}

/// Group aggregation: with `reports` holding each child's callback result
/// as the protocol defines it — from the child's visibility, its state,
/// and its validator's verdict — the group's aggregate is true if and only
/// if every child's own callback is.
pub proof fn lemma_group_aggregation(
    children: Seq<(bool, ValidationState, Option<Result<(), String>>)>,
    reports: Seq<bool>,
)
    requires
        reports.len() == children.len(),
        forall|i: int|
            0 <= i < children.len() ==> #[trigger] reports[i] == spec_callback(
                children[i].0,
                children[i].1,
                children[i].2,
            ).0,
    ensures
        all_passed(reports) <==> (forall|i: int|
            0 <= i < children.len() ==> spec_callback(
                #[trigger] children[i].0,
                children[i].1,
                children[i].2,
            ).0),
{
    if all_passed(reports) {
        assert forall|i: int| 0 <= i < children.len() implies spec_callback(
            #[trigger] children[i].0,
            children[i].1,
            children[i].2,
        ).0 by {
            assert(reports[i]);
        }
    }
    if forall|i: int|
        0 <= i < children.len() ==> spec_callback(
            #[trigger] children[i].0,
            children[i].1,
            children[i].2,
        ).0 {
        assert forall|i: int| 0 <= i < reports.len() implies reports[i] by {
            assert(spec_callback(children[i].0, children[i].1, children[i].2).0);
        }
    }
}

/// Where a submission sweep stops: the index of the first callback that
/// reported failure, or `None` when every callback passed and the
/// submission may be dispatched.  Callbacks after the first failure are
/// not consulted by a submission.
pub fn first_failed_callback(results: &Vec<bool>) -> (r: Option<usize>)
    ensures
        r is None <==> all_passed(results@),
        r matches Some(i) ==> !results@[i as int] && (forall|j: int| 0 <= j < i ==> results@[j]),
{
    let mut i: usize = 0;
    while i < results.len()
        invariant
            0 <= i <= results@.len(),
            forall|j: int| 0 <= j < i ==> results@[j],
        decreases results@.len() - i,
    {
        if !results[i] {
            return Some(i);
        }
        i = i + 1;
    }
    None
}

} // verus!
