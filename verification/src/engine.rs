//! The binding engine's decision protocol.
//!
//! One bound control connects a widget's raw value to one field of the
//! application's form data through `parse`, `setter`, and an optional
//! semantic validator.  The host application owns the reactive cells and
//! the user-supplied functions; every decision the protocol makes — what an
//! edit does to the stored data and to the [`ValidationState`], when a
//! validation callback may skip the validator, and when a stale error heals
//! itself — is taken by the functions in this module, whose contracts state
//! the outcome exactly.
//!
//! Three entry points correspond to the three ways a control is exercised:
//!
//! - an **edit** (the user changed the widget): [`edit_parse_step`], then,
//!   if the value was stored, [`state_after_store`];
//! - a **validation callback** (a submit-time sweep): [`callback_plan`],
//!   then, if the plan runs the validator, [`callback_apply`];
//! - a **recomputation** (the stored data changed through any path):
//!   [`apply_recompute`].

use vstd::prelude::*;
use crate::state::{passive_transition, ValidationState};

verus! {

/// What an edit does before anything is stored.
pub enum EditStep<V> {
    /// The raw value did not parse: the stored data must be left untouched
    /// and the control's state becomes the carried parse error.
    Reject(ValidationState),
    /// The raw value parsed: the carried typed value must be stored, and
    /// the control's state is then decided by [`state_after_store`].
    Store(V),
}

/// The denotation of [`edit_parse_step`].
pub open spec fn spec_edit_step<V>(parse_result: Result<V, String>) -> EditStep<V> {
    match parse_result {
        Ok(v) => EditStep::Store(v),
        Err(m) => EditStep::Reject(ValidationState::ParseError(m)),
    }
}

/// Decides what an edit does, given how the raw value parsed.
///
/// A parse failure never reaches the stored data: the edit is rejected on
/// the spot and only the control's own state records the error.
pub fn edit_parse_step<V>(parse_result: Result<V, String>) -> (r: EditStep<V>)
    ensures
        r == spec_edit_step(parse_result),
        parse_result matches Ok(v) ==> r matches EditStep::Store(s) && s == v,
        parse_result matches Err(m) ==> r == EditStep::Reject::<V>(ValidationState::ParseError(m)),
{
    match parse_result {
        Ok(v) => EditStep::Store(v),
        Err(m) => EditStep::Reject(ValidationState::ParseError(m)),
    }
}

/// The denotation of [`state_after_store`].
pub open spec fn spec_state_after_store(validation: Option<Result<(), String>>) -> ValidationState {
    match validation {
        None => ValidationState::Passed,
        Some(Ok(())) => ValidationState::Passed,
        Some(Err(m)) => ValidationState::ValidationError(m),
    }
}

/// Decides the control's state after an edit was parsed and stored.
///
/// `validation` is the semantic validator's verdict on the just-updated
/// data, or `None` for a control with no validator: such a control passes
/// outright once its value parses.
pub fn state_after_store(validation: Option<Result<(), String>>) -> (r: ValidationState)
    ensures
        r == spec_state_after_store(validation),
{
    match validation {
        None => ValidationState::Passed,
        Some(Ok(())) => ValidationState::Passed,
        Some(Err(m)) => ValidationState::ValidationError(m),
    }
}

/// How a validation callback must proceed.
pub enum CallbackPlan {
    /// Report success without running the validator: the control is hidden,
    /// or it has no validator and its last edit parsed.
    PassWithoutRunning,
    /// Report failure without running the validator: the control holds
    /// unparseable text, which no validator could excuse.
    FailOnParseError,
    /// Run the validator against the live data and finish with
    /// [`callback_apply`].
    RunValidator,
}

/// The denotation of [`callback_plan`].
pub open spec fn spec_callback_plan(
    shown: bool,
    state: ValidationState,
    has_validator: bool,
) -> CallbackPlan {
    if !shown {
        CallbackPlan::PassWithoutRunning
    } else if state is ParseError {
        CallbackPlan::FailOnParseError
    } else if has_validator {
        CallbackPlan::RunValidator
    } else {
        CallbackPlan::PassWithoutRunning
    }
}

/// Decides how a submit-time validation callback proceeds.
///
/// `shown` is false exactly when the control has a visibility predicate
/// that currently evaluates false: a hidden control passes regardless of
/// any stored state and can never block submission.  A visible control
/// with unparseable content fails immediately, even with no validator.
/// Only a visible, parseable control with a validator runs it.
pub fn callback_plan(shown: bool, state: &ValidationState, has_validator: bool) -> (r: CallbackPlan)
    ensures
        r == spec_callback_plan(shown, *state, has_validator),
{
    if !shown {
        CallbackPlan::PassWithoutRunning
    } else if state.is_parse_err() {
        CallbackPlan::FailOnParseError
    } else if has_validator {
        CallbackPlan::RunValidator
    } else {
        CallbackPlan::PassWithoutRunning
    }
}

/// The denotation of [`callback_apply`].
pub open spec fn spec_callback_apply(verdict: Result<(), String>) -> (bool, ValidationState) {
    match verdict {
        Ok(()) => (true, ValidationState::Passed),
        Err(m) => (false, ValidationState::ValidationError(m)),
    }
}

/// Finishes a validation callback whose plan ran the validator: the
/// control's state is set from the verdict and the callback reports
/// whether it passed.
pub fn callback_apply(verdict: Result<(), String>) -> (r: (bool, ValidationState))
    ensures
        r == spec_callback_apply(verdict),
{
    match verdict {
        Ok(()) => (true, ValidationState::Passed),
        Err(m) => (false, ValidationState::ValidationError(m)),
    }
}

/// The whole validation callback as one function of its inputs: the
/// result is the reported boolean and the control's state afterwards.
///
/// `validation` is the validator's verdict on the current data, or `None`
/// for a control with no validator; it is consulted only where
/// [`spec_callback_plan`] runs the validator.
pub open spec fn spec_callback(
    shown: bool,
    state: ValidationState,
    validation: Option<Result<(), String>>,
) -> (bool, ValidationState) {
    match spec_callback_plan(shown, state, validation is Some) {
        CallbackPlan::PassWithoutRunning => (true, state),
        CallbackPlan::FailOnParseError => (false, state),
        CallbackPlan::RunValidator => spec_callback_apply(validation->Some_0),
    }
}

/// Runs a whole validation callback against the control's state.
///
/// `validation` must be the semantic validator's verdict on the current
/// data for a control that has a validator, and `None` for one that does
/// not.  The host computes that verdict with a pure read of the data, so
/// supplying it up front is indistinguishable from running the validator
/// only when [`callback_plan`] asks for it.
pub fn apply_callback(
    state: &mut ValidationState,
    shown: bool,
    validation: Option<Result<(), String>>,
) -> (passed: bool)
    ensures
        (passed, *final(state)) == spec_callback(shown, *old(state), validation),
{
    let has_validator = match validation {
        Some(_) => true,
        None => false,
    };
    match callback_plan(shown, state, has_validator) {
        CallbackPlan::PassWithoutRunning => true,
        CallbackPlan::FailOnParseError => false,
        CallbackPlan::RunValidator => {
            let verdict = match validation {
                Some(v) => v,
                None => Ok(()),
            };
            let (passed, new_state) = callback_apply(verdict);
            *state = new_state;
            passed
        },
    }
}

/// The recomputation step as one function of its inputs: the result says
/// whether the displayed value must be refreshed, and what the control's
/// state is afterwards.
///
/// `validation` is the validator's verdict on the changed data, or `None`
/// for a control with no validator; it is consulted only where the state
/// is a validation error that might heal.
pub open spec fn spec_recompute(
    state: ValidationState,
    validation: Option<Result<(), String>>,
) -> (bool, ValidationState) {
    if state is ParseError {
        (false, state)
    } else if state is ValidationError && validation matches Some(Ok(())) {
        (true, ValidationState::Passed)
    } else {
        (true, state)
    }
}

/// Reacts to the stored data having changed through any path (another
/// control's setter, or the application writing the data directly).
///
/// While the control holds a parse error, nothing happens: the unparseable
/// text was never stored, the user's input must stay on screen, and no
/// data change can repair it.  Otherwise the display is refreshed, and a
/// stale validation error heals to `Passed` when the validator now accepts
/// the data — with no interaction on this control.  A verdict that still
/// rejects leaves the original error message in place.
pub fn apply_recompute(
    state: &mut ValidationState,
    validation: Option<Result<(), String>>,
) -> (refresh: bool)
    ensures
        (refresh, *final(state)) == spec_recompute(*old(state), validation),
{
    if state.is_parse_err() {
        return false;
    }
    if state.is_validation_err() {
        if let Some(Ok(())) = validation {
            *state = ValidationState::Passed;
        }
    }
    true
}

/// A control with no semantic validator passes its validation callback
/// whenever its last edit parsed: the edit stores the parsed value, the
/// state becomes `Passed`, and every later callback reports success.
pub proof fn lemma_no_validator_always_passes<V>(shown: bool, parse_result: Result<V, String>)
    requires
        parse_result is Ok,
    ensures
        spec_edit_step(parse_result) matches EditStep::Store(v) && parse_result == Ok::<V, String>(v),
        spec_state_after_store(None) == ValidationState::Passed,
        spec_callback(shown, spec_state_after_store(None), None).0,
{
}

/// A control whose visibility predicate evaluates false passes its
/// validation callback, whatever state it holds and whatever its validator
/// would say; its state is left untouched.
pub proof fn lemma_hidden_always_passes(
    state: ValidationState,
    validation: Option<Result<(), String>>,
)
    ensures
        spec_callback(false, state, validation).0,
        spec_callback(false, state, validation).1 == state,
{
}

/// Running the validation callback twice in succession — with no edit and
/// no data change in between, so the validator's verdict is the same both
/// times — reports the same result both times and settles the state after
/// the first run.
pub proof fn lemma_callback_idempotent(
    shown: bool,
    state: ValidationState,
    validation: Option<Result<(), String>>,
)
    ensures
        ({
            let first = spec_callback(shown, state, validation);
            let second = spec_callback(shown, first.1, validation);
            second == first
        }),
{
}

/// Self-healing: a control stuck in a validation error returns to `Passed`
/// on the next recomputation once a data change elsewhere makes its
/// validator accept, with no edit on this control.
pub proof fn lemma_self_healing(message: String, validation: Option<Result<(), String>>)
    requires
        validation == Some(Ok::<(), String>(())),
    ensures
        spec_recompute(ValidationState::ValidationError(message), validation)
            == (true, ValidationState::Passed),
{
}

/// A validation callback never moves a control out of a parse error: only
/// a new edit can.
pub proof fn lemma_callback_is_passive(
    shown: bool,
    state: ValidationState,
    validation: Option<Result<(), String>>,
)
    ensures
        passive_transition(state, spec_callback(shown, state, validation).1),
{
}

/// A recomputation never moves a control out of a parse error: only a new
/// edit can.
pub proof fn lemma_recompute_is_passive(
    state: ValidationState,
    validation: Option<Result<(), String>>,
)
    ensures
        passive_transition(state, spec_recompute(state, validation).1),
{
}

} // verus!
