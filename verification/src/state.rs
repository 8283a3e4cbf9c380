//! The per-control validation state.
//!
//! Every interactive control carries exactly one [`ValidationState`] at a
//! time.  The state starts at `Passed` and moves between the three variants
//! as the user edits the control and as the form is validated.  An edit may
//! move the state anywhere; every move made without an edit on the control
//! is bound by [`passive_transition`].

use vstd::prelude::*;

verus! {

/// The validation status of one interactive control.
///
/// Exactly one variant holds at a time:
/// - `Passed`: the last interaction left the control valid.
/// - `ParseError`: the last edit could not be converted to the field's
///   typed value; the typed data was left untouched.
/// - `ValidationError`: the last edit parsed and was stored, but a semantic
///   rule rejected the resulting data.
#[derive(Debug, Clone)]
pub enum ValidationState {
    Passed,
    ParseError(String),
    ValidationError(String),
}

impl ValidationState {
    /// Whether this state is `Passed`.
    pub fn is_passed(&self) -> (r: bool)
        ensures
            r == (self is Passed),
    {
        match self {
            ValidationState::Passed => true,
            _ => false,
        }
    }

    /// Whether this state is a parse error.
    pub fn is_parse_err(&self) -> (r: bool)
        ensures
            r == (self is ParseError),
    {
        match self {
            ValidationState::ParseError(_) => true,
            _ => false,
        }
    }

    /// Whether this state is a semantic validation error.
    pub fn is_validation_err(&self) -> (r: bool)
        ensures
            r == (self is ValidationError),
    {
        match self {
            ValidationState::ValidationError(_) => true,
            _ => false,
        }
    }

    /// The error message carried by this state, if any.
    pub fn message(&self) -> (r: Option<&String>)
        ensures
            self is Passed <==> r is None,
            self matches ValidationState::ParseError(m) ==> (r matches Some(s) && s == m),
            self matches ValidationState::ValidationError(m) ==> (r matches Some(s) && s == m),
    {
        match self {
            ValidationState::Passed => None,
            ValidationState::ParseError(m) => Some(m),
            ValidationState::ValidationError(m) => Some(m),
        }
    }
}

/// The moves the state machine may make without an edit on this control
/// (a whole-form validation sweep, or a recomputation after unrelated data
/// changed): a parse error can never be left, because the unparseable text
/// was never stored and no change to the stored data can repair it.
pub open spec fn passive_transition(pre: ValidationState, post: ValidationState) -> bool {
    pre is ParseError ==> post == pre
}

} // verus!
