//! Scenario tests for the binding engine's decision protocol, driving it
//! the way a host application does: the host runs parse, store, and the
//! semantic validator, and the engine decides every outcome.

use form_tool::decimal::{parse_i32, i32_to_dec};
use form_tool::engine::{
    apply_callback, apply_recompute, callback_apply, callback_plan, edit_parse_step, state_after_store,
    CallbackPlan, EditStep,
};
use form_tool::state::ValidationState;

/// The application's form data for these scenarios.
#[derive(Clone, Debug, PartialEq)]
struct Profile {
    age: i32,
    subscribed: bool,
    month: i32,
    day: i32,
}

fn fresh_profile() -> Profile {
    Profile { age: 0, subscribed: false, month: 2, day: 1 }
}

/// One edit on a control bound to `age` through the decimal codec,
/// with no semantic validator, as the host would run it.
fn edit_age(fd: &mut Profile, state: &mut ValidationState, raw: &str) {
    match edit_parse_step(parse_i32(raw)) {
        EditStep::Reject(new_state) => {
            *state = new_state;
        }
        EditStep::Store(value) => {
            fd.age = value;
            *state = state_after_store(None);
        }
    }
}

#[test]
fn text_input_rejects_unparseable_edit() {
    let mut fd = fresh_profile();
    let mut state = ValidationState::Passed;
    edit_age(&mut fd, &mut state, "abc");
    assert!(state.is_parse_err());
    assert_eq!(
        state.message().map(|m| m.as_str()),
        Some("invalid digit found in string")
    );
    // The unparseable edit never reached the stored data.
    assert_eq!(fd.age, 0);
}

#[test]
fn text_input_stores_parseable_edit() {
    let mut fd = fresh_profile();
    let mut state = ValidationState::Passed;
    edit_age(&mut fd, &mut state, "abc");
    edit_age(&mut fd, &mut state, "25");
    assert!(state.is_passed());
    assert_eq!(fd.age, 25);
    // The display value derives from the stored value.
    assert_eq!(i32_to_dec(fd.age), "25");
}

#[test]
fn checkbox_toggles_without_parse_step() {
    let mut fd = fresh_profile();
    let mut state = ValidationState::Passed;
    // A checkbox's raw value is already typed: its parse is `Ok` identity,
    // so no edit can ever reach a parse error.
    for raw in [true, false, true] {
        match edit_parse_step(Ok::<bool, String>(raw)) {
            EditStep::Store(value) => {
                fd.subscribed = value;
                state = state_after_store(None);
            }
            EditStep::Reject(_) => unreachable!(),
        }
        assert!(state.is_passed());
        assert_eq!(fd.subscribed, raw);
    }
}

#[test]
fn edit_with_validator_records_validation_error() {
    let mut fd = fresh_profile();
    let mut state = ValidationState::Passed;
    // Parse succeeds, the value is stored, then the validator rejects it.
    match edit_parse_step(parse_i32("300")) {
        EditStep::Store(value) => {
            fd.age = value;
            let verdict = if fd.age <= 150 { Ok(()) } else { Err("Age must be <= 150".to_string()) };
            state = state_after_store(Some(verdict));
        }
        EditStep::Reject(_) => unreachable!(),
    }
    assert!(state.is_validation_err());
    assert_eq!(state.message().map(|m| m.as_str()), Some("Age must be <= 150"));
    // Unlike a parse failure, the offending value was stored.
    assert_eq!(fd.age, 300);
}

#[test]
fn callback_passes_without_validator() {
    let mut state = ValidationState::Passed;
    let passed = apply_callback(&mut state, true, None);
    assert!(passed);
    assert!(state.is_passed());
}

#[test]
fn callback_fails_on_stale_parse_error() {
    let mut state = ValidationState::ParseError("invalid digit found in string".to_string());
    // Even with no semantic validator, unparseable content blocks the
    // submission sweep.
    let passed = apply_callback(&mut state, true, None);
    assert!(!passed);
    assert!(state.is_parse_err());
}

#[test]
fn hidden_control_always_passes_callback() {
    for state0 in [
        ValidationState::Passed,
        ValidationState::ParseError("bad".to_string()),
        ValidationState::ValidationError("worse".to_string()),
    ] {
        let mut state = state0.clone();
        // Hidden: the callback passes and leaves the state alone, whatever
        // the validator would have said.
        let passed = apply_callback(&mut state, false, Some(Err("ignored".to_string())));
        assert!(passed);
        assert_eq!(state.message(), state0.message());
        assert_eq!(state.is_parse_err(), state0.is_parse_err());
        assert_eq!(state.is_validation_err(), state0.is_validation_err());
    }
}

#[test]
fn hidden_control_never_runs_validator() {
    let state = ValidationState::ValidationError("stale".to_string());
    let plan = callback_plan(false, &state, true);
    assert!(matches!(plan, CallbackPlan::PassWithoutRunning));
}

#[test]
fn callback_updates_state_from_verdict() {
    let state = ValidationState::Passed;
    assert!(matches!(callback_plan(true, &state, true), CallbackPlan::RunValidator));
    let (passed, new_state) = callback_apply(Err("Color is required".to_string()));
    assert!(!passed);
    assert!(new_state.is_validation_err());
    let (passed, new_state) = callback_apply(Ok(()));
    assert!(passed);
    assert!(new_state.is_passed());
}

#[test]
fn callback_is_idempotent_without_intervening_change() {
    // With no edit and no data change between the two sweeps, the
    // validator's verdict is the same, and so is the reported result.
    for verdict in [None, Some(Ok(())), Some(Err("no".to_string()))] {
        for state0 in [
            ValidationState::Passed,
            ValidationState::ParseError("bad".to_string()),
            ValidationState::ValidationError("old".to_string()),
        ] {
            // A control either has a validator or it does not; the verdict
            // option models exactly that.
            let mut state = state0.clone();
            let first = apply_callback(&mut state, true, verdict.clone());
            let second = apply_callback(&mut state, true, verdict.clone());
            assert_eq!(first, second);
        }
    }
}

#[test]
fn self_healing_clears_validation_error() {
    let mut state = ValidationState::ValidationError("invalid day for month".to_string());
    // Unrelated data changed and the validator now accepts: the next
    // recomputation heals the error with no edit on this control.
    let refresh = apply_recompute(&mut state, Some(Ok(())));
    assert!(refresh);
    assert!(state.is_passed());
}

#[test]
fn recompute_keeps_failing_validation_error() {
    let mut state = ValidationState::ValidationError("invalid day for month".to_string());
    let refresh = apply_recompute(&mut state, Some(Err("still bad".to_string())));
    assert!(refresh);
    // The original message stays; a recomputation only heals, it does not
    // re-report.
    assert_eq!(state.message().map(|m| m.as_str()), Some("invalid day for month"));
}

#[test]
fn recompute_never_clears_parse_error() {
    let mut state = ValidationState::ParseError("invalid digit found in string".to_string());
    // The unparseable text was never stored, so no data change can repair
    // it: the display must not refresh and the state must not move.
    let refresh = apply_recompute(&mut state, Some(Ok(())));
    assert!(!refresh);
    assert!(state.is_parse_err());
}

/// The month/day dependency scenario: field B (day) has a validator that
/// reads field A (month); editing A heals B's stale error on B's next
/// recomputation, with no interaction on B.
#[test]
fn cross_field_fix_heals_dependent_control() {
    fn day_verdict(fd: &Profile) -> Result<(), String> {
        let days_in_month = if fd.month == 2 { 28 } else { 31 };
        if fd.day >= 1 && fd.day <= days_in_month {
            Ok(())
        } else {
            Err("invalid day for month".to_string())
        }
    }

    let mut fd = fresh_profile();
    let mut day_state = ValidationState::Passed;
    let mut month_state = ValidationState::Passed;

    // The user types day 30 while the month is February.
    match edit_parse_step(parse_i32("30")) {
        EditStep::Store(value) => {
            fd.day = value;
            day_state = state_after_store(Some(day_verdict(&fd)));
        }
        EditStep::Reject(_) => unreachable!(),
    }
    assert!(day_state.is_validation_err());
    assert_eq!(day_state.message().map(|m| m.as_str()), Some("invalid day for month"));

    // The user changes the month to January, touching only field A.
    match edit_parse_step(parse_i32("1")) {
        EditStep::Store(value) => {
            fd.month = value;
            month_state = state_after_store(None);
        }
        EditStep::Reject(_) => unreachable!(),
    }
    assert!(month_state.is_passed());

    // The data change triggers B's reactive recomputation: the stale
    // error clears without any edit on B.
    let refresh = apply_recompute(&mut day_state, Some(day_verdict(&fd)));
    assert!(refresh);
    assert!(day_state.is_passed());
    assert_eq!(fd.day, 30);
}

#[test]
fn parse_success_without_validator_always_passes_callback() {
    let mut fd = fresh_profile();
    let mut state = ValidationState::Passed;
    // Any parseable input on a control with no semantic validator leaves
    // the control passing its callback.
    for raw in ["0", "25", "-3", "2147483647"] {
        edit_age(&mut fd, &mut state, raw);
        assert!(state.is_passed());
        let passed = apply_callback(&mut state, true, None);
        assert!(passed, "input {:?}", raw);
    }
}

#[test]
fn recompute_refreshes_a_passing_control() {
    let mut state = ValidationState::Passed;
    // A data change on an unrelated field still refreshes this control's
    // displayed value; its state stays passing.
    let refresh = apply_recompute(&mut state, None);
    assert!(refresh);
    assert!(state.is_passed());
}
