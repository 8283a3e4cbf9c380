//! A declarative form-construction core.
//!
//! An application describes a form's fields, how each field's raw widget
//! value is parsed into a typed value, and which semantic rules the typed
//! values must satisfy.  From that one description the library derives the
//! per-field validation protocol: parse errors and semantic validation
//! errors are tracked as distinct states, a field whose visibility
//! predicate is false is skipped (not merely hidden) by validation, and a
//! stale validation error heals itself when unrelated data changes make the
//! field valid again.
//!
//! The reactive substrate (signal cells, effect scheduling) and the visual
//! rendering of each control are external collaborators: the host
//! application performs the edits, reads and writes, and asks this library
//! for every decision.  Each decision function states its exact outcome in
//! its contract, so the protocol's guarantees are machine-checked.

pub mod controls;
pub mod decimal;
pub mod engine;
pub mod form;
pub mod state;
pub mod validation;
