//! The checkbox control.

use vstd::prelude::*;
use crate::controls::{same_slots, ControlBuilder, ControlData};

verus! {

/// Configuration of a checkbox control.
#[derive(Debug, Clone, PartialEq, Eq)]
pub struct CheckboxData {
    pub name: String,
    pub label: Option<String>,
}

impl Default for CheckboxData {
    fn default() -> (r: Self)
        ensures
            r.name@ == Seq::<char>::empty(),
            r.label is None,
    {
        CheckboxData { name: String::new(), label: None }
    }
}

impl ControlData for CheckboxData {
    /// A checkbox naturally edits a boolean, so its edits have no parse
    /// step that could fail: a bound checkbox can never reach a parse
    /// error.
    type ReturnType = bool;
}

impl<A> ControlBuilder<CheckboxData, A> {
    /// Sets the control's name, the key its value is submitted under.
    pub fn named(self, control_name: &str) -> (r: Self)
        ensures
            r.data.name@ == control_name@,
            r.data == (CheckboxData { name: r.data.name, ..self.data }),
            same_slots(self, r),
    {
        let mut s = self;
        s.data.name = control_name.to_owned();
        s
    }

    /// Sets the text of the checkbox's label.
    pub fn labeled(self, label: &str) -> (r: Self)
        ensures
            r.data.label matches Some(l) && l@ == label@,
            r.data == (CheckboxData { label: r.data.label, ..self.data }),
            same_slots(self, r),
    {
        let mut s = self;
        s.data.label = Some(label.to_owned());
        s
    }
}

} // verus!
