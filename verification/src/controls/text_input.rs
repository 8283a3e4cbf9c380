//! The single-line text input control.

use vstd::prelude::*;
use crate::controls::{same_slots, ControlBuilder, ControlData, ValidatedControlData};

verus! {

/// Configuration of a text input control.
#[derive(Debug, Clone, PartialEq, Eq)]
pub struct TextInputData {
    pub name: String,
    pub label: Option<String>,
    pub placeholder: Option<String>,
    /// The html input type the widget renders with.
    pub input_type: &'static str,
}

impl Default for TextInputData {
    fn default() -> (r: Self)
        ensures
            r.name@ == Seq::<char>::empty(),
            r.label is None,
            r.placeholder is None,
            r.input_type@ == "input"@,
    {
        TextInputData { name: String::new(), label: None, placeholder: None, input_type: "input" }
    }
}

impl ControlData for TextInputData {
    /// A text input naturally edits a string.
    type ReturnType = String;
}

impl ValidatedControlData for TextInputData {

}

impl<A> ControlBuilder<TextInputData, A> {
    /// Sets the control's name, the key its value is submitted under.
    pub fn named(self, control_name: &str) -> (r: Self)
        ensures
            r.data.name@ == control_name@,
            r.data == (TextInputData { name: r.data.name, ..self.data }),
            same_slots(self, r),
    {
        let mut s = self;
        s.data.name = control_name.to_owned();
        s
    }

    /// Sets the label displayed beside the input.
    pub fn labeled(self, label: &str) -> (r: Self)
        ensures
            r.data.label matches Some(l) && l@ == label@,
            r.data == (TextInputData { label: r.data.label, ..self.data }),
            same_slots(self, r),
    {
        let mut s = self;
        s.data.label = Some(label.to_owned());
        s
    }

    /// Sets the placeholder shown while the input is empty.
    pub fn placeholder(self, placeholder: &str) -> (r: Self)
        ensures
            r.data.placeholder matches Some(p) && p@ == placeholder@,
            r.data == (TextInputData { placeholder: r.data.placeholder, ..self.data }),
            same_slots(self, r),
    {
        let mut s = self;
        s.data.placeholder = Some(placeholder.to_owned());
        s
    }

    /// Renders the input as a password field.
    pub fn password(self) -> (r: Self)
        ensures
            r.data.input_type@ == "password"@,
            r.data == (TextInputData { input_type: r.data.input_type, ..self.data }),
            same_slots(self, r),
    {
        let mut s = self;
        s.data.input_type = "password";
        s
    }

    /// Renders the input as a date field.
    pub fn date(self) -> (r: Self)
        ensures
            r.data.input_type@ == "date"@,
            r.data == (TextInputData { input_type: r.data.input_type, ..self.data }),
            same_slots(self, r),
    {
        let mut s = self;
        s.data.input_type = "date";
        s
    }

    /// Renders the input as the given html input type.
    pub fn input_type(self, input_type: &'static str) -> (r: Self)
        ensures
            r.data.input_type == input_type,
            r.data == (TextInputData { input_type: r.data.input_type, ..self.data }),
            same_slots(self, r),
    {
        let mut s = self;
        s.data.input_type = input_type;
        s
    }
}

} // verus!
