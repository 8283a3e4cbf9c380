//! The multi-line text area control.

use vstd::prelude::*;
use crate::controls::{
    same_slots, ControlBuilder, ControlData, UpdateEvent, ValidatedControlData,
};

verus! {

/// Configuration of a text area control.
#[derive(Debug, Clone, PartialEq, Eq)]
pub struct TextAreaData {
    pub name: String,
    pub label: Option<String>,
    pub placeholder: Option<String>,
    /// The widget event on which edits are pushed through the binding
    /// engine.
    pub update_event: UpdateEvent,
}

impl Default for TextAreaData {
    fn default() -> (r: Self)
        ensures
            r.name@ == Seq::<char>::empty(),
            r.label is None,
            r.placeholder is None,
            r.update_event is OnInput,
    {
        TextAreaData {
            name: String::new(),
            label: None,
            placeholder: None,
            update_event: UpdateEvent::OnInput,
        }
    }
}

impl ControlData for TextAreaData {
    /// A text area naturally edits a string.
    type ReturnType = String;
}

impl ValidatedControlData for TextAreaData {

}

impl<A> ControlBuilder<TextAreaData, A> {
    /// Sets the control's name, the key its value is submitted under.
    pub fn named(self, control_name: &str) -> (r: Self)
        ensures
            r.data.name@ == control_name@,
            r.data == (TextAreaData { name: r.data.name, ..self.data }),
            same_slots(self, r),
    {
        let mut s = self;
        s.data.name = control_name.to_owned();
        s
    }

    /// Sets the label displayed beside the text area.
    pub fn labeled(self, label: &str) -> (r: Self)
        ensures
            r.data.label matches Some(l) && l@ == label@,
            r.data == (TextAreaData { label: r.data.label, ..self.data }),
            same_slots(self, r),
    {
        let mut s = self;
        s.data.label = Some(label.to_owned());
        s
    }

    /// Sets the placeholder shown while the text area is empty.
    pub fn placeholder(self, placeholder: &str) -> (r: Self)
        ensures
            r.data.placeholder matches Some(p) && p@ == placeholder@,
            r.data == (TextAreaData { placeholder: r.data.placeholder, ..self.data }),
            same_slots(self, r),
    {
        let mut s = self;
        s.data.placeholder = Some(placeholder.to_owned());
        s
    }

    /// Sets the widget event on which edits are pushed through the
    /// binding engine.
    pub fn update_on(self, event: UpdateEvent) -> (r: Self)
        ensures
            r.data.update_event == event,
            r.data == (TextAreaData { update_event: r.data.update_event, ..self.data }),
            same_slots(self, r),
    {
        let mut s = self;
        s.data.update_event = event;
        s
    }
}

} // verus!
