//! The select (dropdown) control.

use vstd::prelude::*;
use crate::controls::{
    same_slots, ControlBuilder, ControlData, ValidatedControlData,
};

verus! {

/// Configuration of a select control.
///
/// Selecting the blank option, when one is configured, yields the empty
/// string as the control's raw value.
#[derive(Debug, Clone, PartialEq, Eq)]
pub struct SelectData {
    pub name: String,
    pub label: Option<String>,
    /// The options, in declaration order.  The first element of each pair
    /// is the string displayed, the second the value submitted.
    pub options: Vec<(String, String)>,
    /// The display text for the blank option, if there is one.
    pub blank_option: Option<String>,
}

impl Default for SelectData {
    fn default() -> (r: Self)
        ensures
            r.name@ == Seq::<char>::empty(),
            r.label is None,
            r.options@ == Seq::<(String, String)>::empty(),
            r.blank_option is None,
    {
        SelectData { name: String::new(), label: None, options: Vec::new(), blank_option: None }
    }
}

impl ControlData for SelectData {
    /// The chosen option's value, a string; the blank option yields the
    /// empty string.
    type ReturnType = String;
}

impl ValidatedControlData for SelectData {

}

impl<A> ControlBuilder<SelectData, A> {
    /// Sets the control's name, the key its value is submitted under.
    pub fn named(self, control_name: &str) -> (r: Self)
        ensures
            r.data.name@ == control_name@,
            r.data == (SelectData { name: r.data.name, ..self.data }),
            same_slots(self, r),
    {
        let mut s = self;
        s.data.name = control_name.to_owned();
        s
    }

    /// Sets the label for the select.
    pub fn labeled(self, label: &str) -> (r: Self)
        ensures
            r.data.label matches Some(l) && l@ == label@,
            r.data == (SelectData { label: r.data.label, ..self.data }),
            same_slots(self, r),
    {
        let mut s = self;
        s.data.label = Some(label.to_owned());
        s
    }

    /// Sets the options, each displayed string also being its value.
    /// This overwrites any previous options setting.
    pub fn with_options(self, options: &Vec<String>) -> (r: Self)
        ensures
            r.data.options@.len() == options@.len(),
            forall|i: int|
                0 <= i < options@.len() ==> #[trigger] r.data.options@[i]
                    == (options@[i], options@[i]),
            r.data == (SelectData { options: r.data.options, ..self.data }),
            same_slots(self, r),
    {
        let mut s = self;
        let mut new_options: Vec<(String, String)> = Vec::new();
        let mut i: usize = 0;
        while i < options.len()
            invariant
                0 <= i <= options@.len(),
                new_options@.len() == i,
                forall|j: int|
                    0 <= j < i ==> #[trigger] new_options@[j] == (options@[j], options@[j]),
            decreases options@.len() - i,
        {
            let option = &options[i];
            new_options.push((option.clone(), option.clone()));
            i = i + 1;
        }
        s.data.options = new_options;
        s
    }

    /// Sets the options to the given (displayed string, value) pairs.
    /// This overwrites any previous options setting.
    pub fn with_options_valued(self, options: Vec<(String, String)>) -> (r: Self)
        ensures
            r.data.options == options,
            r.data == (SelectData { options: r.data.options, ..self.data }),
            same_slots(self, r),
    {
        let mut s = self;
        s.data.options = options;
        s
    }

    /// Adds a blank option, displayed as nothing, as the select's first
    /// option.
    pub fn with_blank_option(self) -> (r: Self)
        ensures
            r.data.blank_option matches Some(b) && b@ == Seq::<char>::empty(),
            r.data == (SelectData { blank_option: r.data.blank_option, ..self.data }),
            same_slots(self, r),
    {
        let mut s = self;
        s.data.blank_option = Some(String::new());
        s
    }

    /// Adds a blank option as the select's first option, displayed with
    /// the given text.
    pub fn with_blank_option_displayed(self, display: &str) -> (r: Self)
        ensures
            r.data.blank_option matches Some(b) && b@ == display@,
            r.data == (SelectData { blank_option: r.data.blank_option, ..self.data }),
            same_slots(self, r),
    {
        let mut s = self;
        s.data.blank_option = Some(display.to_owned());
        s
    }
}

} // verus!
