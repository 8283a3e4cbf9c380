//! The radio button group control.

use vstd::prelude::*;
use crate::controls::{
    same_slots, ControlBuilder, ControlData, ValidatedControlData,
};

verus! {

/// Configuration of a radio button group.
#[derive(Debug, Clone, PartialEq, Eq)]
pub struct RadioButtonsData {
    pub name: String,
    pub label: Option<String>,
    /// The options, in declaration order.  The first element of each pair
    /// is the string displayed, the second the value submitted.
    pub options: Vec<(String, String)>,
}

impl Default for RadioButtonsData {
    fn default() -> (r: Self)
        ensures
            r.name@ == Seq::<char>::empty(),
            r.label is None,
            r.options@ == Seq::<(String, String)>::empty(),
    {
        RadioButtonsData { name: String::new(), label: None, options: Vec::new() }
    }
}

impl ControlData for RadioButtonsData {
    /// The chosen option's value, a string.
    type ReturnType = String;
}

impl ValidatedControlData for RadioButtonsData {

}

impl<A> ControlBuilder<RadioButtonsData, A> {
    /// Sets the name shared by the group's radio inputs, the key the
    /// chosen value is submitted under.
    pub fn named(self, control_name: &str) -> (r: Self)
        ensures
            r.data.name@ == control_name@,
            r.data == (RadioButtonsData { name: r.data.name, ..self.data }),
            same_slots(self, r),
    {
        let mut s = self;
        s.data.name = control_name.to_owned();
        s
    }

    /// Sets the label for the radio button group.
    pub fn labeled(self, label: &str) -> (r: Self)
        ensures
            r.data.label matches Some(l) && l@ == label@,
            r.data == (RadioButtonsData { label: r.data.label, ..self.data }),
            same_slots(self, r),
    {
        let mut s = self;
        s.data.label = Some(label.to_owned());
        s
    }

    /// Adds one option whose displayed string is also its value.
    pub fn with_option(self, option: &str) -> (r: Self)
        ensures
            r.data.options@.len() == self.data.options@.len() + 1,
            r.data.options@.last().0@ == option@ && r.data.options@.last().1@ == option@,
            r.data.options@.drop_last() == self.data.options@,
            r.data == (RadioButtonsData { options: r.data.options, ..self.data }),
            same_slots(self, r),
    {
        let mut s = self;
        s.data.options.push((option.to_owned(), option.to_owned()));
        s
    }

    /// Adds one option, with the value submitted differing from the
    /// string displayed.
    pub fn with_option_valued(self, display: &str, value: &str) -> (r: Self)
        ensures
            r.data.options@.len() == self.data.options@.len() + 1,
            r.data.options@.last().0@ == display@ && r.data.options@.last().1@ == value@,
            r.data.options@.drop_last() == self.data.options@,
            r.data == (RadioButtonsData { options: r.data.options, ..self.data }),
            same_slots(self, r),
    {
        let mut s = self;
        s.data.options.push((display.to_owned(), value.to_owned()));
        s
    }

    /// Adds every option in the given list, each displayed string also
    /// being its value.
    pub fn with_options(self, options: &Vec<String>) -> (r: Self)
        ensures
            r.data.options@.len() == self.data.options@.len() + options@.len(),
            forall|i: int|
                0 <= i < self.data.options@.len() ==> r.data.options@[i]
                    == self.data.options@[i],
            forall|i: int|
                0 <= i < options@.len() ==> #[trigger] r.data.options@[
                    self.data.options@.len() + i
                ] == (options@[i], options@[i]),
            r.data == (RadioButtonsData { options: r.data.options, ..self.data }),
            same_slots(self, r),
    {
        let mut s = self;
        let mut i: usize = 0;
        while i < options.len()
            invariant
                0 <= i <= options@.len(),
                s.data.options@.len() == self.data.options@.len() + i,
                forall|j: int|
                    0 <= j < self.data.options@.len() ==> s.data.options@[j]
                        == self.data.options@[j],
                forall|j: int|
                    0 <= j < i ==> #[trigger] s.data.options@[self.data.options@.len() + j]
                        == (options@[j], options@[j]),
                s.data == (RadioButtonsData { options: s.data.options, ..self.data }),
                same_slots(self, s),
            decreases options@.len() - i,
        {
            let option = &options[i];
            s.data.options.push((option.clone(), option.clone()));
            i = i + 1;
        }
        s
    }

    /// Adds every (displayed string, value) pair in the given list.
    pub fn with_options_valued(self, options: &Vec<(String, String)>) -> (r: Self)
        ensures
            r.data.options@.len() == self.data.options@.len() + options@.len(),
            forall|i: int|
                0 <= i < self.data.options@.len() ==> r.data.options@[i]
                    == self.data.options@[i],
            forall|i: int|
                0 <= i < options@.len() ==> #[trigger] r.data.options@[
                    self.data.options@.len() + i
                ] == options@[i],
            r.data == (RadioButtonsData { options: r.data.options, ..self.data }),
            same_slots(self, r),
    {
        let mut s = self;
        let mut i: usize = 0;
        while i < options.len()
            invariant
                0 <= i <= options@.len(),
                s.data.options@.len() == self.data.options@.len() + i,
                forall|j: int|
                    0 <= j < self.data.options@.len() ==> s.data.options@[j]
                        == self.data.options@[j],
                forall|j: int|
                    0 <= j < i ==> #[trigger] s.data.options@[self.data.options@.len() + j]
                        == options@[j],
                s.data == (RadioButtonsData { options: s.data.options, ..self.data }),
                same_slots(self, s),
            decreases options@.len() - i,
        {
            let pair = &options[i];
            s.data.options.push((pair.0.clone(), pair.1.clone()));
            i = i + 1;
        }
        s
    }
}

} // verus!
