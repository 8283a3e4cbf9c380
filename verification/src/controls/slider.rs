//! The slider (range) control.

use vstd::prelude::*;
use crate::controls::{same_slots, ControlBuilder, ControlData};

verus! {

/// Configuration of a slider control.
///
/// Bounds and step are strings so integer and decimal scales can both be
/// expressed; the widget reports its raw value as a string too.
#[derive(Debug, Clone, PartialEq, Eq)]
pub struct SliderData {
    pub name: String,
    pub label: Option<String>,
    pub step: Option<String>,
    pub min: Option<String>,
    pub max: Option<String>,
}

impl Default for SliderData {
    fn default() -> (r: Self)
        ensures
            r.name@ == Seq::<char>::empty(),
            r.label is None,
            r.step is None,
            r.min is None,
            r.max is None,
    {
        SliderData { name: String::new(), label: None, step: None, min: None, max: None }
    }
}

impl ControlData for SliderData {
    /// A string, to support integer and decimal scales alike.
    type ReturnType = String;
}

impl<A> ControlBuilder<SliderData, A> {
    /// Sets the control's name, the key its value is submitted under.
    pub fn named(self, control_name: &str) -> (r: Self)
        ensures
            r.data.name@ == control_name@,
            r.data == (SliderData { name: r.data.name, ..self.data }),
            same_slots(self, r),
    {
        let mut s = self;
        s.data.name = control_name.to_owned();
        s
    }

    /// Sets the label for the slider.
    pub fn labeled(self, label: &str) -> (r: Self)
        ensures
            r.data.label matches Some(l) && l@ == label@,
            r.data == (SliderData { label: r.data.label, ..self.data }),
            same_slots(self, r),
    {
        let mut s = self;
        s.data.label = Some(label.to_owned());
        s
    }

    /// Sets the step amount.
    pub fn step(self, step: &str) -> (r: Self)
        ensures
            r.data.step matches Some(v) && v@ == step@,
            r.data == (SliderData { step: r.data.step, ..self.data }),
            same_slots(self, r),
    {
        let mut s = self;
        s.data.step = Some(step.to_owned());
        s
    }

    /// Sets the minimum value for the slider.
    pub fn min(self, min: &str) -> (r: Self)
        ensures
            r.data.min matches Some(v) && v@ == min@,
            r.data == (SliderData { min: r.data.min, ..self.data }),
            same_slots(self, r),
    {
        let mut s = self;
        s.data.min = Some(min.to_owned());
        s
    }

    /// Sets the maximum value for the slider.
    pub fn max(self, max: &str) -> (r: Self)
        ensures
            r.data.max matches Some(v) && v@ == max@,
            r.data == (SliderData { max: r.data.max, ..self.data }),
            same_slots(self, r),
    {
        let mut s = self;
        s.data.max = Some(max.to_owned());
        s
    }
}

} // verus!
