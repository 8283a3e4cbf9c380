//! The hidden control: an input present in the submitted form but not
//! shown to the user.

use vstd::prelude::*;
use crate::controls::{
    same_vanity_slots, GetterVanityControlData, VanityControlBuilder, VanityControlData,
};

verus! {

/// Configuration of a hidden control.
#[derive(Debug, Clone, PartialEq, Eq)]
pub struct HiddenData {
    pub name: String,
}

impl Default for HiddenData {
    fn default() -> (r: Self)
        ensures
            r.name@ == Seq::<char>::empty(),
    {
        HiddenData { name: String::new() }
    }
}

impl VanityControlData for HiddenData {

}

impl GetterVanityControlData for HiddenData {

}

impl<A> VanityControlBuilder<HiddenData, A> {
    /// Sets the control's name, the key its value is submitted under.
    pub fn named(self, control_name: &str) -> (r: Self)
        ensures
            r.data.name@ == control_name@,
            same_vanity_slots(self, r),
    {
        let mut s = self;
        s.data.name = control_name.to_owned();
        s
    }
}

} // verus!
