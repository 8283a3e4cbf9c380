//! The spacer control: empty vertical space between controls.

use vstd::prelude::*;
use crate::controls::{same_vanity_slots, VanityControlBuilder, VanityControlData};

verus! {

/// Configuration of a spacer control.
#[derive(Debug, Clone, PartialEq, Eq)]
pub struct SpacerData {
    /// The height, as a css length ("10px", "1.25em") so any unit can be
    /// used; a style may or may not respect it.
    pub height: Option<String>,
}

impl Default for SpacerData {
    fn default() -> (r: Self)
        ensures
            r.height is None,
    {
        SpacerData { height: None }
    }
}

impl VanityControlData for SpacerData {

}

impl<A> VanityControlBuilder<SpacerData, A> {
    /// Sets the height of the spacer.
    pub fn height(self, height: &str) -> (r: Self)
        ensures
            r.data.height matches Some(h) && h@ == height@,
            same_vanity_slots(self, r),
    {
        let mut s = self;
        s.data.height = Some(height.to_owned());
        s
    }
}

} // verus!
