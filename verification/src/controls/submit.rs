//! The submit button control.

use vstd::prelude::*;
use crate::controls::{
    DisplaySource, GetterVanityControlData, VanityControlBuilder, VanityControlData,
};

verus! {

/// Configuration of a submit button.  It has none of its own: its text
/// comes from a fixed string or a getter.
#[derive(Debug, Clone, PartialEq, Eq)]
pub struct SubmitData;

impl Default for SubmitData {
    fn default() -> (r: Self) {
        SubmitData
    }
}

impl VanityControlData for SubmitData {

}

impl GetterVanityControlData for SubmitData {

}

impl<A> VanityControlBuilder<SubmitData, A> {
    /// Sets the fixed text of the submit button.
    pub fn text(self, text: &str) -> (r: Self)
        ensures
            r.display matches DisplaySource::Fixed(t) && t@ == text@,
            r.data == self.data,
            r.style_attributes == self.style_attributes,
            r.has_show_when == self.has_show_when,
    {
        let mut s = self;
        s.display = DisplaySource::Fixed(text.to_owned());
        s
    }
}

} // verus!
