//! The heading control, a read-only section title.

use vstd::prelude::*;
use crate::controls::{
    same_vanity_slots, DisplaySource, GetterVanityControlData, VanityControlBuilder,
    VanityControlData,
};

verus! {

/// The html heading level a heading control renders at.
#[derive(Debug, Clone, Copy, PartialEq, Eq, Structural)]
pub enum HeadingLevel {
    H1,
    H2,
    H3,
    H4,
}

impl Default for HeadingLevel {
    fn default() -> (r: Self)
        ensures
            r is H1,
    {
        HeadingLevel::H1
    }
}

/// Configuration of a heading control.
#[derive(Debug, Clone, PartialEq, Eq)]
pub struct HeadingData {
    pub level: HeadingLevel,
}

impl Default for HeadingData {
    fn default() -> (r: Self)
        ensures
            r.level is H1,
    {
        HeadingData { level: HeadingLevel::H1 }
    }
}

impl VanityControlData for HeadingData {

}

impl GetterVanityControlData for HeadingData {

}

impl<A> VanityControlBuilder<HeadingData, A> {
    /// Sets the fixed title text of this heading.
    pub fn title(self, title: &str) -> (r: Self)
        ensures
            r.display matches DisplaySource::Fixed(t) && t@ == title@,
            r.data == self.data,
            r.style_attributes == self.style_attributes,
            r.has_show_when == self.has_show_when,
    {
        let mut s = self;
        s.display = DisplaySource::Fixed(title.to_owned());
        s
    }

    /// Renders this heading as an `h1`.
    pub fn h1(self) -> (r: Self)
        ensures
            r.data.level is H1,
            same_vanity_slots(self, r),
    {
        let mut s = self;
        s.data.level = HeadingLevel::H1;
        s
    }

    /// Renders this heading as an `h2`.
    pub fn h2(self) -> (r: Self)
        ensures
            r.data.level is H2,
            same_vanity_slots(self, r),
    {
        let mut s = self;
        s.data.level = HeadingLevel::H2;
        s
    }

    /// Renders this heading as an `h3`.
    pub fn h3(self) -> (r: Self)
        ensures
            r.data.level is H3,
            same_vanity_slots(self, r),
    {
        let mut s = self;
        s.data.level = HeadingLevel::H3;
        s
    }

    /// Renders this heading as an `h4`.
    pub fn h4(self) -> (r: Self)
        ensures
            r.data.level is H4,
            same_vanity_slots(self, r),
    {
        let mut s = self;
        s.data.level = HeadingLevel::H4;
        s
    }
}

} // verus!
