//! The output control: read-only text derived from the form data.

use vstd::prelude::*;
use crate::controls::{GetterVanityControlData, VanityControlData};

verus! {

/// Configuration of an output control.  It has none of its own: what it
/// displays comes entirely from its getter.
#[derive(Debug, Clone, PartialEq, Eq)]
pub struct OutputData;

impl Default for OutputData {
    fn default() -> (r: Self) {
        OutputData
    }
}

impl VanityControlData for OutputData {

}

impl GetterVanityControlData for OutputData {

}

} // verus!
