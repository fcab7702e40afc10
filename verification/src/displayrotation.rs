//! Panel orientation.

use vstd::prelude::*;

verus! {

/// How the picture is turned on the panel, clockwise.
#[derive(Clone, Copy, Debug, PartialEq, Eq, Structural)]
pub enum DisplayRotation {
    /// No rotation
    Rotate0,
    /// A quarter turn
    Rotate90,
    /// A half turn
    Rotate180,
    /// Three quarters of a turn
    Rotate270,
}

} // verus!
