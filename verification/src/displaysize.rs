//! Panel geometry.

use vstd::prelude::*;

verus! {

/// The physical panel variants that the renderer knows.
#[derive(Clone, Copy, Debug, PartialEq, Eq, Structural)]
pub enum DisplaySize {
    /// 128 by 64 pixels
    Display128x64,
    /// 128 by 32 pixels
    Display128x32,
    /// 96 by 16 pixels
    Display96x16,
    /// A 128 by 32 panel driven with its controller's quirks
    Quirk128x32,
}

impl DisplaySize {
    /// Width and height of the panel in pixels.
    pub open spec fn pixel_dimensions(self) -> (u8, u8) {
        match self {
            DisplaySize::Display128x64 => (128u8, 64u8),
            DisplaySize::Display128x32 => (128u8, 32u8),
            DisplaySize::Quirk128x32 => (128u8, 32u8),
            DisplaySize::Display96x16 => (96u8, 16u8),
        }
    }

    /// Width and height of the panel in pixels.
    pub fn dimensions(&self) -> (dims: (u8, u8))
        ensures
            dims == self.pixel_dimensions(),
    {
        match *self {
            DisplaySize::Display128x64 => (128, 64),
            DisplaySize::Display128x32 => (128, 32),
            DisplaySize::Quirk128x32 => (128, 32),
            DisplaySize::Display96x16 => (96, 16),
        }
    }
}

} // verus!
