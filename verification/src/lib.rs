pub mod arm7tdmi;
pub mod audio;
pub mod bios;
pub mod bits;
pub mod bus;
pub mod cart;
pub mod dma;
pub mod gba;
pub mod irq;
pub mod keypad;
pub mod timer;
pub mod util;
pub mod video;

use vstd::prelude::*;

verus! {

/// A ROM image of a size that its kind of ROM cannot have.
#[derive(Debug, Default, Copy, Clone, Eq, PartialEq)]
pub struct InvalidRomSize;

impl InvalidRomSize {
    /// The error's description.
    pub fn message(&self) -> (r: &'static str)
        ensures
            r@ == "Invalid ROM size"@,
    {
        "Invalid ROM size"
    }
}

} // verus!
