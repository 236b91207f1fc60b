//! A placeholder television: the host keeps the drawing surface, the core
//! keeps only the pixel size used to scale its output rectangles.

use vstd::prelude::*;

verus! {

/// Scaling information for a host that presents the emulator's pixels.
pub struct Tv {
    /// Side length, in host pixels, of one emulator pixel.
    pub size: u8,
}

impl Tv {
    /// A television with unscaled (1:1) pixels.
    pub fn new() -> (tv: Tv)
        ensures
            tv.size == 1,
    {
        Tv { size: 1 }
    }
}

} // verus!
