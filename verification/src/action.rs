//! Everything the user can ask the explorer to do.
//!
//! Pixel offsets, zoom factors and iteration-bias values are carried as an
//! opaque scalar `F`, and absolute points on the complex plane as `C`; the
//! application instantiates both with its floating-point types.

use vstd::prelude::*;
use crate::fractal::palette::Palette;

verus! {

#[derive(Copy, Clone, PartialEq, Debug)]
pub enum Action<F, C> {
    /// Drag the view by a pixel delta.
    Pan { dx: F, dy: F },
    /// Zoom about a pixel position, keeping the world point under it fixed.
    ZoomAt { px: F, py: F, factor: F },
    /// Jump the centre to an absolute point.
    SetCenter(C),
    /// Multiply the iteration bias
    ScaleIterBias(F),
    /// Set the iteration bias
    SetIterBias(F),
    SetPalette(Palette),
    /// Advance to the next palette
    CyclePalette,
    /// Return to the home view
    ResetView,
    /// Print the current coordinates
    LogPosition,
    /// Quit
    Exit,
}

impl<F, C> Action<F, C> {
    /// Whether this action belongs to the application (the event loop) rather
    /// than to the scene.
    pub fn is_app_level(self) -> (r: bool)
        ensures
            r == (self is Exit),
    {
        match self {
            Action::Exit => true,
            _ => false,
        }
    }
}

} // verus!
