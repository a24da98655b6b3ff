//! The resolution that the game is rendered for, kept apart from the size of
//! the window so that fullscreen modes can keep the monitor's own pixels.

use vstd::prelude::*;

verus! {

/// The logical size that camera scaling follows, in whole pixels.
#[derive(Clone, Copy, Debug, PartialEq, Eq, Hash, Structural)]
pub struct GameRenderResolution {
    /// Width in pixels.
    pub width: u32,
    /// Height in pixels.
    pub height: u32,
}

impl Default for GameRenderResolution {
    fn default() -> (resolution: Self)
        ensures
            resolution.width == 1920,
            resolution.height == 1080,
    {
        GameRenderResolution { width: 1920, height: 1080 }
    }
}

impl GameRenderResolution {
    /// The smallest area that the camera must show whole: scaling keeps at
    /// least this width and this height in view.
    pub fn min_view(&self) -> (size: (u32, u32))
        ensures
            size == (self.width, self.height),
    {
        (self.width, self.height)
    }
}

} // verus!
