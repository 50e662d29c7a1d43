//! The committed display state: one frame plus the global brightness
//! scalar.

use vstd::prelude::*;

use crate::grid::BRIGHTNESS_LEVELS;
use crate::grid::Grid;
use crate::grid::blank;

verus! {

/// What is on screen now: the committed frame and the global brightness
/// scalar (0-255) applied uniformly to every pixel at write time. Mutations
/// do not auto-flush: a caller must push the state anew for a change to
/// become visible, and a failed push leaves this state untouched as the
/// source of truth for a retry.
pub struct DisplayState {
    /// The committed frame.
    pub grid: Grid,
    /// Global brightness scalar: 0 turns every pixel off, 255 leaves the
    /// frame's own levels unchanged.
    pub brightness: u8,
}

impl DisplayState {
    /// The committed frame keeps the fixed matrix dimensions.
    pub open spec fn wf(self) -> bool {
        self.grid.wf()
    }

    /// Replace the committed frame; the brightness scalar keeps its value.
    pub fn set_grid(&mut self, grid: Grid)
        requires
            old(self).wf(),
            grid.wf(),
        ensures
            final(self).wf(),
            final(self).grid == grid,
            final(self).brightness == old(self).brightness,
    {
        self.grid = grid;
    }

    /// Replace the brightness scalar; the committed frame keeps its value.
    pub fn set_brightness(&mut self, brightness: u8)
        requires
            old(self).wf(),
        ensures
            final(self).wf(),
            final(self).brightness == brightness,
            final(self).grid == old(self).grid,
    {
        self.brightness = brightness;
    }
}

impl Default for DisplayState {
    /// A fresh state shows nothing, at full brightness.
    fn default() -> (s: DisplayState)
        ensures
            s.wf(),
            s.grid@ == blank(),
            s.brightness == BRIGHTNESS_LEVELS,
    {
        DisplayState { grid: Grid::default(), brightness: BRIGHTNESS_LEVELS }
    }
}

} // verus!
