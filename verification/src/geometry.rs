use vstd::prelude::*;

verus! {

/// Number of subpixel units in one pixel: positions and displacements are
/// carried in thousandths of a pixel so that one frame's movement,
/// speed (pixels per second) times elapsed time (milliseconds), is a whole
/// number of units.
pub const SUBPIXELS_PER_PIXEL: i64 = 1000;

/// Largest magnitude a coordinate may take, in subpixels (a billion
/// pixels): far beyond any window, and small enough that a frame's
/// displacement can always be added without overflowing `i64`.
pub const COORD_LIMIT: i64 = 1_000_000_000_000;

/// A point of the plane in subpixels, with the window's centre at the
/// origin, x growing rightward and y growing upward.
#[derive(Clone, Copy, PartialEq, Eq, Structural, Debug)]
pub struct Translation {
    pub x: i64,
    pub y: i64,
}

impl Translation {
    /// Both coordinates stay within the machine-imposed coordinate range.
    pub open spec fn wf(self) -> bool {
        &&& -COORD_LIMIT <= self.x <= COORD_LIMIT
        &&& -COORD_LIMIT <= self.y <= COORD_LIMIT
    }
}

} // verus!
