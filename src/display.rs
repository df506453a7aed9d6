//! The 64×32 monochrome framebuffer.

use vstd::prelude::*;

verus! {

/// Width of the display in pixels.
pub const WIDTH: usize = 64;

/// Height of the display in pixels.
pub const HEIGHT: usize = 32;

/// Number of pixels on the display.
pub const CELLS: usize = 2048;

/// Position of pixel (x, y) in the flat cell sequence: columns are contiguous.
pub open spec fn cell_index(x: int, y: int) -> int {
    x * 32 + y
}

/// A grid of 64×32 pixels, stored column by column: pixel (x, y) is
/// `cells[x * 32 + y]`.
pub struct FrameBuffer {
    pub cells: [bool; 2048],
}

impl View for FrameBuffer {
    type V = Seq<bool>;

    open spec fn view(&self) -> Seq<bool> {
        self.cells@
    }
}

/// Every pixel of `cells` is off.
pub open spec fn all_clear(cells: Seq<bool>) -> bool {
    forall|k: int| 0 <= k < cells.len() ==> !#[trigger] cells[k]
}

impl FrameBuffer {
    /// A display with every pixel off.
    pub fn new() -> (r: FrameBuffer)
        ensures
            r@.len() == CELLS,
            all_clear(r@),
    {
        FrameBuffer { cells: [false; 2048] }
    }

    /// Whether pixel (x, y) is on.
    pub fn get(&self, x: usize, y: usize) -> (r: bool)
        requires
            x < WIDTH,
            y < HEIGHT,
        ensures
            r == self@[cell_index(x as int, y as int)],
    {
        self.cells[x * 32 + y]
    }

    /// Turns every pixel off.
    pub fn clear(&mut self)
        ensures
            final(self)@.len() == CELLS,
            all_clear(final(self)@),
    {
        let mut k: usize = 0;
        while k < CELLS
            invariant
                0 <= k <= CELLS,
                self@.len() == CELLS,
                forall|j: int| 0 <= j < k ==> !#[trigger] self@[j],
            decreases CELLS - k,
        {
            self.cells[k] = false;
            k = k + 1;
        }
    }
}

} // verus!
