use vstd::prelude::*;

verus! {

/// Width of the pixel grid.
pub const SCREEN_WIDTH: usize = 64;

/// Height of the pixel grid.
pub const SCREEN_HEIGHT: usize = 32;

/// Number of pixels in the grid.
pub const SCREEN_PIXELS: usize = 2048;

/// The pixel at column `x`, row `y` of a flat pixel sequence.
pub open spec fn pixel_at(pixels: Seq<bool>, x: int, y: int) -> bool {
    pixels[y * 64 + x]
}

/// An all-off pixel grid.
pub open spec fn cleared_pixels() -> Seq<bool> {
    Seq::new(SCREEN_PIXELS as nat, |p: int| false)
}

/// The 64 by 32 monochrome pixel grid that sprite draws XOR into. Stored
/// row-major: the pixel at column `x`, row `y` sits at index `y * 64 + x`.
pub struct Framebuffer {
    pub cells: Vec<bool>,
}

impl Framebuffer {
    pub open spec fn wf(&self) -> bool {
        self.cells@.len() == SCREEN_PIXELS
    }

    /// The grid as a flat row-major sequence of pixel states.
    pub open spec fn view(&self) -> Seq<bool> {
        self.cells@
    }

    /// A framebuffer with every pixel off.
    pub fn new() -> (fb: Framebuffer)
        ensures
            fb.wf(),
            fb@ == cleared_pixels(),
    {
        let cells: Vec<bool> = vec![false; SCREEN_PIXELS];
        proof {
            assert(cells@ =~= cleared_pixels());
        }
        Framebuffer { cells }
    }

    /// Switches every pixel off.
    pub fn clear(&mut self)
        requires
            old(self).wf(),
        ensures
            final(self).wf(),
            final(self)@ == cleared_pixels(),
    {
        let mut p: usize = 0;
        while p < SCREEN_PIXELS
            invariant
                p <= SCREEN_PIXELS,
                self.cells@.len() == SCREEN_PIXELS,
                forall|q: int| 0 <= q < p ==> !self.cells@[q],
            decreases SCREEN_PIXELS - p,
        {
            self.cells[p] = false;
            p += 1;
        }
        proof {
            assert(self.cells@ =~= cleared_pixels());
        }
    }

    /// Reads the pixel at column `x`, row `y`.
    pub fn get_pixel(&self, x: usize, y: usize) -> (r: bool)
        requires
            self.wf(),
            x < SCREEN_WIDTH,
            y < SCREEN_HEIGHT,
        ensures
            r == pixel_at(self@, x as int, y as int),
    {
        self.cells[y * 64 + x]
    }

    /// Writes the pixel at column `x`, row `y`.
    pub fn set_pixel(&mut self, x: usize, y: usize, on: bool)
        requires
            old(self).wf(),
            x < SCREEN_WIDTH,
            y < SCREEN_HEIGHT,
        ensures
            final(self).wf(),
            final(self)@ == old(self)@.update(y * 64 + x, on),
    {
        self.cells[y * 64 + x] = on;
    }
}

} // verus!
