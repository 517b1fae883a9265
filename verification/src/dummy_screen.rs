//! An in-memory screen with no output attached.

use vstd::prelude::*;
use crate::constants::SCREEN_WIDTH;
use crate::drawable::{Drawable, blank_fb, fb_index, spec_plot, spec_plot_collision};

verus! {

/// A screen that keeps its framebuffer in memory and presents nowhere.
/// It serves headless runs and tests.
pub struct DummyScreen {
    /// The pixels, row-major; `true` is lit.
    pub pixels: [bool; 2048],
}

impl DummyScreen {
    /// A screen with every pixel off.
    pub fn new() -> (s: DummyScreen)
        ensures
            s.fb() == blank_fb(),
    {
        let s = DummyScreen { pixels: [false; 2048] };
        proof {
            assert(s.pixels@ =~= blank_fb());
        }
        s
    }

    /// Reads one pixel.
    pub fn pixel(&self, x: u8, y: u8) -> (lit: bool)
        requires
            x < SCREEN_WIDTH as u8,
            y < 32,
        ensures
            lit == self.fb()[fb_index(x, y)],
    {
        self.pixels[(y as usize) * SCREEN_WIDTH + (x as usize)]
    }
}

impl Drawable for DummyScreen {
    open spec fn fb(&self) -> Seq<bool> {
        self.pixels@
    }

    fn draw(&mut self, x: u8, y: u8, set: u8) -> (collision: bool) {
        let idx: usize = (y as usize) * SCREEN_WIDTH + (x as usize);
        let was_lit = self.pixels[idx];
        self.pixels[idx] = was_lit ^ (set > 0);
        proof {
            assert(self.pixels@ == spec_plot(old(self).pixels@, x, y, set));
        }
        was_lit && set > 0
    }

    fn cls(&mut self) {
        self.pixels = [false; 2048];
        proof {
            assert(self.pixels@ =~= blank_fb());
        }
    }

    fn present(&mut self) {
    }
}

} // verus!
