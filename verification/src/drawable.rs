//! The display capability that the engine drives.

use vstd::prelude::*;
use crate::constants::{SCREEN_WIDTH, SCREEN_HEIGHT};

verus! {

/// Number of pixels on the screen.
pub open spec fn fb_size() -> int {
    (SCREEN_WIDTH as int) * (SCREEN_HEIGHT as int)
}

/// Position of pixel (x, y) in a row-major framebuffer.
pub open spec fn fb_index(x: u8, y: u8) -> int {
    (y as int) * (SCREEN_WIDTH as int) + (x as int)
}

/// A framebuffer with every pixel off.
pub open spec fn blank_fb() -> Seq<bool> {
    Seq::new(fb_size() as nat, |i: int| false)
}

/// The framebuffer after one plot: the pixel at (x, y) is xor-ed with the
/// sprite bit (`set > 0` means the bit is on).
pub open spec fn spec_plot(fb: Seq<bool>, x: u8, y: u8, set: u8) -> Seq<bool> {
    fb.update(fb_index(x, y), fb[fb_index(x, y)] ^ (set > 0))
}

/// Whether one plot reports a collision: a previously lit pixel is cleared.
pub open spec fn spec_plot_collision(fb: Seq<bool>, x: u8, y: u8, set: u8) -> bool {
    fb[fb_index(x, y)] && set > 0
}

/// Plotting the same bit at the same place twice restores the framebuffer:
/// the xor protocol makes every draw its own eraser. The second plot of a
/// lit bit is the one that reports a collision.
pub proof fn lemma_plot_twice_restores(fb: Seq<bool>, x: u8, y: u8, set: u8)
    requires
        fb.len() == fb_size(),
        x < SCREEN_WIDTH as u8,
        y < SCREEN_HEIGHT as u8,
    ensures
        spec_plot(spec_plot(fb, x, y, set), x, y, set) == fb,
        set > 0 && !fb[fb_index(x, y)] ==> {
            &&& !spec_plot_collision(fb, x, y, set)
            &&& spec_plot_collision(spec_plot(fb, x, y, set), x, y, set)
        },
{
    assert(spec_plot(spec_plot(fb, x, y, set), x, y, set) =~= fb);
}

/// A screen. Plots xor sprite bits into a framebuffer of
/// `SCREEN_WIDTH * SCREEN_HEIGHT` pixels and report collisions.
pub trait Drawable {
    /// The pixels, row-major; `true` is lit. A screen that keeps no pixels
    /// of its own may leave the default, at the price of contracts that
    /// say nothing about it.
    open spec fn fb(&self) -> Seq<bool> {
        Seq::empty()
    }

    /// Xor-plots one pixel value and reports whether a lit pixel was cleared.
    fn draw(&mut self, x: u8, y: u8, set: u8) -> (collision: bool)
        requires
            x < SCREEN_WIDTH as u8,
            y < SCREEN_HEIGHT as u8,
        ensures
            final(self).fb() == spec_plot(old(self).fb(), x, y, set),
            collision == spec_plot_collision(old(self).fb(), x, y, set),
    ;

    /// Turns every pixel off.
    fn cls(&mut self)
        ensures
            final(self).fb() == blank_fb(),
    ;

    /// Flushes the framebuffer to the output; the pixels do not change.
    fn present(&mut self)
        ensures
            final(self).fb() == old(self).fb(),
    ;
}

} // verus!
