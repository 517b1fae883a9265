//! The sound capability that the engine drives.

use vstd::prelude::*;

verus! {

/// A sound device. The engine turns the tone on when a program loads the
/// sound timer and off when the timer runs out; both calls are idempotent.
pub trait Audible {
    /// Whether the tone is currently sounding. A device that keeps no such
    /// state may leave the default, at the price of contracts that say
    /// nothing about it.
    open spec fn playing(&self) -> bool {
        false
    }

    /// Starts the tone.
    fn enable_sound(&mut self)
        ensures
            final(self).playing(),
    ;

    /// Stops the tone.
    fn disable_sound(&mut self)
        ensures
            !final(self).playing(),
    ;
}

} // verus!
