//! An in-memory sound device with no output attached.

use vstd::prelude::*;
use crate::audible::Audible;

verus! {

/// A sound device that only remembers whether the tone is on.
/// It serves headless runs and tests.
pub struct DummySoundDevice {
    /// Whether the tone is on.
    pub on: bool,
}

impl DummySoundDevice {
    /// A device with the tone off.
    pub fn new() -> (d: DummySoundDevice)
        ensures
            !d.playing(),
    {
        DummySoundDevice { on: false }
    }
}

impl Audible for DummySoundDevice {
    open spec fn playing(&self) -> bool {
        self.on
    }

    fn enable_sound(&mut self) {
        self.on = true;
    }

    fn disable_sound(&mut self) {
        self.on = false;
    }
}

} // verus!
