//! Small shared helpers: horizontal facing and animation phase timing.

use vstd::prelude::*;

verus! {

use crate::render::FPS;

/// Which way a body faces along the horizontal axis.
#[derive(Clone, Copy, Debug, PartialEq, Eq, Structural)]
pub enum XDirection {
    Left,
    Right,
    Still,
}

/// A repeating phase counter: `phases` steps cycled `times` per second.
pub struct Frequency {
    pub times: u32,
    pub phases: u32,
}

impl Frequency {
    pub fn new(phases: u32, times: u32) -> (r: Frequency)
        ensures
            r.phases == phases,
            r.times == times,
    {
        Frequency { phases, times }
    }

    /// The phase this frequency is in at frame `tick`.
    pub fn phase(&self, tick: u32) -> (r: u32)
        requires
            self.phases > 0,
            tick * self.times <= u32::MAX,
        ensures
            r as int == (tick * self.times) as int / (FPS as int) % (self.phases as int),
    {
        tick * self.times / FPS % self.phases
    }
}

} // verus!
