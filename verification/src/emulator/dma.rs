use vstd::prelude::*;

use crate::emulator::memory::Memory;
use crate::emulator::TimeCycle;

verus! {

/// The OAM DMA unit.
pub struct Dma {
    pub cycles_left: Option<TimeCycle>,
}

impl Dma {
    /// A DMA unit with no transfer under way.
    pub fn new() -> (r: Self)
        ensures
            r.cycles_left is None,
    {
        Self { cycles_left: None }
    }

    /// Advances transfers by `steps`; no transfer is modelled yet, so memory stays as it is.
    pub fn step(memory: &mut Memory, steps: TimeCycle)
        ensures
            *final(memory) == *old(memory),
    {
    }
}

} // verus!
