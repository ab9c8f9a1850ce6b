use vstd::prelude::*;

use crate::cpu::{StepError, SM83};
use crate::execute::steps;
use crate::memory::MemoryMap;

verus! {

/// A core wired to its bus.
pub struct Motherboard {
    pub cpu: SM83,
    pub memory_map: MemoryMap,
}

impl Motherboard {
    pub open spec fn wf(&self) -> bool {
        self.memory_map.wf()
    }

    /// A reset core on a bus of zeros.
    pub fn new() -> (r: Motherboard)
        ensures
            r.wf(),
            r.cpu == (SM83 {
                registers: crate::registers::RegisterFile::new_spec(),
                ime: false,
                ime_pending: false,
                state: crate::cpu::CpuState::Running,
            }),
            forall|i: int| 0 <= i < 0x10000 ==> r.memory_map@[i] == 0,
    {
        Motherboard { cpu: SM83::new(), memory_map: MemoryMap::new() }
    }

    /// One step of the core against the bus; see `SM83::step`.
    pub fn step(&mut self, interrupt: Option<u16>) -> (r: Result<u8, StepError>)
        requires
            old(self).wf(),
        ensures
            final(self).wf(),
            steps(
                old(self).cpu,
                old(self).memory_map@,
                interrupt,
                final(self).cpu,
                final(self).memory_map@,
                r,
            ),
    {
        self.cpu.step(&mut self.memory_map, interrupt)
    }
}

} // verus!
