//! The read-only surface a visualization front-end consumes: it owns the
//! processor and hands out register snapshots and the cartridge title,
//! never mutating core state.

use crate::cpu::Cpu;
use crate::cpu::RegSnapshot;
use crate::isa::CpuView;
use vstd::prelude::*;

verus! {

/// The state container a front-end displays.
pub struct Gui {
    cpu: Cpu,
}

impl View for Gui {
    type V = CpuView;

    closed spec fn view(&self) -> CpuView {
        self.cpu@
    }
}

impl Gui {
    pub fn new(cpu: Cpu) -> (g: Gui)
        ensures
            g@ == cpu@,
    {
        Gui { cpu }
    }

    /// Every register value, read-only.
    pub fn snapshot(&self) -> (s: RegSnapshot)
        ensures
            s.a == self@.a && s.b == self@.b && s.c == self@.c && s.d == self@.d,
            s.e == self@.e && s.f == self@.f && s.h == self@.h && s.l == self@.l,
            s.sp == self@.sp && s.pc == self@.pc,
    {
        self.cpu.snapshot()
    }

    /// The loaded cartridge's title, read-only.
    pub fn title(&self) -> (t: &String)
        ensures
            t@ == self@.bus.rom.title,
    {
        self.cpu.membus().rom().get_title()
    }
}

} // verus!
