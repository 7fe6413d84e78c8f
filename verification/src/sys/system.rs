//! The driver's view of the machine: one processor, one interconnect, and a
//! step that runs an instruction and lets the video unit catch up.

use vstd::prelude::*;
use crate::cpu::cpu::Cpu;
use crate::cpu::cpu::CpuView;
use crate::cpu::cpu::DecodeFailure;
use crate::cpu::laws::lemma_step_invariants;
use crate::mem::mmu::Mmu;
use crate::mem::mmu::MmuView;
use crate::vid::gpu::Timing;

verus! {

/// The interconnect after the video unit was stepped by the cycles that an
/// instruction took. After a failure to decode the video unit stands still.
pub open spec fn video_catches_up(mem: MmuView, result: Result<usize, DecodeFailure>) -> MmuView {
    match result {
        Ok(ncycles) => MmuView { gpu: mem.gpu.step(ncycles), ..mem },
        Err(_) => mem,
    }
}

/// What holds of every step of the machine. The boot image is never mapped
/// or unmapped, memory stays well formed, and the framebuffer is not drawn
/// on. After a step that succeeds the display has moved by exactly the
/// cycles that the step returns; after a failure it has not moved.
pub proof fn lemma_step_drives_display(cpu: CpuView, mem: MmuView)
    requires
        mem.wf(),
        cpu.curr_opcode matches Some(opcode) ==> opcode.inv(),
    ensures
        ({
            let run = cpu.spec_step(mem);
            let after = video_catches_up(run.mem, run.result);
            &&& after.wf()
            &&& after.bios_mapped == mem.bios_mapped
            &&& after.wram == run.mem.wram
            &&& after.zram == run.mem.zram
            &&& after.gpu.vram == run.mem.gpu.vram
            &&& after.gpu.frame == mem.gpu.frame
            &&& run.result matches Ok(ncycles) ==> after.gpu.timing == Timing::at(
                mem.gpu.timing.pos() + ncycles,
            )
            &&& run.result is Err ==> after.gpu.timing == mem.gpu.timing
        }),
{
    lemma_step_invariants(cpu, mem);
}

/// The machine.
pub struct System {
    pub cpu: Cpu,
    pub mmu: Mmu,
}

impl System {
    /// Creates the machine at power-on: the processor runs with every
    /// register zero, the boot image is mapped, and all RAM is zeroed.
    pub fn new() -> (r: System)
        ensures
            r.cpu@ == CpuView::powered_on(),
            r.mmu@ == MmuView::powered_on(),
    {
        System { cpu: Cpu::new(), mmu: Mmu::new() }
    }

    /// Steps the processor once, then steps the video unit by the cycles
    /// that the processor took. Returns those cycles, or the failure to
    /// decode.
    pub fn step(&mut self) -> (r: Result<usize, DecodeFailure>)
        ensures
            r == old(self).cpu@.spec_step(old(self).mmu@).result,
            final(self).cpu@ == old(self).cpu@.spec_step(old(self).mmu@).cpu,
            final(self).mmu@ == video_catches_up(
                old(self).cpu@.spec_step(old(self).mmu@).mem,
                r,
            ),
    {
        let res = self.cpu.step(&mut self.mmu);
        match res {
            Ok(ncycles) => {
                self.mmu.gpu.step(ncycles);
            },
            Err(_) => {},
        }
        res
    }
}

} // verus!
