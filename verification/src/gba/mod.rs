//! The console.
use crate::cpu::{stepped, RegisterFile, ARM7TDMI, REG_PC};
use crate::fault::Fault;
use crate::gamepak::GamePak;
use crate::mem::{default_layout, with_cartridge, Memory, PAK_ROM};
use vstd::prelude::*;

verus! {

/// The console: one processor and the memory bus it runs against.
pub struct GBA {
    pub cpu: ARM7TDMI,
    pub mem: Memory,
}

impl GBA {
    /// A console with the processor reset and memory in its default layout.
    pub fn new() -> (console: GBA)
        ensures
            console.cpu@ == RegisterFile::zeroed(),
            console.mem@ == default_layout(),
    {
        GBA { cpu: ARM7TDMI::new(), mem: Memory::new() }
    }

    /// Installs a cartridge at the cartridge ROM windows, resets the
    /// processor and points the program counter at the first window. The
    /// rest of memory stays as it is. Always succeeds.
    pub fn load(&mut self, gp: GamePak) -> (r: Result<(), String>)
        ensures
            r is Ok,
            final(self).mem@ == with_cartridge(old(self).mem@, gp@),
            final(self).cpu@ == RegisterFile::zeroed().set(REG_PC as int, PAK_ROM),
    {
        self.mem.load_pak(gp.data());

        self.cpu.reset();
        self.cpu.set_reg(REG_PC, PAK_ROM);

        Ok(())
    }

    /// Runs exactly one instruction; see [`ARM7TDMI::step`]. Memory is
    /// only read.
    pub fn step(&mut self) -> (r: Result<(), Fault>)
        ensures
            final(self).mem@ == old(self).mem@,
            match r {
                Ok(()) => stepped(old(self).cpu@, old(self).mem@) == Ok::<RegisterFile, Fault>(
                    final(self).cpu@,
                ),
                Err(fault) => stepped(old(self).cpu@, old(self).mem@) == Err::<
                    RegisterFile,
                    Fault,
                >(fault) && final(self).cpu@ == old(self).cpu@,
            },
    {
        self.cpu.step(&self.mem)
    }
}

} // verus!
