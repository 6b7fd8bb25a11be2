use vstd::prelude::*;

use crate::bus::{BusError, MemoryBus};
use crate::cpu::{steps, CpuError, LR35902};
use crate::instructions::Instruction;
use crate::interconnect::Interconnect;
use crate::registers::{Reg16, Registers};

verus! {

/// The whole machine: the processor and the bus it is wired to.
pub struct GameBoy {
    cpu: LR35902,
    interconnect: Interconnect,
}

impl GameBoy {
    /// The bus behind the processor.
    pub closed spec fn bus(&self) -> Interconnect {
        self.interconnect
    }

    /// The processor's registers.
    pub closed spec fn regs(&self) -> Registers {
        self.cpu.registers
    }

    pub open spec fn wf(&self) -> bool {
        self.bus().wf()
    }

    /// A machine at power-on, with the boot ROM and cartridge images given.
    pub fn new(bootrom: Vec<u8>, rom: Vec<u8>) -> (r: GameBoy)
        ensures
            r.wf(),
            r.regs() == Registers::zeroed(),
            r.bus()@.bootrom == bootrom@,
            r.bus()@.cartridge == rom@,
    {
        GameBoy { cpu: LR35902::new(), interconnect: Interconnect::new(bootrom, rom) }
    }

    /// The program counter, where the next instruction is fetched.
    pub fn pc(&self) -> (r: u16)
        ensures
            r == self.regs().pc,
    {
        self.cpu.registers.read16(Reg16::PC)
    }

    /// The register file, for inspection.
    pub fn registers(&self) -> (r: &Registers)
        ensures
            *r == self.regs(),
    {
        &self.cpu.registers
    }

    /// The bus, for inspection.
    pub fn interconnect(&self) -> (r: &Interconnect)
        ensures
            *r == self.bus(),
    {
        &self.interconnect
    }

    /// The byte a read at `addr` would return, for inspection.
    pub fn mem(&self, addr: u16) -> (r: Result<u8, BusError>)
        requires
            self.wf(),
        ensures
            r == self.bus().peek(addr),
    {
        self.interconnect.read(addr)
    }

    /// Executes exactly one fetch-decode-execute cycle.
    pub fn step(&mut self) -> (r: Result<Instruction, CpuError>)
        requires
            old(self).wf(),
        ensures
            final(self).wf(),
            steps(
                old(self).regs(),
                old(self).bus(),
                final(self).regs(),
                final(self).bus(),
                r,
            ),
    {
        self.cpu.step(&mut self.interconnect)
    }
}

} // verus!
