use vstd::prelude::*;

use crate::bus::{BusError, MemoryBus};
use crate::instructions::{
    decode_cb_table, decode_table, immediate_len, Dst, Info, Instruction, JumpCondition, Src,
};
use crate::ops::executes;

use crate::registers::{high_byte, low_byte, pair, Reg16, Reg8, Registers};

verus! {

/// Why a step of the processor failed. Every such failure is fatal.
#[derive(Clone, Copy, Debug, PartialEq, Eq, Structural)]
pub enum CpuError {
    /// The opcode is not implemented.
    UnknownOpcode(u8),
    /// The opcode that follows a CB prefix is not implemented.
    UnknownCbOpcode(u8),
    /// A read or write on the bus failed.
    Bus(BusError),
}

/// A bus result as a processor result.
pub open spec fn on_bus<T>(r: Result<T, BusError>) -> Result<T, CpuError> {
    match r {
        Ok(v) => Ok(v),
        Err(e) => Err(CpuError::Bus(e)),
    }
}

/// `x + d`, wrapping around modulo 2^16.
pub open spec fn offset16(x: u16, d: int) -> u16
    recommends
        -0x10000 < d < 0x10000,
{
    if x + d > 0xFFFF {
        (x + d - 0x10000) as u16
    } else if x + d < 0 {
        (x + d + 0x10000) as u16
    } else {
        (x + d) as u16
    }
}

/// The 16-bit value stored low byte first at `addr` and the address after it.
pub open spec fn read_u16<B: MemoryBus>(bus: B, addr: u16) -> Result<u16, CpuError> {
    match bus.peek(addr) {
        Err(e) => Err(CpuError::Bus(e)),
        Ok(lo) => match bus.peek(offset16(addr, 1)) {
            Err(e) => Err(CpuError::Bus(e)),
            Ok(hi) => Ok(pair(hi, lo)),
        },
    }
}

/// What decoding `opcode` yields when its immediate bytes are read from `pc`
/// on.
pub open spec fn decode_spec<B: MemoryBus>(opcode: u8, pc: u16, bus: B) -> Result<
    Instruction,
    CpuError,
> {
    if decode_table(opcode, 0, 0) is None {
        Err(CpuError::UnknownOpcode(opcode))
    } else if immediate_len(opcode) == 0 {
        Ok(decode_table(opcode, 0, 0)->Some_0)
    } else if immediate_len(opcode) == 1 {
        match bus.peek(pc) {
            Err(e) => Err(CpuError::Bus(e)),
            Ok(lo) => Ok(decode_table(opcode, lo, 0)->Some_0),
        }
    } else {
        match read_u16(bus, pc) {
            Err(e) => Err(e),
            Ok(v) => Ok(decode_table(opcode, low_byte(v), high_byte(v))->Some_0),
        }
    }
}

/// What decoding a CB-prefixed `opcode` yields.
pub open spec fn decode_cb_spec(opcode: u8) -> Result<Instruction, CpuError> {
    match decode_cb_table(opcode) {
        None => Err(CpuError::UnknownCbOpcode(opcode)),
        Some(i) => Ok(i),
    }
}

/// One fetch-decode-execute cycle from `regs` and `bus`: the opcode at PC is
/// read and PC moves past it, the instruction is decoded (PC moving past its
/// immediate bytes) and executed, ending in `regs2` and `bus2` with result `r`.
pub open spec fn steps<B: MemoryBus>(
    regs: Registers,
    bus: B,
    regs2: Registers,
    bus2: B,
    r: Result<Instruction, CpuError>,
) -> bool {
    match bus.peek(regs.pc) {
        Err(e) => r == Err::<Instruction, CpuError>(CpuError::Bus(e)),
        Ok(opcode) => {
            let pc1 = offset16(regs.pc, 1);
            match decode_spec(opcode, pc1, bus) {
                Err(e) => r == Err::<Instruction, CpuError>(e),
                Ok(i) => executes(
                    i,
                    Registers { pc: offset16(pc1, immediate_len(opcode) as int), ..regs },
                    bus,
                    regs2,
                    bus2,
                    r,
                ),
            }
        },
    }
}

/// The processor: its register file. Memory is reached through a bus that
/// each operation is handed.
pub struct LR35902 {
    pub registers: Registers,
}

impl LR35902 {
    /// A processor at power-on: every register zero.
    pub fn new() -> (r: LR35902)
        ensures
            r.registers == Registers::zeroed(),
    {
        LR35902 { registers: Registers::default() }
    }

    /// Fetches the byte at PC; PC moves past it whether or not the read
    /// succeeds.
    pub(crate) fn next_u8<B: MemoryBus>(&mut self, bus: &B) -> (r: Result<u8, CpuError>)
        requires
            bus.inv(),
        ensures
            r == on_bus(bus.peek(old(self).registers.pc)),
            final(self).registers == (Registers {
                pc: offset16(old(self).registers.pc, 1),
                ..old(self).registers
            }),
    {
        let pc = self.registers.read16(Reg16::PC);
        self.registers.write16(Reg16::PC, pc.wrapping_add(1));
        match bus.read(pc) {
            Ok(v) => Ok(v),
            Err(e) => Err(CpuError::Bus(e)),
        }
    }

    /// Fetches a 16-bit immediate, low byte first.
    pub(crate) fn next_u16<B: MemoryBus>(&mut self, bus: &B) -> (r: Result<u16, CpuError>)
        requires
            bus.inv(),
        ensures
            r == read_u16(*bus, old(self).registers.pc),
            r is Ok ==> final(self).registers == (Registers {
                pc: offset16(old(self).registers.pc, 2),
                ..old(self).registers
            }),
    {
        let l = self.next_u8(bus)?;
        let h = self.next_u8(bus)?;
        Ok((h as u16) * 256 + (l as u16))
    }

    /// Decodes `opcode`, fetching its immediate bytes from PC on.
    pub fn decode<B: MemoryBus>(&mut self, opcode: u8, bus: &B) -> (r: Result<Instruction, CpuError>)
        requires
            bus.inv(),
        ensures
            r == decode_spec(opcode, old(self).registers.pc, *bus),
            r is Ok ==> final(self).registers == (Registers {
                pc: offset16(old(self).registers.pc, immediate_len(opcode) as int),
                ..old(self).registers
            }),
    {
        match opcode {
            0x00 => {
                Ok(Instruction::Nop(Info { opcode: 0x00, byte_length: 1, cycle_duration: 4 }))
            },
            0x04 => {
                Ok(Instruction::Inc(Info { opcode: 0x04, byte_length: 1, cycle_duration: 4 }, Reg8::B))
            },
            0x05 => {
                Ok(Instruction::Dec(Info { opcode: 0x05, byte_length: 1, cycle_duration: 4 }, Reg8::B))
            },
            0x06 => {
                let lo = self.next_u8(bus)?;
                Ok(Instruction::Load(Info { opcode: 0x06, byte_length: 2, cycle_duration: 8 }, Dst::Reg8(Reg8::B), Src::D8(lo)))
            },
            0x0C => {
                Ok(Instruction::Inc(Info { opcode: 0x0C, byte_length: 1, cycle_duration: 4 }, Reg8::C))
            },
            0x0D => {
                Ok(Instruction::Dec(Info { opcode: 0x0D, byte_length: 1, cycle_duration: 4 }, Reg8::C))
            },
            0x0E => {
                let lo = self.next_u8(bus)?;
                Ok(Instruction::Load(Info { opcode: 0x0E, byte_length: 2, cycle_duration: 8 }, Dst::Reg8(Reg8::C), Src::D8(lo)))
            },
            0x11 => {
                let d16 = self.next_u16(bus)?;
                Ok(Instruction::Load(Info { opcode: 0x11, byte_length: 3, cycle_duration: 12 }, Dst::Reg16(Reg16::DE), Src::D16(d16)))
            },
            0x13 => {
                Ok(Instruction::Inc16(Info { opcode: 0x13, byte_length: 1, cycle_duration: 8 }, Reg16::DE))
            },
            0x17 => {
                Ok(Instruction::RotateLeftAkku(Info { opcode: 0x17, byte_length: 1, cycle_duration: 4 }, false))
            },
            0x18 => {
                let lo = self.next_u8(bus)?;
                Ok(Instruction::Jump(Info { opcode: 0x18, byte_length: 2, cycle_duration: 12 }, lo as i8))
            },
            0x1A => {
                Ok(Instruction::Load(Info { opcode: 0x1A, byte_length: 1, cycle_duration: 8 }, Dst::Reg8(Reg8::A), Src::Reg16(Reg16::DE)))
            },
            0x1E => {
                let lo = self.next_u8(bus)?;
                Ok(Instruction::Load(Info { opcode: 0x1E, byte_length: 2, cycle_duration: 8 }, Dst::Reg8(Reg8::E), Src::D8(lo)))
            },
            0x20 => {
                let lo = self.next_u8(bus)?;
                Ok(Instruction::JumpOn(Info { opcode: 0x20, byte_length: 2, cycle_duration: 12 }, JumpCondition::NZ, lo as i8))
            },
            0x21 => {
                let d16 = self.next_u16(bus)?;
                Ok(Instruction::Load(Info { opcode: 0x21, byte_length: 3, cycle_duration: 12 }, Dst::Reg16(Reg16::HL), Src::D16(d16)))
            },
            0x22 => {
                Ok(Instruction::Load(Info { opcode: 0x22, byte_length: 1, cycle_duration: 8 }, Dst::Reg16Inc(Reg16::HL), Src::Reg8(Reg8::A)))
            },
            0x23 => {
                Ok(Instruction::Inc16(Info { opcode: 0x23, byte_length: 1, cycle_duration: 8 }, Reg16::HL))
            },
            0x28 => {
                let lo = self.next_u8(bus)?;
                Ok(Instruction::JumpOn(Info { opcode: 0x28, byte_length: 2, cycle_duration: 12 }, JumpCondition::Z, lo as i8))
            },
            0x2E => {
                let lo = self.next_u8(bus)?;
                Ok(Instruction::Load(Info { opcode: 0x2E, byte_length: 2, cycle_duration: 12 }, Dst::Reg8(Reg8::L), Src::D8(lo)))
            },
            0x31 => {
                let d16 = self.next_u16(bus)?;
                Ok(Instruction::Load(Info { opcode: 0x31, byte_length: 3, cycle_duration: 12 }, Dst::Reg16(Reg16::SP), Src::D16(d16)))
            },
            0x32 => {
                Ok(Instruction::Load(Info { opcode: 0x32, byte_length: 1, cycle_duration: 8 }, Dst::Reg16Dec(Reg16::HL), Src::Reg8(Reg8::A)))
            },
            0x3C => {
                Ok(Instruction::Inc(Info { opcode: 0x3C, byte_length: 1, cycle_duration: 4 }, Reg8::A))
            },
            0x3D => {
                Ok(Instruction::Dec(Info { opcode: 0x3D, byte_length: 1, cycle_duration: 4 }, Reg8::A))
            },
            0x3E => {
                let lo = self.next_u8(bus)?;
                Ok(Instruction::Load(Info { opcode: 0x3E, byte_length: 2, cycle_duration: 8 }, Dst::Reg8(Reg8::A), Src::D8(lo)))
            },
            0x4F => {
                Ok(Instruction::Load(Info { opcode: 0x4F, byte_length: 1, cycle_duration: 4 }, Dst::Reg8(Reg8::C), Src::Reg8(Reg8::A)))
            },
            0x57 => {
                Ok(Instruction::Load(Info { opcode: 0x57, byte_length: 1, cycle_duration: 4 }, Dst::Reg8(Reg8::D), Src::Reg8(Reg8::A)))
            },
            0x67 => {
                Ok(Instruction::Load(Info { opcode: 0x67, byte_length: 1, cycle_duration: 4 }, Dst::Reg8(Reg8::H), Src::Reg8(Reg8::A)))
            },
            0x77 => {
                Ok(Instruction::Load(Info { opcode: 0x77, byte_length: 1, cycle_duration: 8 }, Dst::Reg16(Reg16::HL), Src::Reg8(Reg8::A)))
            },
            0x7B => {
                Ok(Instruction::Load(Info { opcode: 0x7B, byte_length: 1, cycle_duration: 4 }, Dst::Reg8(Reg8::A), Src::Reg8(Reg8::E)))
            },
            0xAF => {
                Ok(Instruction::Xor(Info { opcode: 0xAF, byte_length: 1, cycle_duration: 4 }, Reg8::A))
            },
            0xC1 => {
                Ok(Instruction::Pop16(Info { opcode: 0xC1, byte_length: 1, cycle_duration: 12 }, Reg16::BC))
            },
            0xC5 => {
                Ok(Instruction::Push16(Info { opcode: 0xC5, byte_length: 1, cycle_duration: 16 }, Reg16::BC))
            },
            0xC9 => {
                Ok(Instruction::Ret(Info { opcode: 0xC9, byte_length: 1, cycle_duration: 16 }))
            },
            0xCD => {
                let d16 = self.next_u16(bus)?;
                Ok(Instruction::Call(Info { opcode: 0xCD, byte_length: 3, cycle_duration: 24 }, d16))
            },
            0xE0 => {
                let lo = self.next_u8(bus)?;
                Ok(Instruction::Load(Info { opcode: 0xE0, byte_length: 2, cycle_duration: 12 }, Dst::A8(lo), Src::Reg8(Reg8::A)))
            },
            0xE2 => {
                Ok(Instruction::Load(Info { opcode: 0xE2, byte_length: 1, cycle_duration: 8 }, Dst::PagedReg8(Reg8::C), Src::Reg8(Reg8::A)))
            },
            0xEA => {
                let d16 = self.next_u16(bus)?;
                Ok(Instruction::Load(Info { opcode: 0xEA, byte_length: 3, cycle_duration: 16 }, Dst::Addr(d16), Src::Reg8(Reg8::A)))
            },
            0xF0 => {
                let lo = self.next_u8(bus)?;
                Ok(Instruction::Load(Info { opcode: 0xF0, byte_length: 2, cycle_duration: 12 }, Dst::Reg8(Reg8::A), Src::PagedA8(lo)))
            },
            0xFE => {
                let lo = self.next_u8(bus)?;
                Ok(Instruction::Compare(Info { opcode: 0xFE, byte_length: 2, cycle_duration: 8 }, lo))
            },
            0xCB => Ok(Instruction::PrefixCB),
            _ => Err(CpuError::UnknownOpcode(opcode)),
        }
    }

    /// Runs one fetch-decode-execute cycle; returns the instruction that ran.
    pub fn step<B: MemoryBus>(&mut self, bus: &mut B) -> (r: Result<Instruction, CpuError>)
        requires
            old(bus).inv(),
        ensures
            final(bus).inv(),
            steps(old(self).registers, *old(bus), final(self).registers, *final(bus), r),
    {
        let opcode = self.next_u8(bus)?;
        let instr = self.decode(opcode, bus)?;
        proof {
            lemma_decoded_wf(opcode, instr, offset16(old(self).registers.pc, 1), *bus);
        }
        instr.execute(self, bus)
    }

    /// Decodes an opcode of the CB-prefixed table.
    pub fn decode_cb(opcode: u8) -> (r: Result<Instruction, CpuError>)
        ensures
            r == decode_cb_spec(opcode),
    {
        match opcode {
            0x11 => Ok(Instruction::RotateLeft(Info { opcode: 0x11, byte_length: 2, cycle_duration: 8 }, Reg8::C, true)),
            0x7C => Ok(Instruction::Bit(Info { opcode: 0x7C, byte_length: 2, cycle_duration: 8 }, 7, Reg8::H)),
            _ => Err(CpuError::UnknownCbOpcode(opcode)),
        }
    }
}

/// Every instruction the decoder yields can be executed.
proof fn lemma_decoded_wf<B: MemoryBus>(opcode: u8, i: Instruction, pc: u16, bus: B)
    requires
        decode_spec(opcode, pc, bus) == Ok::<Instruction, CpuError>(i),
    ensures
        i.wf(),
{
}

} // verus!
