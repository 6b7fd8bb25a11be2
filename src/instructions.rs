use vstd::prelude::*;

use crate::registers::{pair, Flags, Reg16, Reg8};

verus! {

/// Decode metadata, kept for tracing: the opcode byte, how many bytes the
/// instruction takes, and how many clock cycles it lasts.
#[derive(Clone, Copy, Debug, PartialEq, Eq, Structural)]
pub struct Info {
    pub opcode: u8,
    pub byte_length: usize,
    pub cycle_duration: usize,
}

/// Where a load takes its value from.
#[derive(Clone, Copy, Debug, PartialEq, Eq, Structural)]
pub enum Src {
    /// The byte at 0xFF00 plus an 8-bit immediate.
    PagedA8(u8),
    /// An 8-bit immediate.
    D8(u8),
    /// A 16-bit immediate.
    D16(u16),
    /// An 8-bit register.
    Reg8(Reg8),
    /// The byte at the address that a 16-bit register holds.
    Reg16(Reg16),
}

/// Where a load puts its value.
#[derive(Clone, Copy, Debug, PartialEq, Eq, Structural)]
pub enum Dst {
    /// The byte at 0xFF00 plus an 8-bit immediate.
    A8(u8),
    /// An 8-bit register.
    Reg8(Reg8),
    /// The byte at 0xFF00 plus the value of an 8-bit register.
    PagedReg8(Reg8),
    /// A 16-bit register.
    Reg16(Reg16),
    /// The byte at the address that a 16-bit register holds, which is then
    /// incremented.
    Reg16Inc(Reg16),
    /// The byte at the address that a 16-bit register holds, which is then
    /// decremented.
    Reg16Dec(Reg16),
    /// The byte at an absolute address.
    Addr(u16),
}

/// The condition of a conditional jump, tested against the flags.
#[derive(Clone, Copy, Debug, PartialEq, Eq, Structural)]
pub enum JumpCondition {
    NZ,
    Z,
}

impl JumpCondition {
    pub open spec fn holds(self, flags: Flags) -> bool {
        match self {
            JumpCondition::NZ => !flags.zero,
            JumpCondition::Z => flags.zero,
        }
    }

    pub fn check(&self, flags: Flags) -> (r: bool)
        ensures
            r == self.holds(flags),
    {
        match *self {
            JumpCondition::NZ => !flags.zero,
            JumpCondition::Z => flags.zero,
        }
    }
}

/// A decoded instruction.
///
/// `Ret` carries no address: the return address is popped from the stack when
/// the instruction executes, so decoding reads only the instruction's own
/// bytes and never touches the stack.
#[derive(Clone, Copy, Debug, PartialEq, Eq, Structural)]
pub enum Instruction {
    Nop(Info),
    /// Test a bit (0 to 7) of a register.
    Bit(Info, usize, Reg8),
    Dec(Info, Reg8),
    Inc(Info, Reg8),
    Load(Info, Dst, Src),
    /// Exclusive-or of the accumulator with a register, into the accumulator.
    Xor(Info, Reg8),
    Call(Info, u16),
    JumpOn(Info, JumpCondition, i8),
    Jump(Info, i8),
    Ret(Info),
    Push16(Info, Reg16),
    Pop16(Info, Reg16),
    /// Rotate a register left through the carry; the flag tells whether the
    /// ZERO flag reports a zero result.
    RotateLeft(Info, Reg8, bool),
    /// Rotate the accumulator left through the carry.
    RotateLeftAkku(Info, bool),
    Inc16(Info, Reg16),
    /// Compare the accumulator with a value, setting the flags only.
    Compare(Info, u8),
    /// The next byte selects from the CB-prefixed opcode table.
    PrefixCB,
}

impl Instruction {
    /// The instruction can be executed: a bit test names one of eight bits.
    pub open spec fn wf(self) -> bool {
        match self {
            Instruction::Bit(_, bit, _) => bit < 8,
            _ => true,
        }
    }
}

pub open spec fn info(opcode: u8, byte_length: usize, cycle_duration: usize) -> Info {
    Info { opcode, byte_length, cycle_duration }
}

/// How many immediate bytes follow the opcode.
pub open spec fn immediate_len(opcode: u8) -> nat {
    match opcode {
        0x06 | 0x0E | 0x18 | 0x1E | 0x20 | 0x28 | 0x2E | 0x3E | 0xE0 | 0xF0 | 0xFE => 1,
        0x11 | 0x21 | 0x31 | 0xCD | 0xEA => 2,
        _ => 0,
    }
}

/// The instruction that `opcode` stands for, given the bytes `lo` and `hi`
/// that follow it (as many of them as `immediate_len` says; a 16-bit
/// immediate is stored low byte first). None for an opcode that is not
/// implemented.
pub open spec fn decode_table(opcode: u8, lo: u8, hi: u8) -> Option<Instruction> {
    let d16 = pair(hi, lo);
    match opcode {
        0x00 => Some(Instruction::Nop(info(0x00, 1, 4))),
        0x04 => Some(Instruction::Inc(info(0x04, 1, 4), Reg8::B)),
        0x05 => Some(Instruction::Dec(info(0x05, 1, 4), Reg8::B)),
        0x06 => Some(Instruction::Load(info(0x06, 2, 8), Dst::Reg8(Reg8::B), Src::D8(lo))),
        0x0C => Some(Instruction::Inc(info(0x0C, 1, 4), Reg8::C)),
        0x0D => Some(Instruction::Dec(info(0x0D, 1, 4), Reg8::C)),
        0x0E => Some(Instruction::Load(info(0x0E, 2, 8), Dst::Reg8(Reg8::C), Src::D8(lo))),
        0x11 => Some(Instruction::Load(info(0x11, 3, 12), Dst::Reg16(Reg16::DE), Src::D16(d16))),
        0x13 => Some(Instruction::Inc16(info(0x13, 1, 8), Reg16::DE)),
        0x17 => Some(Instruction::RotateLeftAkku(info(0x17, 1, 4), false)),
        0x18 => Some(Instruction::Jump(info(0x18, 2, 12), lo as i8)),
        0x1A => Some(Instruction::Load(info(0x1A, 1, 8), Dst::Reg8(Reg8::A), Src::Reg16(Reg16::DE))),
        0x1E => Some(Instruction::Load(info(0x1E, 2, 8), Dst::Reg8(Reg8::E), Src::D8(lo))),
        0x20 => Some(Instruction::JumpOn(info(0x20, 2, 12), JumpCondition::NZ, lo as i8)),
        0x21 => Some(Instruction::Load(info(0x21, 3, 12), Dst::Reg16(Reg16::HL), Src::D16(d16))),
        0x22 => Some(Instruction::Load(info(0x22, 1, 8), Dst::Reg16Inc(Reg16::HL), Src::Reg8(Reg8::A))),
        0x23 => Some(Instruction::Inc16(info(0x23, 1, 8), Reg16::HL)),
        0x28 => Some(Instruction::JumpOn(info(0x28, 2, 12), JumpCondition::Z, lo as i8)),
        0x2E => Some(Instruction::Load(info(0x2E, 2, 12), Dst::Reg8(Reg8::L), Src::D8(lo))),
        0x31 => Some(Instruction::Load(info(0x31, 3, 12), Dst::Reg16(Reg16::SP), Src::D16(d16))),
        0x32 => Some(Instruction::Load(info(0x32, 1, 8), Dst::Reg16Dec(Reg16::HL), Src::Reg8(Reg8::A))),
        0x3C => Some(Instruction::Inc(info(0x3C, 1, 4), Reg8::A)),
        0x3D => Some(Instruction::Dec(info(0x3D, 1, 4), Reg8::A)),
        0x3E => Some(Instruction::Load(info(0x3E, 2, 8), Dst::Reg8(Reg8::A), Src::D8(lo))),
        0x4F => Some(Instruction::Load(info(0x4F, 1, 4), Dst::Reg8(Reg8::C), Src::Reg8(Reg8::A))),
        0x57 => Some(Instruction::Load(info(0x57, 1, 4), Dst::Reg8(Reg8::D), Src::Reg8(Reg8::A))),
        0x67 => Some(Instruction::Load(info(0x67, 1, 4), Dst::Reg8(Reg8::H), Src::Reg8(Reg8::A))),
        0x77 => Some(Instruction::Load(info(0x77, 1, 8), Dst::Reg16(Reg16::HL), Src::Reg8(Reg8::A))),
        0x7B => Some(Instruction::Load(info(0x7B, 1, 4), Dst::Reg8(Reg8::A), Src::Reg8(Reg8::E))),
        0xAF => Some(Instruction::Xor(info(0xAF, 1, 4), Reg8::A)),
        0xC1 => Some(Instruction::Pop16(info(0xC1, 1, 12), Reg16::BC)),
        0xC5 => Some(Instruction::Push16(info(0xC5, 1, 16), Reg16::BC)),
        0xC9 => Some(Instruction::Ret(info(0xC9, 1, 16))),
        0xCD => Some(Instruction::Call(info(0xCD, 3, 24), d16)),
        0xE0 => Some(Instruction::Load(info(0xE0, 2, 12), Dst::A8(lo), Src::Reg8(Reg8::A))),
        0xE2 => Some(Instruction::Load(info(0xE2, 1, 8), Dst::PagedReg8(Reg8::C), Src::Reg8(Reg8::A))),
        0xEA => Some(Instruction::Load(info(0xEA, 3, 16), Dst::Addr(d16), Src::Reg8(Reg8::A))),
        0xF0 => Some(Instruction::Load(info(0xF0, 2, 12), Dst::Reg8(Reg8::A), Src::PagedA8(lo))),
        0xFE => Some(Instruction::Compare(info(0xFE, 2, 8), lo)),
        0xCB => Some(Instruction::PrefixCB),
        _ => None,
    }
}

/// The instruction that a CB-prefixed `opcode` stands for. None for an opcode
/// that is not implemented.
pub open spec fn decode_cb_table(opcode: u8) -> Option<Instruction> {
    match opcode {
        0x11 => Some(Instruction::RotateLeft(info(0x11, 2, 8), Reg8::C, true)),
        0x7C => Some(Instruction::Bit(info(0x7C, 2, 8), 7, Reg8::H)),
        _ => None,
    }
}

/// The decode metadata an instruction carries; the CB prefix carries none.
pub open spec fn info_of(i: Instruction) -> Option<Info> {
    match i {
        Instruction::Nop(info) => Some(info),
        Instruction::Bit(info, _, _) => Some(info),
        Instruction::Dec(info, _) => Some(info),
        Instruction::Inc(info, _) => Some(info),
        Instruction::Load(info, _, _) => Some(info),
        Instruction::Xor(info, _) => Some(info),
        Instruction::Call(info, _) => Some(info),
        Instruction::JumpOn(info, _, _) => Some(info),
        Instruction::Jump(info, _) => Some(info),
        Instruction::Ret(info) => Some(info),
        Instruction::Push16(info, _) => Some(info),
        Instruction::Pop16(info, _) => Some(info),
        Instruction::RotateLeft(info, _, _) => Some(info),
        Instruction::RotateLeftAkku(info, _) => Some(info),
        Instruction::Inc16(info, _) => Some(info),
        Instruction::Compare(info, _) => Some(info),
        Instruction::PrefixCB => None,
    }
}

/// Every entry of the opcode table names its own opcode, and its byte length
/// counts the opcode and the immediate bytes that follow it; the CB prefix
/// has no immediate bytes. Entries of the CB table are two bytes long.
pub proof fn lemma_table_metadata(opcode: u8, lo: u8, hi: u8)
    ensures
        decode_table(opcode, lo, hi) is Some ==> match info_of(
            decode_table(opcode, lo, hi)->Some_0,
        ) {
            Some(info) => info.opcode == opcode && info.byte_length == 1 + immediate_len(opcode),
            None => immediate_len(opcode) == 0,
        },
        decode_cb_table(opcode) is Some ==> info_of(decode_cb_table(opcode)->Some_0) == Some(
            info(opcode, 2, 8),
        ),
{
}

} // verus!
