use vstd::prelude::*;

use crate::bus::{stored, unchanged, MemoryBus};
use crate::cpu::{offset16, on_bus, read_u16, CpuError, LR35902};
use crate::instructions::{decode_cb_table, Dst, Info, Instruction, JumpCondition, Src};
use crate::registers::{high_byte, lemma_halves, lemma_write16_read16, low_byte, Flags, Reg16, Reg8, Registers};

verus! {

/// `x + d`, wrapping around modulo 2^8.
pub open spec fn offset8(x: u8, d: int) -> u8
    recommends
        -0x100 < d < 0x100,
{
    if x + d > 0xFF {
        (x + d - 0x100) as u8
    } else if x + d < 0 {
        (x + d + 0x100) as u8
    } else {
        (x + d) as u8
    }
}

/// The address 0xFF00 + `n`, in the page of the I/O registers.
pub open spec fn paged(n: u8) -> u16 {
    (0xFF00 + n) as u16
}

/// INC: a wrapping increment; ZERO on a zero result, HALF_CARRY on a carry
/// out of the low nibble, ADD_SUB cleared, CARRY kept.
pub open spec fn inc_spec(regs: Registers, reg: Reg8) -> Registers {
    let v = regs.get8(reg);
    let n = offset8(v, 1);
    Registers {
        f: Flags { zero: n == 0, add_sub: false, half_carry: v & 0xF == 0xF, carry: regs.f.carry },
        ..regs.set8(reg, n)
    }
}

/// DEC: a wrapping decrement; ZERO on a zero result, ADD_SUB set, HALF_CARRY
/// on a borrow from the high nibble, CARRY kept.
pub open spec fn dec_spec(regs: Registers, reg: Reg8) -> Registers {
    let v = regs.get8(reg);
    let n = offset8(v, -1);
    Registers {
        f: Flags { zero: n == 0, add_sub: true, half_carry: v & 0xF == 0, carry: regs.f.carry },
        ..regs.set8(reg, n)
    }
}

/// BIT: ZERO when the tested bit is 0, HALF_CARRY set, ADD_SUB cleared,
/// CARRY kept; no register changes.
pub open spec fn bit_spec(regs: Registers, bit: usize, reg: Reg8) -> Registers {
    Registers {
        f: Flags {
            zero: (regs.get8(reg) >> bit) & 1 == 0,
            add_sub: false,
            half_carry: true,
            carry: regs.f.carry,
        },
        ..regs
    }
}

/// XOR: the accumulator becomes its exclusive-or with the register; ZERO on
/// a zero result, every other flag cleared.
pub open spec fn xor_spec(regs: Registers, reg: Reg8) -> Registers {
    let x = regs.a ^ regs.get8(reg);
    Registers { a: x, f: Flags { zero: x == 0, add_sub: false, half_carry: false, carry: false }, ..regs }
}

/// RL: the register shifts left by one, the old CARRY entering at bit 0 and
/// the old bit 7 becoming CARRY. ZERO reports a zero result only when
/// `set_zero`; ADD_SUB and HALF_CARRY are cleared.
pub open spec fn rl_spec(regs: Registers, reg: Reg8, set_zero: bool) -> Registers {
    let v = regs.get8(reg);
    let n = (v << 1u8) | (if regs.f.carry { 1u8 } else { 0u8 });
    Registers {
        f: Flags { zero: set_zero && n == 0, add_sub: false, half_carry: false, carry: v & 0x80 != 0 },
        ..regs.set8(reg, n)
    }
}

/// CP: the flags of subtracting `val` from the accumulator, which is kept.
/// ZERO on equality, ADD_SUB set, HALF_CARRY on a borrow from the high
/// nibble, CARRY on a borrow.
pub open spec fn cp_spec(regs: Registers, val: u8) -> Registers {
    Registers {
        f: Flags {
            zero: regs.a == val,
            add_sub: true,
            half_carry: regs.a & 0xF < val & 0xF,
            carry: regs.a < val,
        },
        ..regs
    }
}

/// JR: the signed offset added to PC, wrapping.
pub open spec fn jr_spec(regs: Registers, offset: i8) -> Registers {
    Registers { pc: offset16(regs.pc, offset as int), ..regs }
}

/// INC on a 16-bit register: a wrapping increment, no flag touched.
pub open spec fn inc16_spec(regs: Registers, reg: Reg16) -> Registers {
    regs.set16(reg, offset16(regs.get16(reg), 1))
}

/// The registers after an instruction that touches nothing else.
pub open spec fn register_effect(i: Instruction, regs: Registers) -> Registers {
    match i {
        Instruction::Bit(_, bit, reg) => bit_spec(regs, bit, reg),
        Instruction::Dec(_, reg) => dec_spec(regs, reg),
        Instruction::Inc(_, reg) => inc_spec(regs, reg),
        Instruction::Xor(_, reg) => xor_spec(regs, reg),
        Instruction::JumpOn(_, cond, offset) => if cond.holds(regs.f) {
            jr_spec(regs, offset)
        } else {
            regs
        },
        Instruction::Jump(_, offset) => jr_spec(regs, offset),
        Instruction::RotateLeft(_, reg, set_zero) => rl_spec(regs, reg, set_zero),
        Instruction::RotateLeftAkku(_, set_zero) => rl_spec(regs, Reg8::A, set_zero),
        Instruction::Inc16(_, reg) => inc16_spec(regs, reg),
        Instruction::Compare(_, val) => cp_spec(regs, val),
        _ => regs,
    }
}

/// `after` is `before` with `val` pushed below `sp`: its high byte at
/// `sp - 1`, its low byte at `sp - 2`.
pub open spec fn pushed<B: MemoryBus>(before: B, after: B, sp: u16, val: u16) -> bool {
    &&& forall|a: u16| #[trigger]
        after.peek(a) == if a == offset16(sp, -1) {
            Ok(high_byte(val))
        } else if a == offset16(sp, -2) {
            Ok(low_byte(val))
        } else {
            before.peek(a)
        }
    &&& forall|a: u16| #[trigger] after.poke(a) == before.poke(a)
}

/// Whether pushing below `sp` succeeds, and if not, which write fails first.
pub open spec fn push_check<B: MemoryBus>(bus: B, sp: u16) -> Result<(), CpuError> {
    match bus.poke(offset16(sp, -1)) {
        Err(e) => Err(CpuError::Bus(e)),
        Ok(_) => on_bus(bus.poke(offset16(sp, -2))),
    }
}

/// A push of `val`: SP drops by two and the value lands below the old SP,
/// high byte first.
pub open spec fn push_effect<B: MemoryBus>(
    regs: Registers,
    bus: B,
    val: u16,
    regs2: Registers,
    bus2: B,
    out: Result<(), CpuError>,
) -> bool {
    &&& out == push_check(bus, regs.sp)
    &&& out is Ok ==> regs2 == (Registers { sp: offset16(regs.sp, -2), ..regs }) && pushed(
        bus,
        bus2,
        regs.sp,
        val,
    )
}

/// A pop into `reg`: the value stored at SP (low byte first) is read, SP
/// rises by two, and then `reg` takes the value.
pub open spec fn pop_effect<B: MemoryBus>(
    regs: Registers,
    bus: B,
    reg: Reg16,
    regs2: Registers,
    bus2: B,
    out: Result<(), CpuError>,
) -> bool {
    match read_u16(bus, regs.sp) {
        Err(e) => out == Err::<(), CpuError>(e),
        Ok(v) => {
            &&& out == Ok::<(), CpuError>(())
            &&& regs2 == (Registers { sp: offset16(regs.sp, 2), ..regs }).set16(reg, v)
            &&& unchanged(bus, bus2)
        },
    }
}

/// The value a load reads, widened to 16 bits.
pub open spec fn src_value<B: MemoryBus>(src: Src, regs: Registers, bus: B) -> Result<
    u16,
    CpuError,
> {
    match src {
        Src::PagedA8(n) => match bus.peek(paged(n)) {
            Ok(v) => Ok(v as u16),
            Err(e) => Err(CpuError::Bus(e)),
        },
        Src::D8(n) => Ok(n as u16),
        Src::D16(n) => Ok(n),
        Src::Reg8(reg) => Ok(regs.get8(reg) as u16),
        Src::Reg16(reg) => match bus.peek(regs.get16(reg)) {
            Ok(v) => Ok(v as u16),
            Err(e) => Err(CpuError::Bus(e)),
        },
    }
}

/// The address a load stores to, for a destination in memory.
pub open spec fn dst_address(dst: Dst, regs: Registers) -> Option<u16> {
    match dst {
        Dst::A8(n) => Some(paged(n)),
        Dst::PagedReg8(reg) => Some(paged(regs.get8(reg))),
        Dst::Reg16Inc(reg) => Some(regs.get16(reg)),
        Dst::Reg16Dec(reg) => Some(regs.get16(reg)),
        Dst::Addr(addr) => Some(addr),
        _ => None,
    }
}

/// The registers after a load of `val`: a register destination takes the
/// value (its low byte, for an 8-bit register); a post-incremented or
/// post-decremented pointer moves by one, wrapping.
pub open spec fn load_registers(dst: Dst, regs: Registers, val: u16) -> Registers {
    match dst {
        Dst::Reg8(reg) => regs.set8(reg, low_byte(val)),
        Dst::Reg16(reg) => regs.set16(reg, val),
        Dst::Reg16Inc(reg) => regs.set16(reg, offset16(regs.get16(reg), 1)),
        Dst::Reg16Dec(reg) => regs.set16(reg, offset16(regs.get16(reg), -1)),
        _ => regs,
    }
}

/// A load: the source is read, then committed to the destination; a memory
/// destination receives the low byte of the value, at the pointer's value
/// from before its adjustment.
pub open spec fn load_effect<B: MemoryBus>(
    dst: Dst,
    src: Src,
    regs: Registers,
    bus: B,
    regs2: Registers,
    bus2: B,
    out: Result<(), CpuError>,
) -> bool {
    match src_value(src, regs, bus) {
        Err(e) => out == Err::<(), CpuError>(e),
        Ok(v) => match dst_address(dst, regs) {
            None => {
                &&& out == Ok::<(), CpuError>(())
                &&& regs2 == load_registers(dst, regs, v)
                &&& unchanged(bus, bus2)
            },
            Some(addr) => {
                &&& out == on_bus(bus.poke(addr))
                &&& out is Ok ==> regs2 == load_registers(dst, regs, v) && stored(
                    bus,
                    bus2,
                    addr,
                    low_byte(v),
                )
            },
        },
    }
}

/// A call: PC, the return address, is pushed as by a push, then PC becomes
/// `target`.
pub open spec fn call_effect<B: MemoryBus>(
    regs: Registers,
    bus: B,
    target: u16,
    regs2: Registers,
    bus2: B,
    out: Result<(), CpuError>,
) -> bool {
    &&& out == push_check(bus, regs.sp)
    &&& out is Ok ==> regs2 == (Registers { sp: offset16(regs.sp, -2), pc: target, ..regs })
        && pushed(bus, bus2, regs.sp, regs.pc)
}

/// A return: PC takes the value popped from the stack.
pub open spec fn ret_effect<B: MemoryBus>(
    regs: Registers,
    bus: B,
    regs2: Registers,
    bus2: B,
    out: Result<(), CpuError>,
) -> bool {
    pop_effect(regs, bus, Reg16::PC, regs2, bus2, out)
}

/// What an instruction other than the CB prefix does to the registers and
/// the bus, and whether it succeeds.
pub open spec fn performs<B: MemoryBus>(
    i: Instruction,
    regs: Registers,
    bus: B,
    regs2: Registers,
    bus2: B,
    out: Result<(), CpuError>,
) -> bool {
    match i {
        Instruction::Load(_, dst, src) => load_effect(dst, src, regs, bus, regs2, bus2, out),
        Instruction::Call(_, target) => call_effect(regs, bus, target, regs2, bus2, out),
        Instruction::Ret(_) => ret_effect(regs, bus, regs2, bus2, out),
        Instruction::Push16(_, reg) => push_effect(regs, bus, regs.get16(reg), regs2, bus2, out),
        Instruction::Pop16(_, reg) => pop_effect(regs, bus, reg, regs2, bus2, out),
        _ => {
            &&& out == Ok::<(), CpuError>(())
            &&& regs2 == register_effect(i, regs)
            &&& unchanged(bus, bus2)
        },
    }
}

pub open spec fn unit_of(r: Result<Instruction, CpuError>) -> Result<(), CpuError> {
    match r {
        Ok(_) => Ok(()),
        Err(e) => Err(e),
    }
}

/// Executing `i` from `regs` and `bus` ends in `regs2` and `bus2` with result
/// `r`. Every instruction but the CB prefix returns itself on success; the
/// prefix fetches the byte at PC, decodes it from the CB table, executes it,
/// and returns that instruction.
pub open spec fn executes<B: MemoryBus>(
    i: Instruction,
    regs: Registers,
    bus: B,
    regs2: Registers,
    bus2: B,
    r: Result<Instruction, CpuError>,
) -> bool {
    match i {
        Instruction::PrefixCB => match bus.peek(regs.pc) {
            Err(e) => r == Err::<Instruction, CpuError>(CpuError::Bus(e)),
            Ok(op) => match decode_cb_table(op) {
                None => r == Err::<Instruction, CpuError>(CpuError::UnknownCbOpcode(op)),
                Some(inner) => {
                    &&& r == Ok::<Instruction, CpuError>(inner)
                    &&& regs2 == register_effect(
                        inner,
                        Registers { pc: offset16(regs.pc, 1), ..regs },
                    )
                    &&& unchanged(bus, bus2)
                },
            },
        },
        _ => {
            &&& r is Ok ==> r == Ok::<Instruction, CpuError>(i)
            &&& performs(i, regs, bus, regs2, bus2, unit_of(r))
        },
    }
}

impl LR35902 {
    pub fn bit(&mut self, bit: usize, reg: Reg8)
        requires
            bit < 8,
        ensures
            final(self).registers == bit_spec(old(self).registers, bit, reg),
    {
        let val = (self.registers.read8(reg) >> bit) & 1;
        self.registers.f = Flags {
            zero: val == 0,
            add_sub: false,
            half_carry: true,
            carry: self.registers.f.carry,
        };
    }

    pub fn dec(&mut self, reg: Reg8)
        ensures
            final(self).registers == dec_spec(old(self).registers, reg),
    {
        let val = self.registers.read8(reg);
        let new_val = val.wrapping_sub(1);
        self.registers.f = Flags {
            zero: new_val == 0,
            add_sub: true,
            half_carry: val & 0xF == 0,
            carry: self.registers.f.carry,
        };
        self.registers.write8(reg, new_val);
    }

    pub fn inc(&mut self, reg: Reg8)
        ensures
            final(self).registers == inc_spec(old(self).registers, reg),
    {
        let val = self.registers.read8(reg);
        let new_val = val.wrapping_add(1);
        self.registers.f = Flags {
            zero: new_val == 0,
            add_sub: false,
            half_carry: val & 0xF == 0xF,
            carry: self.registers.f.carry,
        };
        self.registers.write8(reg, new_val);
    }

    pub fn xor(&mut self, reg: Reg8)
        ensures
            final(self).registers == xor_spec(old(self).registers, reg),
    {
        let v = self.registers.read8(Reg8::A) ^ self.registers.read8(reg);
        self.registers.write8(Reg8::A, v);
        self.registers.f = Flags { zero: v == 0, add_sub: false, half_carry: false, carry: false };
    }

    pub fn jr_c(&mut self, cond: JumpCondition, offset: i8)
        ensures
            final(self).registers == if cond.holds(old(self).registers.f) {
                jr_spec(old(self).registers, offset)
            } else {
                old(self).registers
            },
    {
        if cond.check(self.registers.f) {
            self.jr(offset);
        }
    }

    pub fn jr(&mut self, offset: i8)
        ensures
            final(self).registers == jr_spec(old(self).registers, offset),
    {
        let addr = self.registers.read16(Reg16::PC).wrapping_add_signed(offset as i16);
        self.registers.write16(Reg16::PC, addr);
    }

    pub fn rl(&mut self, reg: Reg8, set_zero: bool)
        ensures
            final(self).registers == rl_spec(old(self).registers, reg, set_zero),
    {
        let reg_val = self.registers.read8(reg);
        let carry_val: u8 = if self.registers.f.carry {
            1
        } else {
            0
        };
        let new_reg_val = (reg_val << 1u8) | carry_val;
        self.registers.f = Flags {
            zero: set_zero && new_reg_val == 0,
            add_sub: false,
            half_carry: false,
            carry: reg_val & 0x80 != 0,
        };
        self.registers.write8(reg, new_reg_val);
    }

    pub fn inc16(&mut self, reg: Reg16)
        ensures
            final(self).registers == inc16_spec(old(self).registers, reg),
    {
        let val = self.registers.read16(reg);
        self.registers.write16(reg, val.wrapping_add(1));
    }

    /// The flags of `A - val`; the accumulator is kept.
    pub fn sub(&mut self, val: u8)
        ensures
            final(self).registers == cp_spec(old(self).registers, val),
    {
        let reg_val = self.registers.read8(Reg8::A);
        let sub_res = reg_val.wrapping_sub(val);
        self.registers.f = Flags {
            zero: sub_res == 0,
            add_sub: true,
            half_carry: (reg_val & 0xF) < (val & 0xF),
            carry: reg_val < val,
        };
    }
}

impl LR35902 {
    /// Decrements SP, then stores `val` at the new SP.
    fn push_u8<B: MemoryBus>(&mut self, bus: &mut B, val: u8) -> (r: Result<(), CpuError>)
        requires
            old(bus).inv(),
        ensures
            final(bus).inv(),
            final(self).registers == (Registers {
                sp: offset16(old(self).registers.sp, -1),
                ..old(self).registers
            }),
            r == on_bus(old(bus).poke(offset16(old(self).registers.sp, -1))),
            forall|a: u16| #[trigger]
                final(bus).peek(a) == if r is Ok && a == offset16(old(self).registers.sp, -1) {
                    Ok(val)
                } else {
                    old(bus).peek(a)
                },
            forall|a: u16| #[trigger] final(bus).poke(a) == old(bus).poke(a),
    {
        let sp = self.registers.read16(Reg16::SP);
        self.registers.write16(Reg16::SP, sp.wrapping_sub(1));
        match bus.write(self.registers.read16(Reg16::SP), val) {
            Ok(()) => Ok(()),
            Err(e) => Err(CpuError::Bus(e)),
        }
    }

    /// Pushes `val`, high byte first.
    fn push_u16<B: MemoryBus>(&mut self, bus: &mut B, val: u16) -> (r: Result<(), CpuError>)
        requires
            old(bus).inv(),
        ensures
            final(bus).inv(),
            push_effect(
                old(self).registers,
                *old(bus),
                val,
                final(self).registers,
                *final(bus),
                r,
            ),
    {
        self.push_u8(bus, (val / 256) as u8)?;
        self.push_u8(bus, (val % 256) as u8)
    }

    /// Reads the byte at SP, then increments SP.
    fn pop_u8<B: MemoryBus>(&mut self, bus: &B) -> (r: Result<u8, CpuError>)
        requires
            bus.inv(),
        ensures
            r == on_bus(bus.peek(old(self).registers.sp)),
            r is Ok ==> final(self).registers == (Registers {
                sp: offset16(old(self).registers.sp, 1),
                ..old(self).registers
            }),
    {
        let sp = self.registers.read16(Reg16::SP);
        let val = match bus.read(sp) {
            Ok(v) => v,
            Err(e) => return Err(CpuError::Bus(e)),
        };
        self.registers.write16(Reg16::SP, sp.wrapping_add(1));
        Ok(val)
    }

    /// Pops a 16-bit value, low byte first.
    fn pop_u16<B: MemoryBus>(&mut self, bus: &B) -> (r: Result<u16, CpuError>)
        requires
            bus.inv(),
        ensures
            r == read_u16(*bus, old(self).registers.sp),
            r is Ok ==> final(self).registers == (Registers {
                sp: offset16(old(self).registers.sp, 2),
                ..old(self).registers
            }),
    {
        let l = self.pop_u8(bus)?;
        let h = self.pop_u8(bus)?;
        Ok((h as u16) * 256 + (l as u16))
    }

    pub fn load<B: MemoryBus>(&mut self, bus: &mut B, dst: Dst, src: Src) -> (r: Result<(), CpuError>)
        requires
            old(bus).inv(),
        ensures
            final(bus).inv(),
            load_effect(dst, src, old(self).registers, *old(bus), final(self).registers, *final(bus), r),
    {
        let val: u16 = match src {
            Src::PagedA8(n) => match bus.read(0xFF00u16 + (n as u16)) {
                Ok(v) => v as u16,
                Err(e) => return Err(CpuError::Bus(e)),
            },
            Src::D8(n) => n as u16,
            Src::D16(n) => n,
            Src::Reg8(reg) => self.registers.read8(reg) as u16,
            Src::Reg16(reg) => match bus.read(self.registers.read16(reg)) {
                Ok(v) => v as u16,
                Err(e) => return Err(CpuError::Bus(e)),
            },
        };
        let byte = (val % 256) as u8;
        let stored = match dst {
            Dst::A8(n) => bus.write(0xFF00u16 + (n as u16), byte),
            Dst::Reg8(reg) => {
                self.registers.write8(reg, byte);
                Ok(())
            },
            Dst::PagedReg8(reg) => {
                let addr = 0xFF00u16 + (self.registers.read8(reg) as u16);
                bus.write(addr, byte)
            },
            Dst::Reg16(reg) => {
                self.registers.write16(reg, val);
                Ok(())
            },
            Dst::Reg16Inc(reg) => {
                let addr = self.registers.read16(reg);
                self.registers.write16(reg, addr.wrapping_add(1));
                bus.write(addr, byte)
            },
            Dst::Reg16Dec(reg) => {
                let addr = self.registers.read16(reg);
                self.registers.write16(reg, addr.wrapping_sub(1));
                bus.write(addr, byte)
            },
            Dst::Addr(addr) => bus.write(addr, byte),
        };
        match stored {
            Ok(()) => Ok(()),
            Err(e) => Err(CpuError::Bus(e)),
        }
    }

    /// Pushes PC, the return address, then jumps to `addr`.
    pub fn call<B: MemoryBus>(&mut self, bus: &mut B, addr: u16) -> (r: Result<(), CpuError>)
        requires
            old(bus).inv(),
        ensures
            final(bus).inv(),
            call_effect(old(self).registers, *old(bus), addr, final(self).registers, *final(bus), r),
    {
        let pc = self.registers.read16(Reg16::PC);
        self.push_u16(bus, pc)?;
        self.registers.write16(Reg16::PC, addr);
        Ok(())
    }
}

impl LR35902 {
    /// Pops the return address into PC.
    pub fn ret<B: MemoryBus>(&mut self, bus: &B) -> (r: Result<(), CpuError>)
        requires
            bus.inv(),
        ensures
            ret_effect(old(self).registers, *bus, final(self).registers, *bus, r),
    {
        let addr = self.pop_u16(bus)?;
        self.registers.write16(Reg16::PC, addr);
        Ok(())
    }

    pub fn push16<B: MemoryBus>(&mut self, bus: &mut B, reg: Reg16) -> (r: Result<(), CpuError>)
        requires
            old(bus).inv(),
        ensures
            final(bus).inv(),
            push_effect(
                old(self).registers,
                *old(bus),
                old(self).registers.get16(reg),
                final(self).registers,
                *final(bus),
                r,
            ),
    {
        let val = self.registers.read16(reg);
        self.push_u16(bus, val)
    }

    pub fn pop16<B: MemoryBus>(&mut self, bus: &B, reg: Reg16) -> (r: Result<(), CpuError>)
        requires
            bus.inv(),
        ensures
            pop_effect(old(self).registers, *bus, reg, final(self).registers, *bus, r),
    {
        let val = self.pop_u16(bus)?;
        self.registers.write16(reg, val);
        Ok(())
    }

    /// Fetches the opcode that follows a CB prefix, decodes it from the CB
    /// table and executes it; returns the instruction that ran.
    pub fn prefix_cb<B: MemoryBus>(&mut self, bus: &mut B) -> (r: Result<Instruction, CpuError>)
        requires
            old(bus).inv(),
        ensures
            final(bus).inv(),
            executes(
                Instruction::PrefixCB,
                old(self).registers,
                *old(bus),
                final(self).registers,
                *final(bus),
                r,
            ),
        decreases 1int,
    {
        let opcode = self.next_u8(bus)?;
        let instr = LR35902::decode_cb(opcode)?;
        instr.execute(self, bus)
    }
}

impl Instruction {
    /// Applies the instruction to the registers and the bus. Returns the
    /// instruction itself, or for the CB prefix the instruction it led to.
    pub fn execute<B: MemoryBus>(self, cpu: &mut LR35902, bus: &mut B) -> (r: Result<
        Instruction,
        CpuError,
    >)
        requires
            self.wf(),
            old(bus).inv(),
        ensures
            final(bus).inv(),
            executes(self, old(cpu).registers, *old(bus), final(cpu).registers, *final(bus), r),
        decreases (if self is PrefixCB { 2int } else { 0int }),
    {
        match self {
            Instruction::Nop(_) => {},
            Instruction::Bit(_, bit, reg) => cpu.bit(bit, reg),
            Instruction::Dec(_, reg) => cpu.dec(reg),
            Instruction::Inc(_, reg) => cpu.inc(reg),
            Instruction::Load(_, dst, src) => cpu.load(bus, dst, src)?,
            Instruction::Xor(_, reg) => cpu.xor(reg),
            Instruction::Call(_, addr) => cpu.call(bus, addr)?,
            Instruction::JumpOn(_, cond, offset) => cpu.jr_c(cond, offset),
            Instruction::Jump(_, offset) => cpu.jr(offset),
            Instruction::Ret(_) => cpu.ret(bus)?,
            Instruction::Push16(_, reg) => cpu.push16(bus, reg)?,
            Instruction::Pop16(_, reg) => cpu.pop16(bus, reg)?,
            Instruction::RotateLeft(_, reg, set_zero) => cpu.rl(reg, set_zero),
            Instruction::RotateLeftAkku(_, set_zero) => cpu.rl(Reg8::A, set_zero),
            Instruction::Inc16(_, reg) => cpu.inc16(reg),
            Instruction::Compare(_, val) => cpu.sub(val),
            Instruction::PrefixCB => return cpu.prefix_cb(bus),
        }
        Ok(self)
    }
}

/// XOR of the accumulator with itself, from any state: the accumulator
/// becomes 0, ZERO is set and ADD_SUB, HALF_CARRY and CARRY are cleared.
pub proof fn lemma_xor_a_clears<B: MemoryBus>(
    info: Info,
    regs: Registers,
    bus: B,
    regs2: Registers,
    bus2: B,
    r: Result<Instruction, CpuError>,
)
    requires
        executes(Instruction::Xor(info, Reg8::A), regs, bus, regs2, bus2, r),
    ensures
        r == Ok::<Instruction, CpuError>(Instruction::Xor(info, Reg8::A)),
        regs2.a == 0,
        regs2.f == (Flags { zero: true, add_sub: false, half_carry: false, carry: false }),
{
    let a = regs.a;
    assert(a ^ a == 0) by (bit_vector);
}

/// INC on an accumulator of 0xFF wraps it to 0x00, sets ZERO and HALF_CARRY,
/// clears ADD_SUB and leaves CARRY as it was.
pub proof fn lemma_inc_wraps<B: MemoryBus>(
    info: Info,
    regs: Registers,
    bus: B,
    regs2: Registers,
    bus2: B,
    r: Result<Instruction, CpuError>,
)
    requires
        regs.a == 0xFF,
        executes(Instruction::Inc(info, Reg8::A), regs, bus, regs2, bus2, r),
    ensures
        r is Ok,
        regs2.a == 0,
        regs2.f.zero,
        !regs2.f.add_sub,
        regs2.f.half_carry,
        regs2.f.carry == regs.f.carry,
{
    assert(0xFFu8 & 0xF == 0xF) by (bit_vector);
}

/// DEC on an accumulator of 0x00 wraps it to 0xFF, sets ADD_SUB and
/// HALF_CARRY, clears ZERO and leaves CARRY as it was.
pub proof fn lemma_dec_wraps<B: MemoryBus>(
    info: Info,
    regs: Registers,
    bus: B,
    regs2: Registers,
    bus2: B,
    r: Result<Instruction, CpuError>,
)
    requires
        regs.a == 0,
        executes(Instruction::Dec(info, Reg8::A), regs, bus, regs2, bus2, r),
    ensures
        r is Ok,
        regs2.a == 0xFF,
        !regs2.f.zero,
        regs2.f.add_sub,
        regs2.f.half_carry,
        regs2.f.carry == regs.f.carry,
{
    assert(0u8 & 0xF == 0) by (bit_vector);
}

/// A call that succeeds, followed by a return: the return succeeds, PC is
/// back at the return address the call pushed, and SP is back where it was
/// before the call.
pub proof fn lemma_call_then_ret<B: MemoryBus>(
    call_info: Info,
    ret_info: Info,
    target: u16,
    regs0: Registers,
    bus0: B,
    regs1: Registers,
    bus1: B,
    r1: Result<Instruction, CpuError>,
    regs2: Registers,
    bus2: B,
    r2: Result<Instruction, CpuError>,
)
    requires
        executes(Instruction::Call(call_info, target), regs0, bus0, regs1, bus1, r1),
        r1 is Ok,
        executes(Instruction::Ret(ret_info), regs1, bus1, regs2, bus2, r2),
    ensures
        regs1.pc == target,
        r2 is Ok,
        regs2.pc == regs0.pc,
        regs2.sp == regs0.sp,
{
    lemma_halves(regs0.pc);
    assert(bus1.peek(offset16(regs0.sp, -2)) == Ok::<u8, crate::bus::BusError>(low_byte(regs0.pc)));
    assert(bus1.peek(offset16(regs0.sp, -1)) == Ok::<u8, crate::bus::BusError>(high_byte(regs0.pc)));
}

/// A push that succeeds, followed by a pop into another register: the pop
/// succeeds, the register holds the value pushed, and SP is back where it was
/// before the push. The pop may not target SP itself, and a pop into AF keeps
/// only what F can hold, so there the value's lower nibble must be zero.
pub proof fn lemma_push_then_pop<B: MemoryBus>(
    push_info: Info,
    pop_info: Info,
    reg1: Reg16,
    reg2: Reg16,
    regs0: Registers,
    bus0: B,
    regs1: Registers,
    bus1: B,
    r1: Result<Instruction, CpuError>,
    regs2: Registers,
    bus2: B,
    r2: Result<Instruction, CpuError>,
)
    requires
        executes(Instruction::Push16(push_info, reg1), regs0, bus0, regs1, bus1, r1),
        r1 is Ok,
        executes(Instruction::Pop16(pop_info, reg2), regs1, bus1, regs2, bus2, r2),
        reg2 != Reg16::SP,
        reg2 == Reg16::AF ==> regs0.get16(reg1) & 0x0F == 0,
    ensures
        r2 is Ok,
        regs2.get16(reg2) == regs0.get16(reg1),
        regs2.sp == regs0.sp,
{
    let v = regs0.get16(reg1);
    lemma_halves(v);
    assert(bus1.peek(offset16(regs0.sp, -2)) == Ok::<u8, crate::bus::BusError>(low_byte(v)));
    assert(bus1.peek(offset16(regs0.sp, -1)) == Ok::<u8, crate::bus::BusError>(high_byte(v)));
    lemma_write16_read16(Registers { sp: regs0.sp, ..regs1 }, reg2, v);
}

} // verus!
