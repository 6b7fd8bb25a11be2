use vstd::prelude::*;

verus! {

/// The four condition flags of the processor. In the flags byte they occupy
/// the upper nibble (ZERO = bit 7, ADD_SUB = bit 6, HALF_CARRY = bit 5,
/// CARRY = bit 4); the lower nibble always reads as zero.
#[derive(Clone, Copy, Debug, PartialEq, Eq, Structural)]
pub struct Flags {
    pub zero: bool,
    pub add_sub: bool,
    pub half_carry: bool,
    pub carry: bool,
}

/// The flags value with every flag cleared.
pub open spec fn no_flags() -> Flags {
    Flags { zero: false, add_sub: false, half_carry: false, carry: false }
}

impl Flags {
    /// The flags as they appear in the F register.
    pub open spec fn byte(self) -> u8 {
        (if self.zero { 0x80u8 } else { 0u8 }) | (if self.add_sub { 0x40u8 } else { 0u8 }) | (
        if self.half_carry {
            0x20u8
        } else {
            0u8
        }) | (if self.carry { 0x10u8 } else { 0u8 })
    }

    /// The flags that a byte written to the F register stands for; its lower
    /// nibble is dropped.
    pub open spec fn of_byte(b: u8) -> Flags {
        Flags {
            zero: b & 0x80 != 0,
            add_sub: b & 0x40 != 0,
            half_carry: b & 0x20 != 0,
            carry: b & 0x10 != 0,
        }
    }

    pub fn empty() -> (r: Flags)
        ensures
            r == no_flags(),
    {
        Flags { zero: false, add_sub: false, half_carry: false, carry: false }
    }

    /// `self` when `test` holds, no flags otherwise.
    pub fn self_or_empty(&self, test: bool) -> (r: Flags)
        ensures
            r == (if test { *self } else { no_flags() }),
    {
        if test {
            *self
        } else {
            Flags::empty()
        }
    }

    pub fn bits(&self) -> (r: u8)
        ensures
            r == self.byte(),
    {
        (if self.zero { 0x80u8 } else { 0u8 }) | (if self.add_sub { 0x40u8 } else { 0u8 }) | (
        if self.half_carry {
            0x20u8
        } else {
            0u8
        }) | (if self.carry { 0x10u8 } else { 0u8 })
    }

    pub fn from_bits_truncate(b: u8) -> (r: Flags)
        ensures
            r == Flags::of_byte(b),
    {
        Flags {
            zero: b & 0x80 != 0,
            add_sub: b & 0x40 != 0,
            half_carry: b & 0x20 != 0,
            carry: b & 0x10 != 0,
        }
    }
}

/// Reading the flags back from a byte keeps its upper nibble and clears the
/// lower one; a flags value survives the trip through its byte unchanged.
pub proof fn lemma_flags_byte(b: u8, f: Flags)
    ensures
        Flags::of_byte(b).byte() == b & 0xF0,
        Flags::of_byte(f.byte()) == f,
{
    let z = b & 0x80 != 0;
    let n = b & 0x40 != 0;
    let h = b & 0x20 != 0;
    let c = b & 0x10 != 0;
    assert(((if z { 0x80u8 } else { 0u8 }) | (if n { 0x40u8 } else { 0u8 }) | (if h {
        0x20u8
    } else {
        0u8
    }) | (if c { 0x10u8 } else { 0u8 })) == b & 0xF0) by (bit_vector)
        requires
            z == (b & 0x80 != 0),
            n == (b & 0x40 != 0),
            h == (b & 0x20 != 0),
            c == (b & 0x10 != 0),
    ;
    let (fz, fn_, fh, fc) = (f.zero, f.add_sub, f.half_carry, f.carry);
    let v = f.byte();
    assert((v & 0x80 != 0) == fz && (v & 0x40 != 0) == fn_ && (v & 0x20 != 0) == fh && (v & 0x10
        != 0) == fc) by (bit_vector)
        requires
            v == (if fz { 0x80u8 } else { 0u8 }) | (if fn_ { 0x40u8 } else { 0u8 }) | (if fh {
                0x20u8
            } else {
                0u8
            }) | (if fc { 0x10u8 } else { 0u8 }),
    ;
}

#[derive(Clone, Copy, Debug, PartialEq, Eq, Structural)]
pub enum Reg8 {
    A,
    B,
    C,
    D,
    E,
    H,
    L,
}

/// The 16-bit registers: four pairs composed of two 8-bit halves (high byte
/// first) and the two native 16-bit registers.
#[derive(Clone, Copy, Debug, PartialEq, Eq, Structural)]
pub enum Reg16 {
    AF,
    BC,
    DE,
    HL,
    PC,
    SP,
}

/// The 16-bit value whose high byte is `hi` and low byte is `lo`.
pub open spec fn pair(hi: u8, lo: u8) -> u16 {
    (hi * 256 + lo) as u16
}

pub open spec fn high_byte(v: u16) -> u8 {
    (v / 256) as u8
}

pub open spec fn low_byte(v: u16) -> u8 {
    (v % 256) as u8
}

#[derive(Clone, Copy, Debug, PartialEq, Eq, Structural)]
pub struct Registers {
    pub pc: u16,
    pub sp: u16,
    pub a: u8,
    pub f: Flags,
    pub b: u8,
    pub c: u8,
    pub d: u8,
    pub e: u8,
    pub h: u8,
    pub l: u8,
}

impl Registers {
    /// The register file at power-on: every register zero, no flag set.
    pub open spec fn zeroed() -> Registers {
        Registers { pc: 0, sp: 0, a: 0, f: no_flags(), b: 0, c: 0, d: 0, e: 0, h: 0, l: 0 }
    }

    pub open spec fn get8(self, reg: Reg8) -> u8 {
        match reg {
            Reg8::A => self.a,
            Reg8::B => self.b,
            Reg8::C => self.c,
            Reg8::D => self.d,
            Reg8::E => self.e,
            Reg8::H => self.h,
            Reg8::L => self.l,
        }
    }

    pub open spec fn set8(self, reg: Reg8, val: u8) -> Registers {
        match reg {
            Reg8::A => Registers { a: val, ..self },
            Reg8::B => Registers { b: val, ..self },
            Reg8::C => Registers { c: val, ..self },
            Reg8::D => Registers { d: val, ..self },
            Reg8::E => Registers { e: val, ..self },
            Reg8::H => Registers { h: val, ..self },
            Reg8::L => Registers { l: val, ..self },
        }
    }

    pub open spec fn get16(self, reg: Reg16) -> u16 {
        match reg {
            Reg16::AF => pair(self.a, self.f.byte()),
            Reg16::BC => pair(self.b, self.c),
            Reg16::DE => pair(self.d, self.e),
            Reg16::HL => pair(self.h, self.l),
            Reg16::PC => self.pc,
            Reg16::SP => self.sp,
        }
    }

    /// Writing a pair splits the value into its high and low byte; writing AF
    /// keeps only the upper nibble of the low byte, as F holds nothing else.
    pub open spec fn set16(self, reg: Reg16, val: u16) -> Registers {
        match reg {
            Reg16::AF => Registers { a: high_byte(val), f: Flags::of_byte(low_byte(val)), ..self },
            Reg16::BC => Registers { b: high_byte(val), c: low_byte(val), ..self },
            Reg16::DE => Registers { d: high_byte(val), e: low_byte(val), ..self },
            Reg16::HL => Registers { h: high_byte(val), l: low_byte(val), ..self },
            Reg16::PC => Registers { pc: val, ..self },
            Reg16::SP => Registers { sp: val, ..self },
        }
    }

    pub fn read8(&self, reg: Reg8) -> (r: u8)
        ensures
            r == self.get8(reg),
    {
        match reg {
            Reg8::A => self.a,
            Reg8::B => self.b,
            Reg8::C => self.c,
            Reg8::D => self.d,
            Reg8::E => self.e,
            Reg8::H => self.h,
            Reg8::L => self.l,
        }
    }

    pub fn write8(&mut self, reg: Reg8, val: u8)
        ensures
            *final(self) == old(self).set8(reg, val),
    {
        match reg {
            Reg8::A => self.a = val,
            Reg8::B => self.b = val,
            Reg8::C => self.c = val,
            Reg8::D => self.d = val,
            Reg8::E => self.e = val,
            Reg8::H => self.h = val,
            Reg8::L => self.l = val,
        }
    }

    pub fn read16(&self, reg: Reg16) -> (r: u16)
        ensures
            r == self.get16(reg),
    {
        match reg {
            Reg16::AF => (self.a as u16) * 256 + (self.f.bits() as u16),
            Reg16::BC => (self.b as u16) * 256 + (self.c as u16),
            Reg16::DE => (self.d as u16) * 256 + (self.e as u16),
            Reg16::HL => (self.h as u16) * 256 + (self.l as u16),
            Reg16::PC => self.pc,
            Reg16::SP => self.sp,
        }
    }

    pub fn write16(&mut self, reg: Reg16, val: u16)
        ensures
            *final(self) == old(self).set16(reg, val),
    {
        let hi = (val / 256) as u8;
        let lo = (val % 256) as u8;
        match reg {
            Reg16::AF => {
                self.a = hi;
                self.f = Flags::from_bits_truncate(lo);
            },
            Reg16::BC => {
                self.b = hi;
                self.c = lo;
            },
            Reg16::DE => {
                self.d = hi;
                self.e = lo;
            },
            Reg16::HL => {
                self.h = hi;
                self.l = lo;
            },
            Reg16::SP => self.sp = val,
            Reg16::PC => self.pc = val,
        }
    }
}

impl Default for Registers {
    fn default() -> (r: Registers)
        ensures
            r == Registers::zeroed(),
    {
        Registers {
            pc: 0,
            sp: 0,
            a: 0,
            f: Flags::empty(),
            b: 0,
            c: 0,
            d: 0,
            e: 0,
            h: 0,
            l: 0,
        }
    }
}

/// Writing an 8-bit register and reading it back yields the value written,
/// and leaves every other 8-bit register as it was.
pub proof fn lemma_write8_read8(regs: Registers, r: Reg8, v: u8)
    ensures
        regs.set8(r, v).get8(r) == v,
        forall|o: Reg8| o != r ==> #[trigger] regs.set8(r, v).get8(o) == regs.get8(o),
{
}

/// Writing a 16-bit register and reading it back yields the value written,
/// its high half being `v >> 8` and its low half `v & 0xFF`. For AF this holds
/// of the values whose lower nibble is zero, the only ones F can hold.
pub proof fn lemma_write16_read16(regs: Registers, r: Reg16, v: u16)
    requires
        r == Reg16::AF ==> v & 0x0F == 0,
    ensures
        regs.set16(r, v).get16(r) == v,
        r == Reg16::AF ==> regs.set16(r, v).a == v >> 8 && regs.set16(r, v).f.byte() == v & 0xFF,
        r == Reg16::BC ==> regs.set16(r, v).b == v >> 8 && regs.set16(r, v).c == v & 0xFF,
        r == Reg16::DE ==> regs.set16(r, v).d == v >> 8 && regs.set16(r, v).e == v & 0xFF,
        r == Reg16::HL ==> regs.set16(r, v).h == v >> 8 && regs.set16(r, v).l == v & 0xFF,
{
    lemma_halves(v);
    if r == Reg16::AF {
        let lo = low_byte(v);
        lemma_flags_byte(lo, regs.f);
        assert(lo & 0xF0 == lo) by (bit_vector)
            requires
                lo == v & 0xFF,
                v & 0x0F == 0,
        ;
    }
}

/// The halves of a 16-bit value, by arithmetic and by bit operations.
pub proof fn lemma_halves(v: u16)
    ensures
        high_byte(v) == v >> 8,
        low_byte(v) == v & 0xFF,
        pair(high_byte(v), low_byte(v)) == v,
{
    assert(v >> 8 == v / 256 && v & 0xFF == v % 256) by (bit_vector);
}

} // verus!
