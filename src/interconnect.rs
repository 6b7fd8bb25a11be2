use vstd::prelude::*;

use crate::bus::{BusError, MemoryBus};
use crate::cartridge::Cartridge;
use crate::ppu::{PpuView, PPU, VRAM_SIZE};

verus! {

pub const IO_SIZE: usize = 128;

pub const WRAM_SIZE: usize = 8192;

pub const HRAM_SIZE: usize = 127;

/// The LCD control register.
pub const LCDC: u16 = 0xFF40;

/// The background scroll-Y register.
pub const SCY: u16 = 0xFF42;

/// The current scanline register, which cannot be written.
pub const LY: u16 = 0xFF44;

/// What every store behind the bus holds.
pub struct InterconnectView {
    pub bootrom: Seq<u8>,
    pub cartridge: Seq<u8>,
    pub ppu: PpuView,
    pub io: Seq<u8>,
    pub wram: Seq<u8>,
    pub hram: Seq<u8>,
}

/// What a read at `addr` returns. The address ranges, first match wins:
/// 0x0000-0x00FF boot ROM, 0x0100-0x7FFF cartridge ROM (from its byte 0),
/// 0x8000-0x9FFF video RAM, 0xC000-0xDFFF work RAM, 0xFF00-0xFF7F I/O
/// registers (of which LCDC, SCY and LY belong to the PPU), 0xFF80-0xFFFE high
/// RAM; nothing else is mapped.
pub open spec fn read_at(v: InterconnectView, addr: u16) -> Result<u8, BusError> {
    if addr <= 0x00FF {
        if addr < v.bootrom.len() {
            Ok(v.bootrom[addr as int])
        } else {
            Err(BusError::OutOfBounds(addr))
        }
    } else if addr <= 0x7FFF {
        if addr - 0x0100 < v.cartridge.len() {
            Ok(v.cartridge[addr - 0x0100])
        } else {
            Err(BusError::OutOfBounds(addr))
        }
    } else if addr <= 0x9FFF {
        Ok(v.ppu.vram[addr - 0x8000])
    } else if 0xC000 <= addr <= 0xDFFF {
        Ok(v.wram[addr - 0xC000])
    } else if 0xFF00 <= addr <= 0xFF7F {
        if addr == LCDC {
            Ok(v.ppu.control)
        } else if addr == SCY {
            Ok(v.ppu.scroll_y)
        } else if addr == LY {
            Ok(v.ppu.current_line)
        } else {
            Ok(v.io[addr - 0xFF00])
        }
    } else if 0xFF80 <= addr <= 0xFFFE {
        Ok(v.hram[addr - 0xFF80])
    } else {
        Err(BusError::Unmapped(addr))
    }
}

/// Whether a write at `addr` is accepted: ROM and LY refuse writes, unmapped
/// addresses take none.
pub open spec fn write_check(addr: u16) -> Result<(), BusError> {
    if addr <= 0x7FFF || addr == LY {
        Err(BusError::ReadOnly(addr))
    } else if addr <= 0x9FFF || (0xC000 <= addr <= 0xDFFF) || (0xFF00 <= addr <= 0xFF7F) || (
    0xFF80 <= addr <= 0xFFFE) {
        Ok(())
    } else {
        Err(BusError::Unmapped(addr))
    }
}

/// The stores after an accepted write of `val` at `addr`.
pub open spec fn write_at(v: InterconnectView, addr: u16, val: u8) -> InterconnectView {
    if 0x8000 <= addr <= 0x9FFF {
        InterconnectView {
            ppu: PpuView { vram: v.ppu.vram.update(addr - 0x8000, val), ..v.ppu },
            ..v
        }
    } else if 0xC000 <= addr <= 0xDFFF {
        InterconnectView { wram: v.wram.update(addr - 0xC000, val), ..v }
    } else if addr == LCDC {
        InterconnectView { ppu: PpuView { control: val, ..v.ppu }, ..v }
    } else if addr == SCY {
        InterconnectView { ppu: PpuView { scroll_y: val, ..v.ppu }, ..v }
    } else if 0xFF00 <= addr <= 0xFF7F {
        InterconnectView { io: v.io.update(addr - 0xFF00, val), ..v }
    } else {
        InterconnectView { hram: v.hram.update(addr - 0xFF80, val), ..v }
    }
}

/// The address decoder: routes each address to exactly one of the boot ROM,
/// the cartridge, the PPU, work RAM, the I/O registers and high RAM.
pub struct Interconnect {
    bootrom: Vec<u8>,
    cartridge: Cartridge,
    ppu: PPU,
    io: Vec<u8>,
    wram: Vec<u8>,
    hram: Vec<u8>,
}

impl View for Interconnect {
    type V = InterconnectView;

    closed spec fn view(&self) -> InterconnectView {
        InterconnectView {
            bootrom: self.bootrom@,
            cartridge: self.cartridge@,
            ppu: self.ppu@,
            io: self.io@,
            wram: self.wram@,
            hram: self.hram@,
        }
    }
}

impl Interconnect {
    pub open spec fn wf(&self) -> bool {
        &&& self@.ppu.vram.len() == VRAM_SIZE
        &&& self@.io.len() == IO_SIZE
        &&& self@.wram.len() == WRAM_SIZE
        &&& self@.hram.len() == HRAM_SIZE
    }

    /// The machine's memory at power-on: the two ROM images as given, every
    /// RAM byte and I/O register 0xFF, the PPU's registers zero.
    pub fn new(bootrom: Vec<u8>, rom: Vec<u8>) -> (r: Interconnect)
        ensures
            r.wf(),
            r@.bootrom == bootrom@,
            r@.cartridge == rom@,
            forall|i: int| 0 <= i < VRAM_SIZE ==> #[trigger] r@.ppu.vram[i] == 0xFF,
            r@.ppu.control == 0,
            r@.ppu.current_line == 0,
            r@.ppu.scroll_x == 0,
            r@.ppu.scroll_y == 0,
            forall|i: int| 0 <= i < IO_SIZE ==> #[trigger] r@.io[i] == 0xFF,
            forall|i: int| 0 <= i < WRAM_SIZE ==> #[trigger] r@.wram[i] == 0xFF,
            forall|i: int| 0 <= i < HRAM_SIZE ==> #[trigger] r@.hram[i] == 0xFF,
    {
        Interconnect {
            bootrom,
            cartridge: Cartridge::new(rom),
            ppu: PPU::new(),
            io: vec![0xFFu8; IO_SIZE],
            wram: vec![0xFFu8; WRAM_SIZE],
            hram: vec![0xFFu8; HRAM_SIZE],
        }
    }

    /// The PPU behind the bus, for inspection.
    pub fn ppu(&self) -> (r: &PPU)
        ensures
            r@ == self@.ppu,
    {
        &self.ppu
    }

    pub fn read_internal(&self, addr: u16) -> (r: Result<u8, BusError>)
        requires
            self.wf(),
        ensures
            r == read_at(self@, addr),
    {
        if addr <= 0x00FF {
            if (addr as usize) < self.bootrom.len() {
                Ok(self.bootrom[addr as usize])
            } else {
                Err(BusError::OutOfBounds(addr))
            }
        } else if addr <= 0x7FFF {
            if ((addr - 0x0100) as usize) < self.cartridge.size() {
                Ok(self.cartridge.read(addr))
            } else {
                Err(BusError::OutOfBounds(addr))
            }
        } else if addr <= 0x9FFF {
            Ok(self.ppu.read(addr - 0x8000))
        } else if 0xC000 <= addr && addr <= 0xDFFF {
            Ok(self.wram[(addr - 0xC000) as usize])
        } else if 0xFF00 <= addr && addr <= 0xFF7F {
            if addr == LCDC {
                Ok(self.ppu.get_control())
            } else if addr == SCY {
                Ok(self.ppu.get_scroll_y())
            } else if addr == LY {
                Ok(self.ppu.get_current_line())
            } else {
                Ok(self.io[(addr - 0xFF00) as usize])
            }
        } else if 0xFF80 <= addr && addr <= 0xFFFE {
            Ok(self.hram[(addr - 0xFF80) as usize])
        } else {
            Err(BusError::Unmapped(addr))
        }
    }

    fn write_internal(&mut self, addr: u16, val: u8) -> (r: Result<(), BusError>)
        requires
            old(self).wf(),
        ensures
            final(self).wf(),
            r == write_check(addr),
            final(self)@ == if r is Ok {
                write_at(old(self)@, addr, val)
            } else {
                old(self)@
            },
    {
        if addr <= 0x7FFF {
            Err(BusError::ReadOnly(addr))
        } else if addr <= 0x9FFF {
            self.ppu.write(addr - 0x8000, val);
            Ok(())
        } else if 0xC000 <= addr && addr <= 0xDFFF {
            self.wram.set((addr - 0xC000) as usize, val);
            Ok(())
        } else if 0xFF00 <= addr && addr <= 0xFF7F {
            if addr == LCDC {
                self.ppu.set_control(val);
                Ok(())
            } else if addr == SCY {
                self.ppu.set_scroll_y(val);
                Ok(())
            } else if addr == LY {
                Err(BusError::ReadOnly(addr))
            } else {
                self.io.set((addr - 0xFF00) as usize, val);
                Ok(())
            }
        } else if 0xFF80 <= addr && addr <= 0xFFFE {
            self.hram.set((addr - 0xFF80) as usize, val);
            Ok(())
        } else {
            Err(BusError::Unmapped(addr))
        }
    }
}

impl MemoryBus for Interconnect {
    open spec fn inv(&self) -> bool {
        self.wf()
    }

    open spec fn peek(&self, addr: u16) -> Result<u8, BusError> {
        read_at(self@, addr)
    }

    open spec fn poke(&self, addr: u16) -> Result<(), BusError> {
        write_check(addr)
    }

    fn read(&self, addr: u16) -> (r: Result<u8, BusError>) {
        self.read_internal(addr)
    }

    fn write(&mut self, addr: u16, val: u8) -> (r: Result<(), BusError>) {
        let r = self.write_internal(addr, val);
        proof {
            assert forall|a: u16| #[trigger]
                read_at(self@, a) == if r is Ok && a == addr {
                    Ok(val)
                } else {
                    read_at(old(self)@, a)
                } by {
                if r is Ok && a != addr {
                    lemma_write_elsewhere(old(self)@, addr, val, a);
                }
            }
        }
        r
    }
}

/// An accepted write is seen at its own address and at no other.
pub proof fn lemma_write_elsewhere(v: InterconnectView, addr: u16, val: u8, a: u16)
    requires
        v.ppu.vram.len() == VRAM_SIZE,
        v.io.len() == IO_SIZE,
        v.wram.len() == WRAM_SIZE,
        v.hram.len() == HRAM_SIZE,
        write_check(addr) is Ok,
    ensures
        read_at(write_at(v, addr, val), addr) == Ok::<u8, BusError>(val),
        a != addr ==> read_at(write_at(v, addr, val), a) == read_at(v, a),
{
}

/// A byte written into video RAM reads back at its address, is what the PPU
/// holds at the matching offset, and leaves work RAM and high RAM as they
/// were.
pub proof fn lemma_vram_write(v: InterconnectView, addr: u16, val: u8)
    requires
        v.ppu.vram.len() == VRAM_SIZE,
        v.io.len() == IO_SIZE,
        v.wram.len() == WRAM_SIZE,
        v.hram.len() == HRAM_SIZE,
        0x8000 <= addr <= 0x9FFF,
    ensures
        write_check(addr) is Ok,
        read_at(write_at(v, addr, val), addr) == Ok::<u8, BusError>(val),
        write_at(v, addr, val).ppu.vram[addr - 0x8000] == val,
        forall|a: u16|
            (0xC000 <= a <= 0xDFFF || 0xFF80 <= a <= 0xFFFE) ==> #[trigger] read_at(
                write_at(v, addr, val),
                a,
            ) == read_at(v, a),
{
}

} // verus!
