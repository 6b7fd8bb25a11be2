use oxiboy::bus::{BusError, MemoryBus};
use oxiboy::cartridge::Cartridge;
use oxiboy::gameboy::GameBoy;
use oxiboy::instructions::{Info, Instruction};
use oxiboy::interconnect::Interconnect;
use oxiboy::ppu::PPU;
use oxiboy::registers::Reg16;

#[test]
fn vram_write_is_seen_by_bus_and_ppu_only() {
    let mut bus = Interconnect::new(vec![0; 0x100], vec![]);
    assert_eq!(bus.write(0x8000, 0xAB), Ok(()));
    assert_eq!(bus.read(0x8000), Ok(0xAB));
    assert_eq!(bus.ppu().read(0), 0xAB);
    assert_eq!(bus.read(0xC000), Ok(0xFF));
    assert_eq!(bus.read(0xFF80), Ok(0xFF));
    assert_eq!(bus.read(0xDFFF), Ok(0xFF));
}

#[test]
fn stores_start_filled() {
    let bus = Interconnect::new(vec![], vec![]);
    assert_eq!(bus.read(0x9FFF), Ok(0xFF));
    assert_eq!(bus.read(0xC000), Ok(0xFF));
    assert_eq!(bus.read(0xFF00), Ok(0xFF));
    assert_eq!(bus.read(0xFF7F), Ok(0xFF));
    assert_eq!(bus.read(0xFFFE), Ok(0xFF));
    assert_eq!(bus.read(0xFF40), Ok(0x00));
    assert_eq!(bus.read(0xFF44), Ok(0x00));
}

#[test]
fn boot_rom_and_cartridge_mapping() {
    let bus = Interconnect::new(vec![0x31, 0xFE], vec![0x10, 0x20, 0x30]);
    assert_eq!(bus.read(0x0000), Ok(0x31));
    assert_eq!(bus.read(0x0001), Ok(0xFE));
    assert_eq!(bus.read(0x0002), Err(BusError::OutOfBounds(0x0002)));
    assert_eq!(bus.read(0x0100), Ok(0x10));
    assert_eq!(bus.read(0x0102), Ok(0x30));
    assert_eq!(bus.read(0x0103), Err(BusError::OutOfBounds(0x0103)));
    assert_eq!(bus.read_internal(0x0101), Ok(0x20));
}

#[test]
fn unmapped_addresses_fail() {
    let mut bus = Interconnect::new(vec![], vec![]);
    assert_eq!(bus.read(0xA000), Err(BusError::Unmapped(0xA000)));
    assert_eq!(bus.read(0xE000), Err(BusError::Unmapped(0xE000)));
    assert_eq!(bus.read(0xFE00), Err(BusError::Unmapped(0xFE00)));
    assert_eq!(bus.read(0xFFFF), Err(BusError::Unmapped(0xFFFF)));
    assert_eq!(bus.write(0xBFFF, 1), Err(BusError::Unmapped(0xBFFF)));
    assert_eq!(bus.write(0xFFFF, 1), Err(BusError::Unmapped(0xFFFF)));
}

#[test]
fn rom_and_scanline_refuse_writes() {
    let mut bus = Interconnect::new(vec![0x00], vec![0x00]);
    assert_eq!(bus.write(0x0000, 1), Err(BusError::ReadOnly(0x0000)));
    assert_eq!(bus.write(0x0150, 1), Err(BusError::ReadOnly(0x0150)));
    assert_eq!(bus.write(0xFF44, 1), Err(BusError::ReadOnly(0xFF44)));
    assert_eq!(bus.read(0x0000), Ok(0x00));
    assert_eq!(bus.read(0xFF44), Ok(0x00));
}

#[test]
fn ppu_registers_behind_io_page() {
    let mut bus = Interconnect::new(vec![], vec![]);
    assert_eq!(bus.write(0xFF40, 0x91), Ok(()));
    assert_eq!(bus.read(0xFF40), Ok(0x91));
    assert_eq!(bus.ppu().get_control(), 0x91);
    assert_eq!(bus.write(0xFF42, 0x07), Ok(()));
    assert_eq!(bus.read(0xFF42), Ok(0x07));
    assert_eq!(bus.ppu().get_scroll_y(), 0x07);
    assert_eq!(bus.write(0xFF7F, 0x3C), Ok(()));
    assert_eq!(bus.read(0xFF7F), Ok(0x3C));
    assert_eq!(bus.write(0xFFFE, 0x4D), Ok(()));
    assert_eq!(bus.read(0xFFFE), Ok(0x4D));
}

#[test]
fn ppu_surface() {
    let mut ppu = PPU::new();
    assert_eq!(ppu.read(0), 0xFF);
    assert_eq!(ppu.read(8191), 0xFF);
    ppu.write(8191, 0x12);
    assert_eq!(ppu.read(8191), 0x12);
    assert_eq!(ppu.get_current_line(), 0);
    assert_eq!(ppu.get_control(), 0);
    ppu.set_control(0x80);
    assert_eq!(ppu.get_control(), 0x80);
    ppu.set_scroll_x(3);
    ppu.set_scroll_y(4);
    assert_eq!(ppu.get_scroll_x(), 3);
    assert_eq!(ppu.get_scroll_y(), 4);
}

#[test]
fn cartridge_reads_rebased() {
    let cart = Cartridge::new(vec![7, 8, 9]);
    assert_eq!(cart.size(), 3);
    assert_eq!(cart.read(0x0100), 7);
    assert_eq!(cart.read(0x0102), 9);
}

#[test]
fn gameboy_steps_and_inspects() {
    let mut gb = GameBoy::new(vec![0x00, 0x21, 0x00, 0xC0, 0x3E], vec![]);
    assert_eq!(gb.pc(), 0);
    assert_eq!(gb.step(), Ok(Instruction::Nop(Info { opcode: 0, byte_length: 1, cycle_duration: 4 })));
    assert_eq!(gb.pc(), 1);
    gb.step().unwrap();
    assert_eq!(gb.registers().read16(Reg16::HL), 0xC000);
    assert_eq!(gb.mem(0x0004), Ok(0x3E));
    assert_eq!(gb.mem(0xC000), Ok(0xFF));
    assert_eq!(gb.interconnect().ppu().get_scroll_y(), 0);
    assert_eq!(gb.pc(), 4);
}
