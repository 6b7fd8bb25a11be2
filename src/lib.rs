pub mod bus;
pub mod cartridge;
pub mod cpu;
pub mod gameboy;
pub mod instructions;
pub mod interconnect;
pub mod ops;
pub mod ppu;
pub mod registers;
