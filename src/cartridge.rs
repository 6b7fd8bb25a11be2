use vstd::prelude::*;

verus! {

/// The cartridge ROM image. It is mapped from address 0x0100 on, so the byte
/// at address `a` is the image's byte `a - 0x0100`.
pub struct Cartridge {
    rom: Vec<u8>,
}

impl View for Cartridge {
    type V = Seq<u8>;

    closed spec fn view(&self) -> Seq<u8> {
        self.rom@
    }
}

impl Cartridge {
    pub fn new(rom: Vec<u8>) -> (r: Cartridge)
        ensures
            r@ == rom@,
    {
        Cartridge { rom }
    }

    /// The number of bytes in the image.
    pub fn size(&self) -> (r: usize)
        ensures
            r == self@.len(),
    {
        self.rom.len()
    }

    pub fn read(&self, addr: u16) -> (r: u8)
        requires
            0x0100 <= addr,
            addr - 0x0100 < self@.len(),
        ensures
            r == self@[addr - 0x0100],
    {
        let actual_addr = addr - 0x0100;
        self.rom[actual_addr as usize]
    }
}

} // verus!
