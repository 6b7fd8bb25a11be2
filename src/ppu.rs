use vstd::prelude::*;

verus! {

/// The number of bytes of video RAM.
pub const VRAM_SIZE: usize = 8192;

/// The LCD control register, each of its eight bits a switch.
#[derive(Clone, Copy, Debug, PartialEq, Eq, Structural)]
pub struct Control {
    pub bits: u8,
}

impl Control {
    pub fn empty() -> (r: Control)
        ensures
            r.bits == 0,
    {
        Control { bits: 0 }
    }
}

/// What the picture-processing unit holds: its video RAM and registers.
pub struct PpuView {
    pub vram: Seq<u8>,
    pub control: u8,
    pub current_line: u8,
    pub scroll_x: u8,
    pub scroll_y: u8,
}

/// The register surface of the picture-processing unit: video RAM and the
/// control, scroll and scanline registers. Nothing here renders or advances
/// on its own.
pub struct PPU {
    vram: Vec<u8>,
    control: Control,
    current_line: u8,
    scroll_x: u8,
    scroll_y: u8,
}

impl View for PPU {
    type V = PpuView;

    closed spec fn view(&self) -> PpuView {
        PpuView {
            vram: self.vram@,
            control: self.control.bits,
            current_line: self.current_line,
            scroll_x: self.scroll_x,
            scroll_y: self.scroll_y,
        }
    }
}

impl PPU {
    pub open spec fn wf(&self) -> bool {
        self@.vram.len() == VRAM_SIZE
    }

    /// Video RAM filled with 0xFF, every register zero.
    pub fn new() -> (r: PPU)
        ensures
            r.wf(),
            forall|i: int| 0 <= i < VRAM_SIZE ==> #[trigger] r@.vram[i] == 0xFF,
            r@.control == 0,
            r@.current_line == 0,
            r@.scroll_x == 0,
            r@.scroll_y == 0,
    {
        PPU {
            vram: vec![0xFFu8; VRAM_SIZE],
            control: Control::empty(),
            current_line: 0,
            scroll_x: 0,
            scroll_y: 0,
        }
    }

    pub fn get_current_line(&self) -> (r: u8)
        ensures
            r == self@.current_line,
    {
        self.current_line
    }

    pub fn get_control(&self) -> (r: u8)
        ensures
            r == self@.control,
    {
        self.control.bits
    }

    pub fn set_control(&mut self, val: u8)
        ensures
            final(self)@ == (PpuView { control: val, ..old(self)@ }),
    {
        self.control = Control { bits: val };
    }

    pub fn get_scroll_x(&self) -> (r: u8)
        ensures
            r == self@.scroll_x,
    {
        self.scroll_x
    }

    pub fn set_scroll_x(&mut self, val: u8)
        ensures
            final(self)@ == (PpuView { scroll_x: val, ..old(self)@ }),
    {
        self.scroll_x = val;
    }

    pub fn get_scroll_y(&self) -> (r: u8)
        ensures
            r == self@.scroll_y,
    {
        self.scroll_y
    }

    pub fn set_scroll_y(&mut self, val: u8)
        ensures
            final(self)@ == (PpuView { scroll_y: val, ..old(self)@ }),
    {
        self.scroll_y = val;
    }

    /// The video RAM byte at offset `addr`.
    pub fn read(&self, addr: u16) -> (r: u8)
        requires
            self.wf(),
            addr < VRAM_SIZE,
        ensures
            r == self@.vram[addr as int],
    {
        self.vram[addr as usize]
    }

    pub fn write(&mut self, addr: u16, val: u8)
        requires
            old(self).wf(),
            addr < VRAM_SIZE,
        ensures
            final(self)@ == (PpuView { vram: old(self)@.vram.update(addr as int, val), ..old(self)@ }),
    {
        self.vram.set(addr as usize, val);
    }
}

} // verus!
