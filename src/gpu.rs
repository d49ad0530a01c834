use vstd::prelude::*;

verus! {

/// Bytes of video memory, mapped at `VRAM_ADDRESS`.
pub const VRAM_SIZE: usize = 8192;
/// Bytes of object-attribute memory, mapped at `OAM_ADDRESS`.
pub const OAM_SIZE: usize = 160;
pub const VRAM_ADDRESS: u16 = 0x8000;
pub const OAM_ADDRESS: u16 = 0xFE00;

/// What the bus can see of the GPU.
pub struct GpuView {
    pub vram: Seq<u8>,
    pub oam: Seq<u8>,
    pub lcdc: u8,
    pub scroll_x: u8,
    pub scroll_y: u8,
    pub current_scanline: u8,
    pub bgpal: u8,
}

impl GpuView {
    pub open spec fn wf(self) -> bool {
        self.vram.len() == VRAM_SIZE && self.oam.len() == OAM_SIZE
    }
}

/// The GPU as a byte-addressable register and memory surface.
pub struct Gpu {
    vram: Vec<u8>,
    oam: Vec<u8>,
    lcdc: u8,
    scroll_x: u8,
    scroll_y: u8,
    current_scanline: u8,
    bgpal: u8,
}

impl View for Gpu {
    type V = GpuView;

    closed spec fn view(&self) -> GpuView {
        GpuView {
            vram: self.vram@,
            oam: self.oam@,
            lcdc: self.lcdc,
            scroll_x: self.scroll_x,
            scroll_y: self.scroll_y,
            current_scanline: self.current_scanline,
            bgpal: self.bgpal,
        }
    }
}

impl Gpu {
    /// A GPU with zeroed memories and registers.
    pub fn new() -> (r: Gpu)
        ensures
            r@.wf(),
            r@.vram == Seq::new(VRAM_SIZE as nat, |i: int| 0u8),
            r@.oam == Seq::new(OAM_SIZE as nat, |i: int| 0u8),
            r@.lcdc == 0 && r@.scroll_x == 0 && r@.scroll_y == 0,
            r@.current_scanline == 0 && r@.bgpal == 0,
    {
        let vram = vec![0u8; VRAM_SIZE];
        let oam = vec![0u8; OAM_SIZE];
        let r = Gpu { vram, oam, lcdc: 0, scroll_x: 0, scroll_y: 0, current_scanline: 0, bgpal: 0 };
        assert(r@.vram =~= Seq::new(VRAM_SIZE as nat, |i: int| 0u8));
        assert(r@.oam =~= Seq::new(OAM_SIZE as nat, |i: int| 0u8));
        r
    }

    pub fn write_vram(&mut self, address: u16, value: u8)
        requires
            old(self)@.wf(),
            VRAM_ADDRESS <= address < VRAM_ADDRESS + VRAM_SIZE,
        ensures
            final(self)@ == (GpuView {
                vram: old(self)@.vram.update(address - VRAM_ADDRESS, value),
                ..old(self)@
            }),
    {
        self.vram.set((address - VRAM_ADDRESS) as usize, value);
    }

    pub fn read_vram(&self, address: u16) -> (r: u8)
        requires
            self@.wf(),
            VRAM_ADDRESS <= address < VRAM_ADDRESS + VRAM_SIZE,
        ensures
            r == self@.vram[address - VRAM_ADDRESS],
    {
        self.vram[(address - VRAM_ADDRESS) as usize]
    }

    pub fn write_oam(&mut self, address: u16, value: u8)
        requires
            old(self)@.wf(),
            OAM_ADDRESS <= address < OAM_ADDRESS + OAM_SIZE,
        ensures
            final(self)@ == (GpuView {
                oam: old(self)@.oam.update(address - OAM_ADDRESS, value),
                ..old(self)@
            }),
    {
        self.oam.set((address - OAM_ADDRESS) as usize, value);
    }

    pub fn read_oam(&self, address: u16) -> (r: u8)
        requires
            self@.wf(),
            OAM_ADDRESS <= address < OAM_ADDRESS + OAM_SIZE,
        ensures
            r == self@.oam[address - OAM_ADDRESS],
    {
        self.oam[(address - OAM_ADDRESS) as usize]
    }

    /// Sets the LCD-control register.
    pub fn write_lcdc(&mut self, value: u8)
        ensures
            final(self)@ == (GpuView { lcdc: value, ..old(self)@ }),
    {
        self.lcdc = value;
    }

    /// Sets the background palette.
    pub fn set_bgpal(&mut self, value: u8)
        ensures
            final(self)@ == (GpuView { bgpal: value, ..old(self)@ }),
    {
        self.bgpal = value;
    }

    pub fn bgpal(&self) -> (r: u8)
        ensures
            r == self@.bgpal,
    {
        self.bgpal
    }

    pub fn lcdc(&self) -> (r: u8)
        ensures
            r == self@.lcdc,
    {
        self.lcdc
    }

    pub fn scroll_x(&self) -> (r: u8)
        ensures
            r == self@.scroll_x,
    {
        self.scroll_x
    }

    pub fn scroll_y(&self) -> (r: u8)
        ensures
            r == self@.scroll_y,
    {
        self.scroll_y
    }

    pub fn current_scanline(&self) -> (r: u8)
        ensures
            r == self@.current_scanline,
    {
        self.current_scanline
    }

    pub fn set_scroll_x(&mut self, value: u8)
        ensures
            final(self)@ == (GpuView { scroll_x: value, ..old(self)@ }),
    {
        self.scroll_x = value;
    }

    pub fn set_scroll_y(&mut self, value: u8)
        ensures
            final(self)@ == (GpuView { scroll_y: value, ..old(self)@ }),
    {
        self.scroll_y = value;
    }

    /// Sets the scanline being drawn, as the rendering side advances it.
    pub fn set_current_scanline(&mut self, value: u8)
        ensures
            final(self)@ == (GpuView { current_scanline: value, ..old(self)@ }),
    {
        self.current_scanline = value;
    }
}

} // verus!
