use vstd::prelude::*;

verus! {

/// The byte an unbacked cartridge address reads as (open bus).
pub const OPEN_BUS: u8 = 0xFF;

/// The byte a read-only store of `rom` yields at `address`.
pub open spec fn rom_byte(rom: Seq<u8>, address: u16) -> u8 {
    if (address as int) < rom.len() {
        rom[address as int]
    } else {
        OPEN_BUS
    }
}

/// A read-only byte store: cartridge ROM, or the BIOS image shown at boot.
pub struct Cartridge {
    rom: Vec<u8>,
}

impl View for Cartridge {
    type V = Seq<u8>;

    closed spec fn view(&self) -> Seq<u8> {
        self.rom@
    }
}

impl Cartridge {
    pub fn new(rom: Vec<u8>) -> (r: Cartridge)
        ensures
            r@ == rom@,
    {
        Cartridge { rom }
    }

    /// The stored byte at `address`, or `OPEN_BUS` beyond the image.
    pub fn read(&self, address: u16) -> (r: u8)
        ensures
            r == rom_byte(self@, address),
    {
        let i = address as usize;
        if i < self.rom.len() {
            self.rom[i]
        } else {
            OPEN_BUS
        }
    }
}

} // verus!
