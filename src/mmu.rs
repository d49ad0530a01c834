use vstd::prelude::*;
use crate::cartridge::{Cartridge, rom_byte};
use crate::gpu::{Gpu, GpuView, OAM_ADDRESS, OAM_SIZE, VRAM_ADDRESS};

verus! {

pub const EXT_RAM_SIZE: usize = 8192;
pub const W_RAM_SIZE: usize = 8192;
/// Echo RAM is a store of its own here, not a mirror of working RAM.
pub const ECHO_RAM_SIZE: usize = 7679;
pub const H_RAM_SIZE: usize = 127;
pub const IO_SIZE: usize = 127;

pub const USER_PROGRAM_AREA_ADDRESS: u16 = 0x100;
pub const VRAM_END: u16 = 0x9FFF;
pub const EXT_RAM_ADDRESS: u16 = 0xA000;
pub const EXT_RAM_END: u16 = 0xBFFF;
pub const W_RAM_ADDRESS: u16 = 0xC000;
pub const W_RAM_END: u16 = 0xDFFF;
pub const ECHO_RAM_ADDRESS: u16 = 0xE000;
pub const ECHO_RAM_END: u16 = 0xFDFE;
pub const OAM_END: u16 = 0xFE9E;
pub const UNUSABLE_ADDRESS: u16 = 0xFEA0;
pub const UNUSABLE_END: u16 = 0xFEFE;
pub const IO_ADDRESS: u16 = 0xFF00;
pub const IO_END: u16 = 0xFF7E;
pub const H_RAM_ADDR: u16 = 0xFF80;
pub const H_RAM_END: u16 = 0xFFFD;
pub const KEYPAD_ADDRESS: u16 = 0xFF00;
pub const LCDC_ADDRESS: u16 = 0xFF40;
pub const SCROLL_Y_ADDRESS: u16 = 0xFF42;
pub const SCROLL_X_ADDRESS: u16 = 0xFF43;
pub const SCANLINE_ADDRESS: u16 = 0xFF44;
pub const DMA_ADDRESS: u16 = 0xFF46;
pub const BG_PAL_ADDR: u16 = 0xFF47;
pub const BOOT_DISABLE_ADDRESS: u16 = 0xFF50;
pub const INTERRUPT_ENABLE_ADDRESS: u16 = 0xFFFF;
pub const INTERRUPT_FLAGS_ADDRESS: u16 = 0xFF0F;
/// Opcode byte announcing that the next byte selects an extended instruction.
pub const EXTENSION_PREFIX: u8 = 0xCB;
/// What a keypad read yields: no key pressed. Input is not modelled; the
/// written byte is kept but never read back.
pub const KEYPAD_IDLE: u8 = 0xFF;
/// Bytes copied by one DMA transfer.
pub const DMA_LENGTH: u16 = 160;

/// A decoded opcode: `Regular` selects from the plain table, `CB` from the
/// extended one (the byte after the prefix).
#[derive(Clone, Copy, Debug, PartialEq, Eq, Structural)]
pub enum Opcode {
    Regular(u8),
    CB(u8),
}

/// The decoding of the byte `first` at the program counter, followed by `next`.
pub open spec fn decode(first: u8, next: u8) -> Opcode {
    if first == EXTENSION_PREFIX {
        Opcode::CB(next)
    } else {
        Opcode::Regular(first)
    }
}

/// The state of the whole bus, as plain values.
pub struct MmuView {
    pub cartridge: Seq<u8>,
    pub bios: Option<Seq<u8>>,
    pub gpu: GpuView,
    pub ext_ram: Seq<u8>,
    pub w_ram: Seq<u8>,
    pub echo_ram: Seq<u8>,
    pub h_ram: Seq<u8>,
    pub io: Seq<u8>,
    pub interrupts_enabled: u8,
    pub interrupt_flags: u8,
    pub is_booted: bool,
    pub keypad: u8,
}

impl MmuView {
    pub open spec fn wf(self) -> bool {
        &&& self.gpu.wf()
        &&& self.ext_ram.len() == EXT_RAM_SIZE
        &&& self.w_ram.len() == W_RAM_SIZE
        &&& self.echo_ram.len() == ECHO_RAM_SIZE
        &&& self.h_ram.len() == H_RAM_SIZE
        &&& self.io.len() == IO_SIZE
    }

    /// Whether reading `address` is defined: a boot-overlaid address needs a
    /// BIOS while the boot latch is still clear.
    pub open spec fn readable(self, address: u16) -> bool {
        !(address <= 0xFF && !self.is_booted && self.bios is None)
    }

    /// Whether writing `value` at `address` is defined: a DMA trigger reads
    /// its whole source range through the bus.
    pub open spec fn writable(self, address: u16, value: u8) -> bool {
        address == DMA_ADDRESS ==> self.readable((value as u16 * 256) as u16)
    }

    pub open spec fn with_gpu(self, gpu: GpuView) -> MmuView {
        MmuView { gpu, ..self }
    }

    pub open spec fn with_oam(self, oam: Seq<u8>) -> MmuView {
        self.with_gpu(GpuView { oam, ..self.gpu })
    }
}

/// The byte that a read of `a` yields in state `v`.
pub open spec fn read_view(v: MmuView, a: u16) -> u8 {
    if a == INTERRUPT_FLAGS_ADDRESS {
        v.interrupt_flags
    } else if a < USER_PROGRAM_AREA_ADDRESS {
        if !v.is_booted {
            match v.bios {
                Some(b) => rom_byte(b, a),
                None => 0,
            }
        } else {
            rom_byte(v.cartridge, a)
        }
    } else if a < VRAM_ADDRESS {
        rom_byte(v.cartridge, a)
    } else if a <= VRAM_END {
        v.gpu.vram[a - VRAM_ADDRESS]
    } else if a <= EXT_RAM_END {
        v.ext_ram[a - EXT_RAM_ADDRESS]
    } else if a <= W_RAM_END {
        v.w_ram[a - W_RAM_ADDRESS]
    } else if a <= ECHO_RAM_END {
        v.echo_ram[a - ECHO_RAM_ADDRESS]
    } else if OAM_ADDRESS <= a <= OAM_END {
        v.gpu.oam[a - OAM_ADDRESS]
    } else if IO_ADDRESS <= a <= IO_END {
        if a == KEYPAD_ADDRESS {
            KEYPAD_IDLE
        } else if a == LCDC_ADDRESS {
            v.gpu.lcdc
        } else if a == SCROLL_Y_ADDRESS {
            v.gpu.scroll_y
        } else if a == SCROLL_X_ADDRESS {
            v.gpu.scroll_x
        } else if a == SCANLINE_ADDRESS {
            v.gpu.current_scanline
        } else {
            v.io[a - IO_ADDRESS]
        }
    } else if H_RAM_ADDR <= a <= H_RAM_END {
        v.h_ram[a - H_RAM_ADDR]
    } else if a == INTERRUPT_ENABLE_ADDRESS {
        v.interrupts_enabled
    } else {
        0
    }
}

/// The state after a DMA transfer from page `source`: object-attribute
/// memory holds the bytes that the bus read at the source range.
pub open spec fn dma_view(v: MmuView, source: u8) -> MmuView {
    v.with_oam(Seq::new(OAM_SIZE as nat, |i: int| read_view(v, (source as u16 * 256 + i) as u16)))
}

/// The state after writing `value` through the I/O block at `a`, taps included.
pub open spec fn io_write_view(v: MmuView, a: u16, value: u8) -> MmuView {
    let tapped = if a == KEYPAD_ADDRESS {
        MmuView { keypad: value, ..v }
    } else if a == LCDC_ADDRESS {
        v.with_gpu(GpuView { lcdc: value, ..v.gpu })
    } else if a == SCROLL_Y_ADDRESS {
        v.with_gpu(GpuView { scroll_y: value, ..v.gpu })
    } else if a == SCROLL_X_ADDRESS {
        v.with_gpu(GpuView { scroll_x: value, ..v.gpu })
    } else if a == BG_PAL_ADDR {
        v.with_gpu(GpuView { bgpal: value, ..v.gpu })
    } else if a == DMA_ADDRESS {
        dma_view(v, value)
    } else {
        v
    };
    MmuView { io: tapped.io.update(a - IO_ADDRESS, value), ..tapped }
}

/// The state after writing `value` at `a` in state `v`.
pub open spec fn write_view(v: MmuView, a: u16, value: u8) -> MmuView {
    if a == BOOT_DISABLE_ADDRESS {
        MmuView { is_booted: true, io: v.io.update(a - IO_ADDRESS, value), ..v }
    } else if a == INTERRUPT_FLAGS_ADDRESS {
        MmuView { interrupt_flags: value, ..v }
    } else if VRAM_ADDRESS <= a <= VRAM_END {
        v.with_gpu(GpuView { vram: v.gpu.vram.update(a - VRAM_ADDRESS, value), ..v.gpu })
    } else if EXT_RAM_ADDRESS <= a <= EXT_RAM_END {
        MmuView { ext_ram: v.ext_ram.update(a - EXT_RAM_ADDRESS, value), ..v }
    } else if W_RAM_ADDRESS <= a <= W_RAM_END {
        MmuView { w_ram: v.w_ram.update(a - W_RAM_ADDRESS, value), ..v }
    } else if ECHO_RAM_ADDRESS <= a <= ECHO_RAM_END {
        MmuView { echo_ram: v.echo_ram.update(a - ECHO_RAM_ADDRESS, value), ..v }
    } else if OAM_ADDRESS <= a <= OAM_END {
        v.with_oam(v.gpu.oam.update(a - OAM_ADDRESS, value))
    } else if IO_ADDRESS <= a <= IO_END {
        io_write_view(v, a, value)
    } else if H_RAM_ADDR <= a <= H_RAM_END {
        MmuView { h_ram: v.h_ram.update(a - H_RAM_ADDR, value), ..v }
    } else if a == INTERRUPT_ENABLE_ADDRESS {
        MmuView { interrupts_enabled: value, ..v }
    } else {
        v
    }
}

/// The 16-bit value read at `a`: the byte at `a` is the high half, the byte
/// after it the low half, the order in which a 16-bit write stores them.
pub open spec fn read_word_view(v: MmuView, a: u16) -> u16 {
    (read_view(v, a) as u16 * 256 + read_view(v, a.wrapping_add(1)) as u16) as u16
}

/// The state after a 16-bit write of `value` at `a`: the high byte goes to
/// `a` first, then the low byte to the address after it.
pub open spec fn write_word_view(v: MmuView, a: u16, value: u16) -> MmuView {
    write_view(write_view(v, a, (value / 256) as u8), a.wrapping_add(1), (value % 256) as u8)
}

/// A write keeps the BIOS and never clears the boot latch, so a write that
/// is defined before it stays defined after it.
pub proof fn lemma_write_keeps_writable(v: MmuView, a: u16, value: u8, b: u16, x: u8)
    requires
        v.writable(b, x),
    ensures
        write_view(v, a, value).writable(b, x),
        write_view(v, a, value).bios == v.bios,
        v.is_booted ==> write_view(v, a, value).is_booted,
{
}

/// An address backed by plain storage that no tap reads or writes: a write
/// there changes that byte alone, and a read returns it.
pub open spec fn is_storage_address(a: u16) -> bool {
    ||| VRAM_ADDRESS <= a <= ECHO_RAM_END
    ||| OAM_ADDRESS <= a <= OAM_END
    ||| (IO_ADDRESS <= a <= IO_END && !is_tap_address(a))
    ||| H_RAM_ADDR <= a <= H_RAM_END
    ||| a == INTERRUPT_ENABLE_ADDRESS
}

/// An I/O address whose read or write does more than touch the I/O block.
pub open spec fn is_tap_address(a: u16) -> bool {
    ||| a == KEYPAD_ADDRESS
    ||| a == INTERRUPT_FLAGS_ADDRESS
    ||| a == LCDC_ADDRESS
    ||| a == SCROLL_Y_ADDRESS
    ||| a == SCROLL_X_ADDRESS
    ||| a == SCANLINE_ADDRESS
    ||| a == DMA_ADDRESS
    ||| a == BG_PAL_ADDR
    ||| a == BOOT_DISABLE_ADDRESS
}

/// Writing a byte at a storage address and reading it back returns that
/// byte, and leaves every other address reading as before.
pub proof fn lemma_storage_round_trip(v: MmuView, a: u16, value: u8, b: u16)
    requires
        v.wf(),
        is_storage_address(a),
    ensures
        v.writable(a, value),
        write_view(v, a, value).wf(),
        read_view(write_view(v, a, value), a) == value,
        b != a ==> read_view(write_view(v, a, value), b) == read_view(v, b),
{
}

/// Every address of video memory reads back the byte written there.
pub proof fn lemma_vram_round_trip(v: MmuView, a: u16, value: u8)
    requires
        v.wf(),
        VRAM_ADDRESS <= a <= VRAM_END,
    ensures
        read_view(write_view(v, a, value), a) == value,
{
    lemma_storage_round_trip(v, a, value, a);
}

/// Every address of working RAM reads back the byte written there.
pub proof fn lemma_w_ram_round_trip(v: MmuView, a: u16, value: u8)
    requires
        v.wf(),
        W_RAM_ADDRESS <= a <= W_RAM_END,
    ensures
        read_view(write_view(v, a, value), a) == value,
{
    lemma_storage_round_trip(v, a, value, a);
}

/// A 16-bit write followed by a 16-bit read at the same two storage
/// addresses returns the value written.
pub proof fn lemma_word_round_trip(v: MmuView, a: u16, value: u16)
    requires
        v.wf(),
        is_storage_address(a),
        is_storage_address(a.wrapping_add(1)),
    ensures
        read_word_view(write_word_view(v, a, value), a) == value,
{
    let high = (value / 256) as u8;
    let low = (value % 256) as u8;
    let next = a.wrapping_add(1);
    let w1 = write_view(v, a, high);
    lemma_storage_round_trip(v, a, high, next);
    assert(next != a);
    lemma_storage_round_trip(w1, next, low, a);
}

/// While the boot latch is clear the low range shows the BIOS; one write to
/// the boot-disable address sets the latch, after which it shows the
/// cartridge.
pub proof fn lemma_boot_overlay(v: MmuView, a: u16, value: u8)
    requires
        v.wf(),
        !v.is_booted,
        v.bios is Some,
        a < USER_PROGRAM_AREA_ADDRESS,
    ensures
        read_view(v, a) == rom_byte(v.bios.unwrap(), a),
        write_view(v, BOOT_DISABLE_ADDRESS, value).is_booted,
        read_view(write_view(v, BOOT_DISABLE_ADDRESS, value), a) == rom_byte(v.cartridge, a),
{
}

/// Once set, the boot latch stays set through any write, and the low range
/// keeps showing the cartridge, which no write changes.
pub proof fn lemma_boot_latch_stays(v: MmuView, a: u16, value: u8, b: u16)
    requires
        v.wf(),
        v.is_booted,
        b < USER_PROGRAM_AREA_ADDRESS,
    ensures
        write_view(v, a, value).is_booted,
        write_view(v, a, value).cartridge == v.cartridge,
        read_view(write_view(v, a, value), b) == rom_byte(v.cartridge, b),
{
}

/// Triggering DMA from page 0x80 copies the first `DMA_LENGTH` bytes of video
/// memory into object-attribute memory, in order.
pub proof fn lemma_dma_from_vram(v: MmuView)
    requires
        v.wf(),
    ensures
        v.writable(DMA_ADDRESS, 0x80),
        write_view(v, DMA_ADDRESS, 0x80).gpu.oam.len() == DMA_LENGTH,
        forall|i: int|
            0 <= i < DMA_LENGTH ==> #[trigger] write_view(v, DMA_ADDRESS, 0x80).gpu.oam[i]
                == v.gpu.vram[i],
{
    assert forall|i: int| 0 <= i < DMA_LENGTH implies #[trigger] write_view(
        v,
        DMA_ADDRESS,
        0x80,
    ).gpu.oam[i] == v.gpu.vram[i] by {
        assert(read_view(v, (0x80u16 * 256 + i) as u16) == v.gpu.vram[i]);
    }
}

/// The unusable range reads as zero whatever was written to it: such a
/// write changes nothing.
pub proof fn lemma_unusable_reads_zero(v: MmuView, a: u16, value: u8)
    requires
        UNUSABLE_ADDRESS <= a <= UNUSABLE_END,
    ensures
        read_view(v, a) == 0,
        write_view(v, a, value) == v,
{
}

/// The latch after a write is set exactly when it was set before or the
/// write went to the boot-disable address; a write changes neither the
/// cartridge nor the BIOS.
pub proof fn lemma_boot_latch_after_write(v: MmuView, a: u16, value: u8)
    ensures
        write_view(v, a, value).is_booted == (v.is_booted || a == BOOT_DISABLE_ADDRESS),
        write_view(v, a, value).cartridge == v.cartridge,
        write_view(v, a, value).bios == v.bios,
{
}

/// The state after the byte writes `writes` (address, value), in order.
pub open spec fn write_all(v: MmuView, writes: Seq<(u16, u8)>) -> MmuView
    decreases writes.len(),
{
    if writes.len() == 0 {
        v
    } else {
        write_all(write_view(v, writes[0].0, writes[0].1), writes.drop_first())
    }
}

/// Whether one of `writes` goes to the boot-disable address.
pub open spec fn disables_boot(writes: Seq<(u16, u8)>) -> bool {
    exists|i: int| 0 <= i < writes.len() && (#[trigger] writes[i]).0 == BOOT_DISABLE_ADDRESS
}

/// Through any run of writes the latch ends set exactly when it was set
/// before or one of them went to the boot-disable address; the cartridge and
/// the BIOS stay as they were.
pub proof fn lemma_boot_latch_through_writes(v: MmuView, writes: Seq<(u16, u8)>)
    ensures
        write_all(v, writes).is_booted == (v.is_booted || disables_boot(writes)),
        write_all(v, writes).cartridge == v.cartridge,
        write_all(v, writes).bios == v.bios,
    decreases writes.len(),
{
    if writes.len() > 0 {
        let w = write_view(v, writes[0].0, writes[0].1);
        let rest = writes.drop_first();
        lemma_boot_latch_after_write(v, writes[0].0, writes[0].1);
        lemma_boot_latch_through_writes(w, rest);
        if disables_boot(writes) && writes[0].0 != BOOT_DISABLE_ADDRESS {
            let i = choose|i: int| 0 <= i < writes.len() && (#[trigger] writes[i]).0 == BOOT_DISABLE_ADDRESS;
            assert(rest[i - 1] == writes[i]);
        }
        if disables_boot(rest) {
            let i = choose|i: int| 0 <= i < rest.len() && (#[trigger] rest[i]).0 == BOOT_DISABLE_ADDRESS;
            assert(writes[i + 1] == rest[i]);
        }
    }
}

/// From a fresh bus with a BIOS, the low range shows the BIOS after any run
/// of writes none of which goes to the boot-disable address, and the
/// cartridge after any run of writes one of which does: the overlay, once
/// lifted, never comes back.
pub proof fn lemma_boot_overlay_through_writes(v: MmuView, writes: Seq<(u16, u8)>, a: u16)
    requires
        !v.is_booted,
        v.bios is Some,
        a < USER_PROGRAM_AREA_ADDRESS,
    ensures
        !disables_boot(writes) ==> read_view(write_all(v, writes), a) == rom_byte(v.bios.unwrap(), a),
        disables_boot(writes) ==> read_view(write_all(v, writes), a) == rom_byte(v.cartridge, a),
{
    lemma_boot_latch_through_writes(v, writes);
}

/// After the extension prefix the next byte, whatever it is, selects an
/// extended opcode; no decoding yields the prefix as a plain opcode.
pub proof fn lemma_decode_prefix(first: u8, next: u8)
    ensures
        first == EXTENSION_PREFIX ==> decode(first, next) == Opcode::CB(next),
        first != EXTENSION_PREFIX ==> decode(first, next) == Opcode::Regular(first),
        decode(first, next) != Opcode::Regular(EXTENSION_PREFIX),
{
}

/// The memory bus: routes every byte access to its backing store.
pub struct Mmu<'a> {
    cartridge: &'a Cartridge,
    pub gpu: &'a mut Gpu,
    bios: Option<&'a Cartridge>,
    ext_ram: Vec<u8>,
    w_ram: Vec<u8>,
    echo_ram: Vec<u8>,
    h_ram: Vec<u8>,
    io: Vec<u8>,
    interrupts_enabled: u8,
    interrupt_flags: u8,
    is_booted: bool,
    keypad: u8,
}

impl<'a> View for Mmu<'a> {
    type V = MmuView;

    closed spec fn view(&self) -> MmuView {
        MmuView {
            cartridge: self.cartridge@,
            bios: match self.bios {
                Some(b) => Some(b@),
                None => None,
            },
            gpu: self.gpu@,
            ext_ram: self.ext_ram@,
            w_ram: self.w_ram@,
            echo_ram: self.echo_ram@,
            h_ram: self.h_ram@,
            io: self.io@,
            interrupts_enabled: self.interrupts_enabled,
            interrupt_flags: self.interrupt_flags,
            is_booted: self.is_booted,
            keypad: self.keypad,
        }
    }
}

/// A sequence of `n` zero bytes.
pub open spec fn zeros(n: usize) -> Seq<u8> {
    Seq::new(n as nat, |i: int| 0u8)
}

fn zeroed(n: usize) -> (r: Vec<u8>)
    ensures
        r@ == zeros(n),
{
    let r = vec![0u8; n];
    assert(r@ =~= zeros(n));
    r
}

impl<'a> Mmu<'a> {
    pub open spec fn wf(&self) -> bool {
        self@.wf()
    }

    /// A bus over `cartridge` and `gpu`, with `bios` shown in the low range
    /// until the boot latch is set; every RAM is zeroed.
    pub fn new(cartridge: &'a Cartridge, gpu: &'a mut Gpu, bios: Option<&'a Cartridge>) -> (r: Mmu<'a>)
        requires
            old(gpu)@.wf(),
        ensures
            r.wf(),
            r@ == (MmuView {
                cartridge: cartridge@,
                bios: match bios {
                    Some(b) => Some(b@),
                    None => None,
                },
                gpu: old(gpu)@,
                ext_ram: zeros(EXT_RAM_SIZE),
                w_ram: zeros(W_RAM_SIZE),
                echo_ram: zeros(ECHO_RAM_SIZE),
                h_ram: zeros(H_RAM_SIZE),
                io: zeros(IO_SIZE),
                interrupts_enabled: 0,
                interrupt_flags: 0,
                is_booted: false,
                keypad: KEYPAD_IDLE,
            }),
    {
        Mmu {
            cartridge,
            gpu,
            bios,
            ext_ram: zeroed(EXT_RAM_SIZE),
            w_ram: zeroed(W_RAM_SIZE),
            echo_ram: zeroed(ECHO_RAM_SIZE),
            h_ram: zeroed(H_RAM_SIZE),
            io: zeroed(IO_SIZE),
            interrupts_enabled: 0,
            interrupt_flags: 0,
            is_booted: false,
            keypad: KEYPAD_IDLE,
        }
    }

    /// Whether the boot latch is set.
    pub fn is_booted(&self) -> (r: bool)
        ensures
            r == self@.is_booted,
    {
        self.is_booted
    }

    /// Reads one byte; aborts the session (excluded here) on a boot-overlaid
    /// address while the latch is clear and no BIOS is present.
    pub fn read(&self, address: u16) -> (r: u8)
        requires
            self.wf(),
            self@.readable(address),
        ensures
            r == read_view(self@, address),
    {
        if address == INTERRUPT_FLAGS_ADDRESS {
            self.interrupt_flags
        } else if address < USER_PROGRAM_AREA_ADDRESS {
            if !self.is_booted {
                match self.bios {
                    Some(bios_cartridge) => bios_cartridge.read(address),
                    // excluded by `readable`: the session cannot go on
                    None => 0,
                }
            } else {
                self.cartridge.read(address)
            }
        } else if address < VRAM_ADDRESS {
            self.cartridge.read(address)
        } else if address <= VRAM_END {
            self.gpu.read_vram(address)
        } else if address <= EXT_RAM_END {
            self.ext_ram[(address - EXT_RAM_ADDRESS) as usize]
        } else if address <= W_RAM_END {
            self.w_ram[(address - W_RAM_ADDRESS) as usize]
        } else if address <= ECHO_RAM_END {
            self.echo_ram[(address - ECHO_RAM_ADDRESS) as usize]
        } else if OAM_ADDRESS <= address && address <= OAM_END {
            self.gpu.read_oam(address)
        } else if IO_ADDRESS <= address && address <= IO_END {
            if address == KEYPAD_ADDRESS {
                KEYPAD_IDLE
            } else if address == LCDC_ADDRESS {
                self.gpu.lcdc()
            } else if address == SCROLL_Y_ADDRESS {
                self.gpu.scroll_y()
            } else if address == SCROLL_X_ADDRESS {
                self.gpu.scroll_x()
            } else if address == SCANLINE_ADDRESS {
                self.gpu.current_scanline()
            } else {
                self.io[(address - IO_ADDRESS) as usize]
            }
        } else if H_RAM_ADDR <= address && address <= H_RAM_END {
            self.h_ram[(address - H_RAM_ADDR) as usize]
        } else if address == INTERRUPT_ENABLE_ADDRESS {
            self.interrupts_enabled
        } else {
            0
        }
    }

    /// Copies `DMA_LENGTH` bytes, read through the bus from page
    /// `source_address`, into object-attribute memory through the GPU.
    fn dma_transfer(&mut self, source_address: u8)
        requires
            old(self).wf(),
            old(self)@.writable(DMA_ADDRESS, source_address),
        ensures
            final(self).wf(),
            final(self)@ == dma_view(old(self)@, source_address),
    {
        let start_address: u16 = source_address as u16 * 256;
        let mut offset: u16 = 0;
        while offset < DMA_LENGTH
            invariant
                self.wf(),
                0 <= offset <= DMA_LENGTH,
                start_address == source_address as u16 * 256,
                old(self)@.wf(),
                old(self)@.readable(start_address),
                self@ == old(self)@.with_oam(self@.gpu.oam),
                forall|j: int| 0 <= j < offset ==> self@.gpu.oam[j]
                    == read_view(old(self)@, (start_address + j) as u16),
                forall|j: int| offset <= j < OAM_SIZE ==> self@.gpu.oam[j] == old(self)@.gpu.oam[j],
            decreases DMA_LENGTH - offset,
        {
            let address = start_address + offset;
            assert(self@.readable(address));
            let value = self.read(address);
            assert(value == read_view(old(self)@, address));
            self.gpu.write_oam(OAM_ADDRESS + offset, value);
            offset = offset + 1;
        }
        assert(self@.gpu.oam =~= dma_view(old(self)@, source_address).gpu.oam);
    }

    /// Writes one byte, with the side effects that its address taps.
    pub fn write(&mut self, address: u16, value: u8)
        requires
            old(self).wf(),
            old(self)@.writable(address, value),
        ensures
            final(self).wf(),
            final(self)@ == write_view(old(self)@, address, value),
    {
        if address == BOOT_DISABLE_ADDRESS {
            self.is_booted = true;
            self.io.set((address - IO_ADDRESS) as usize, value);
        } else if address == INTERRUPT_FLAGS_ADDRESS {
            self.interrupt_flags = value;
        } else if VRAM_ADDRESS <= address && address <= VRAM_END {
            self.gpu.write_vram(address, value);
        } else if EXT_RAM_ADDRESS <= address && address <= EXT_RAM_END {
            self.ext_ram.set((address - EXT_RAM_ADDRESS) as usize, value);
        } else if W_RAM_ADDRESS <= address && address <= W_RAM_END {
            self.w_ram.set((address - W_RAM_ADDRESS) as usize, value);
        } else if ECHO_RAM_ADDRESS <= address && address <= ECHO_RAM_END {
            self.echo_ram.set((address - ECHO_RAM_ADDRESS) as usize, value);
        } else if OAM_ADDRESS <= address && address <= OAM_END {
            self.gpu.write_oam(address, value);
        } else if IO_ADDRESS <= address && address <= IO_END {
            if address == KEYPAD_ADDRESS {
                self.keypad = value;
            } else if address == LCDC_ADDRESS {
                self.gpu.write_lcdc(value);
            } else if address == SCROLL_Y_ADDRESS {
                self.gpu.set_scroll_y(value);
            } else if address == SCROLL_X_ADDRESS {
                self.gpu.set_scroll_x(value);
            } else if address == BG_PAL_ADDR {
                self.gpu.set_bgpal(value);
            } else if address == DMA_ADDRESS {
                self.dma_transfer(value);
            }
            self.io.set((address - IO_ADDRESS) as usize, value);
        } else if H_RAM_ADDR <= address && address <= H_RAM_END {
            self.h_ram.set((address - H_RAM_ADDR) as usize, value);
        } else if address == INTERRUPT_ENABLE_ADDRESS {
            self.interrupts_enabled = value;
        }
    }

    /// Writes a 16-bit value: the high byte at `address` first, then the low
    /// byte at the address after it, each through its taps.
    pub fn write_word(&mut self, address: u16, value: u16)
        requires
            old(self).wf(),
            old(self)@.writable(address, (value / 256) as u8),
            old(self)@.writable(address.wrapping_add(1), (value % 256) as u8),
        ensures
            final(self).wf(),
            final(self)@ == write_word_view(old(self)@, address, value),
    {
        let high = (value / 256) as u8;
        let low = (value % 256) as u8;
        self.write(address, high);
        proof {
            lemma_write_keeps_writable(old(self)@, address, high, address.wrapping_add(1), low);
        }
        self.write(address.wrapping_add(1), low);
    }

    /// Reads a 16-bit value: the byte at `address` is the high half.
    pub fn read_word(&self, address: u16) -> (r: u16)
        requires
            self.wf(),
            self@.readable(address),
            self@.readable(address.wrapping_add(1)),
        ensures
            r == read_word_view(self@, address),
    {
        let high = self.read(address);
        let low = self.read(address.wrapping_add(1));
        high as u16 * 256 + low as u16
    }

    /// Fetches the opcode at `pc`: the byte there, or, after the extension
    /// prefix, the byte that follows it.
    pub fn read_opcode(&self, pc: u16) -> (r: Opcode)
        requires
            self.wf(),
            self@.readable(pc),
            read_view(self@, pc) == EXTENSION_PREFIX ==> self@.readable(pc.wrapping_add(1)),
        ensures
            r == decode(read_view(self@, pc), read_view(self@, pc.wrapping_add(1))),
    {
        let op_code = self.read(pc);
        if op_code == EXTENSION_PREFIX {
            Opcode::CB(self.read(pc.wrapping_add(1)))
        } else {
            Opcode::Regular(op_code)
        }
    }
}

} // verus!
