use gb_emu::cartridge::Cartridge;
use gb_emu::cpu::{bytes_to_word, read_hl_addr, write_hl_addr, Cpu, Registers};
use gb_emu::gpu::Gpu;
use gb_emu::mmu::{Mmu, Opcode};

fn rom_with(len: usize, at: usize, value: u8) -> Cartridge {
    let mut rom = vec![0u8; len];
    rom[at] = value;
    Cartridge::new(rom)
}

fn zero_registers() -> Registers {
    Registers { a: 0, f: 0, b: 0, c: 0, d: 0, e: 0, h: 0, l: 0, sp: 0, pc: 0 }
}

#[test]
fn vram_write_then_read_returns_byte() {
    let cart = rom_with(0x8000, 0, 0);
    let mut gpu = Gpu::new();
    let mut mmu = Mmu::new(&cart, &mut gpu, None);
    for (address, value) in [(0x8000u16, 0x11u8), (0x8ABC, 0x22), (0x9FFF, 0x33)] {
        mmu.write(address, value);
        assert_eq!(mmu.read(address), value);
    }
    assert_eq!(mmu.gpu.read_vram(0x8ABC), 0x22);
}

#[test]
fn w_ram_write_then_read_returns_byte() {
    let cart = rom_with(0x8000, 0, 0);
    let mut gpu = Gpu::new();
    let mut mmu = Mmu::new(&cart, &mut gpu, None);
    for (address, value) in [(0xC000u16, 0x01u8), (0xD123, 0xFE), (0xDFFF, 0x7F)] {
        mmu.write(address, value);
        assert_eq!(mmu.read(address), value);
    }
}

#[test]
fn other_ram_regions_round_trip() {
    let cart = rom_with(0x8000, 0, 0);
    let mut gpu = Gpu::new();
    let mut mmu = Mmu::new(&cart, &mut gpu, None);
    for (address, value) in [
        (0xA000u16, 0x10u8),
        (0xBFFF, 0x20),
        (0xE000, 0x30),
        (0xFDFE, 0x40),
        (0xFE00, 0x50),
        (0xFE9E, 0x60),
        (0xFF01, 0x70),
        (0xFF7E, 0x80),
        (0xFF80, 0x90),
        (0xFFFD, 0xA0),
        (0xFFFF, 0xB0),
        (0xFF0F, 0xC0),
    ] {
        mmu.write(address, value);
        assert_eq!(mmu.read(address), value);
    }
}

#[test]
fn echo_ram_is_separate_from_working_ram() {
    let cart = rom_with(0x8000, 0, 0);
    let mut gpu = Gpu::new();
    let mut mmu = Mmu::new(&cart, &mut gpu, None);
    mmu.write(0xC010, 0x42);
    assert_eq!(mmu.read(0xE010), 0);
}

#[test]
fn ram_starts_zeroed() {
    let cart = rom_with(0x8000, 0, 0);
    let mut gpu = Gpu::new();
    let mmu = Mmu::new(&cart, &mut gpu, None);
    for address in [0xA000u16, 0xC000, 0xDFFF, 0xE000, 0xFF80, 0xFFFF, 0xFF0F, 0xFF01] {
        assert_eq!(mmu.read(address), 0);
    }
    assert!(!mmu.is_booted());
}

#[test]
fn word_with_equal_bytes_round_trips() {
    let cart = rom_with(0x8000, 0, 0);
    let mut gpu = Gpu::new();
    let mut mmu = Mmu::new(&cart, &mut gpu, None);
    mmu.write_word(0xC100, 0x5A5A);
    assert_eq!(mmu.read_word(0xC100), 0x5A5A);
}

#[test]
fn word_write_then_read_round_trips() {
    let cart = rom_with(0x8000, 0, 0);
    let bios = rom_with(0x100, 0, 0);
    let mut gpu = Gpu::new();
    let mut mmu = Mmu::new(&cart, &mut gpu, Some(&bios));
    mmu.write_word(0xC000, 0x1234);
    mmu.write_word(0xFF80, 0xBEEF);
    mmu.write_word(0xDFFF, 0xA55A);
    assert_eq!(mmu.read_word(0xC000), 0x1234);
    assert_eq!(mmu.read_word(0xFF80), 0xBEEF);
    assert_eq!(mmu.read_word(0xDFFF), 0xA55A);
}

#[test]
fn word_write_puts_high_byte_first() {
    let cart = rom_with(0x8000, 0, 0);
    let mut gpu = Gpu::new();
    let mut mmu = Mmu::new(&cart, &mut gpu, None);
    mmu.write_word(0xC100, 0x1234);
    assert_eq!(mmu.read(0xC100), 0x12);
    assert_eq!(mmu.read(0xC101), 0x34);
}

#[test]
fn read_word_takes_first_byte_as_high_half() {
    let cart = rom_with(0x8000, 0, 0);
    let mut gpu = Gpu::new();
    let mut mmu = Mmu::new(&cart, &mut gpu, None);
    mmu.write(0xC200, 0xAB);
    mmu.write(0xC201, 0xCD);
    assert_eq!(mmu.read_word(0xC200), 0xABCD);
}

#[test]
fn boot_disable_write_stores_raw_byte() {
    let cart = rom_with(0x8000, 0x50, 0xBB);
    let bios = rom_with(0x100, 0x50, 0xAA);
    let mut gpu = Gpu::new();
    let mut mmu = Mmu::new(&cart, &mut gpu, Some(&bios));
    mmu.write(0xFF50, 0x01);
    assert_eq!(mmu.read(0xFF50), 0x01);
    assert!(mmu.is_booted());
}

#[test]
fn word_write_at_end_of_space_wraps() {
    let cart = rom_with(0x8000, 0, 0);
    let mut gpu = Gpu::new();
    let mut mmu = Mmu::new(&cart, &mut gpu, Some(&cart));
    mmu.write(0xFF50, 1);
    mmu.write_word(0xFFFF, 0xABCD);
    assert_eq!(mmu.read(0xFFFF), 0xAB);
}

#[test]
fn boot_overlay_shows_bios_until_latch_is_set() {
    let cart = rom_with(0x8000, 0x50, 0xBB);
    let bios = rom_with(0x100, 0x50, 0xAA);
    let mut gpu = Gpu::new();
    let mut mmu = Mmu::new(&cart, &mut gpu, Some(&bios));
    assert_eq!(mmu.read(0x0050), 0xAA);
    mmu.write(0xFF50, 0x00);
    assert!(mmu.is_booted());
    assert_eq!(mmu.read(0x0050), 0xBB);
    mmu.write(0xFF50, 0x01);
    mmu.write(0xC000, 0x99);
    mmu.write(0x0050, 0x77);
    assert_eq!(mmu.read(0x0050), 0xBB);
    assert!(mmu.is_booted());
}

#[test]
fn cartridge_area_reads_cartridge_and_ignores_writes() {
    let cart = rom_with(0x8000, 0x1234, 0x5C);
    let mut gpu = Gpu::new();
    let mut mmu = Mmu::new(&cart, &mut gpu, None);
    assert_eq!(mmu.read(0x1234), 0x5C);
    mmu.write(0x1234, 0x00);
    assert_eq!(mmu.read(0x1234), 0x5C);
}

#[test]
fn cartridge_reads_open_bus_beyond_image() {
    let cart = rom_with(0x10, 0, 0x01);
    assert_eq!(cart.read(0x0000), 0x01);
    assert_eq!(cart.read(0x0010), 0xFF);
}

#[test]
fn dma_copies_vram_page_into_oam() {
    let cart = rom_with(0x8000, 0, 0);
    let mut gpu = Gpu::new();
    let mut mmu = Mmu::new(&cart, &mut gpu, None);
    for i in 0..160u16 {
        mmu.write(0x8000 + i, (i as u8) ^ 0x5A);
    }
    mmu.write(0xFF46, 0x80);
    for i in 0..160u16 {
        assert_eq!(mmu.gpu.read_oam(0xFE00 + i), (i as u8) ^ 0x5A);
    }
    assert_eq!(mmu.read(0xFE00), 0x5A);
    assert_eq!(mmu.read(0xFF46), 0x80);
}

#[test]
fn dma_copies_from_working_ram() {
    let cart = rom_with(0x8000, 0, 0);
    let mut gpu = Gpu::new();
    let mut mmu = Mmu::new(&cart, &mut gpu, None);
    for i in 0..160u16 {
        mmu.write(0xC000 + i, 255 - i as u8);
    }
    mmu.write(0xFF46, 0xC0);
    for i in 0..160u16 {
        assert_eq!(mmu.gpu.read_oam(0xFE00 + i), 255 - i as u8);
    }
}

#[test]
fn unusable_range_reads_zero_after_write() {
    let cart = rom_with(0x8000, 0, 0);
    let mut gpu = Gpu::new();
    let mut mmu = Mmu::new(&cart, &mut gpu, None);
    mmu.write(0xFEB0, 0x42);
    assert_eq!(mmu.read(0xFEB0), 0);
    assert_eq!(mmu.read(0xFEA0), 0);
    assert_eq!(mmu.read(0xFEFE), 0);
}

#[test]
fn unmapped_addresses_read_zero_and_drop_writes() {
    let cart = rom_with(0x8000, 0, 0);
    let mut gpu = Gpu::new();
    let mut mmu = Mmu::new(&cart, &mut gpu, None);
    for address in [0xFDFFu16, 0xFE9F, 0xFF7F, 0xFFFE] {
        mmu.write(address, 0x42);
        assert_eq!(mmu.read(address), 0);
    }
}

#[test]
fn keypad_reads_idle_pattern() {
    let cart = rom_with(0x8000, 0, 0);
    let mut gpu = Gpu::new();
    let mut mmu = Mmu::new(&cart, &mut gpu, None);
    assert_eq!(mmu.read(0xFF00), 0xFF);
    mmu.write(0xFF00, 0x00);
    assert_eq!(mmu.read(0xFF00), 0xFF);
}

#[test]
fn gpu_register_taps() {
    let cart = rom_with(0x8000, 0, 0);
    let mut gpu = Gpu::new();
    let mut mmu = Mmu::new(&cart, &mut gpu, None);
    mmu.write(0xFF40, 0x91);
    mmu.write(0xFF42, 0x12);
    mmu.write(0xFF43, 0x34);
    mmu.write(0xFF47, 0xE4);
    assert_eq!(mmu.gpu.lcdc(), 0x91);
    assert_eq!(mmu.gpu.scroll_y(), 0x12);
    assert_eq!(mmu.gpu.scroll_x(), 0x34);
    assert_eq!(mmu.gpu.bgpal(), 0xE4);
    assert_eq!(mmu.read(0xFF40), 0x91);
    assert_eq!(mmu.read(0xFF42), 0x12);
    assert_eq!(mmu.read(0xFF43), 0x34);
    assert_eq!(mmu.read(0xFF47), 0xE4);
}

#[test]
fn scanline_reads_live_gpu_state() {
    let cart = rom_with(0x8000, 0, 0);
    let mut gpu = Gpu::new();
    let mut mmu = Mmu::new(&cart, &mut gpu, None);
    mmu.write(0xFF44, 0x10);
    assert_eq!(mmu.read(0xFF44), 0);
    mmu.gpu.set_current_scanline(0x90);
    assert_eq!(mmu.read(0xFF44), 0x90);
}

#[test]
fn prefix_byte_decodes_extended_opcode() {
    let cart = rom_with(0x8000, 0, 0);
    let mut gpu = Gpu::new();
    let mut mmu = Mmu::new(&cart, &mut gpu, None);
    mmu.write(0xC000, 0xCB);
    mmu.write(0xC001, 0x7C);
    mmu.write(0xC002, 0x3E);
    assert_eq!(mmu.read_opcode(0xC000), Opcode::CB(0x7C));
    assert_ne!(mmu.read_opcode(0xC000), Opcode::Regular(0xCB));
    assert_eq!(mmu.read_opcode(0xC001), Opcode::Regular(0x7C));
    assert_eq!(mmu.read_opcode(0xC002), Opcode::Regular(0x3E));
}

#[test]
fn hl_addressed_access() {
    let cart = rom_with(0x8000, 0, 0);
    let mut gpu = Gpu::new();
    let mmu = Mmu::new(&cart, &mut gpu, None);
    let mut cpu = Cpu { registers: zero_registers(), mmu };
    cpu.registers.h = 0xC1;
    cpu.registers.l = 0x23;
    write_hl_addr(0x77, &mut cpu);
    assert_eq!(cpu.mmu.read(0xC123), 0x77);
    assert_eq!(read_hl_addr(&cpu), 0x77);
    assert_eq!(bytes_to_word(0xC1, 0x23), 0xC123);
}

#[test]
fn gpu_keeps_bus_writes_after_bus_is_dropped() {
    let cart = rom_with(0x8000, 0, 0);
    let mut gpu = Gpu::new();
    {
        let mut mmu = Mmu::new(&cart, &mut gpu, None);
        mmu.write(0x8001, 0x66);
        mmu.write(0xFE01, 0x77);
    }
    assert_eq!(gpu.read_vram(0x8001), 0x66);
    assert_eq!(gpu.read_oam(0xFE01), 0x77);
}
