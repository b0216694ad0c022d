//! Bank switching, mirroring, the divider quirk and the DMA block copy.

use rust_boy::dma::update_dma;
use rust_boy::memory::{init_ram, Cartridge, Memory};

fn make_mem(kind_code: u8, n_banks: usize) -> Memory {
    let mut banks: Vec<Vec<u8>> = Vec::new();
    for i in 0..n_banks {
        let mut bank = vec![0u8; 0x4000];
        if i == 0 {
            bank[0x147] = kind_code;
        } else {
            // make each bank recognizable through the switchable window
            bank[0] = i as u8;
        }
        banks.push(bank);
    }
    Memory::new(Cartridge::new(banks))
}

#[test]
fn mbc1_bank_select_masks_low_five_bits() {
    // writing 0xC1 selects bank 0xC1 & 0x1F == 0x01 on a 4-bank image
    let mut mem = make_mem(0x01, 4);
    mem.write(0x2000, 0xC1);
    assert_eq!(mem.cartridge.active_bank, 0x01);
    assert_eq!(mem.read(0x4000), 1);

    mem.write(0x2000, 0x03);
    assert_eq!(mem.cartridge.active_bank, 0x03);
    assert_eq!(mem.read(0x4000), 3);
}

#[test]
fn mbc1_never_selects_bank_zero() {
    // the hardware quirk: selecting bank 0 selects bank 1 instead
    let mut mem = make_mem(0x01, 4);
    mem.write(0x2000, 0x00);
    assert_eq!(mem.cartridge.active_bank, 0x01);
    assert_eq!(mem.read(0x4000), 1);
}

#[test]
fn plain_rom_ignores_bank_select_writes() {
    let mut mem = make_mem(0x00, 2);
    mem.write(0x2000, 0x05);
    assert_eq!(mem.cartridge.active_bank, 1);
}

#[test]
fn high_selector_sets_bits_five_and_six() {
    let mut mem = make_mem(0x01, 4);
    mem.write(0x4000, 0x03);
    assert_eq!(mem.cartridge.active_bank, 0b0110_0001);
}

#[test]
fn low_region_reads_bank_zero() {
    let mut mem = make_mem(0x01, 4);
    mem.write(0x2000, 0x02);
    // the fixed window still shows bank 0
    assert_eq!(mem.read(0x0147), 0x01);
    assert_eq!(mem.read(0x0000), 0x00);
}

#[test]
fn mirror_range_aliases_work_ram() {
    let mut mem = make_mem(0x00, 2);
    mem.write(0xC123, 0x5A);
    assert_eq!(mem.read(0xE123), 0x5A);
    mem.write(0xE456, 0xA5);
    assert_eq!(mem.read(0xC456), 0xA5);
}

#[test]
fn divider_write_forces_zero() {
    let mut mem = make_mem(0x00, 2);
    mem.write(0xFF04, 0xAB);
    assert_eq!(mem.read(0xFF04), 0x00);
}

#[test]
fn plain_ram_round_trips() {
    let mut mem = make_mem(0x00, 2);
    mem.write(0x8000, 0x11);
    mem.write(0xFFFF, 0x22);
    assert_eq!(mem.read(0x8000), 0x11);
    assert_eq!(mem.read(0xFFFF), 0x22);
}

#[test]
fn unimplemented_cartridge_features_latch_a_fault() {
    // mode-select writes are ignored but recorded, so the host can fail fast
    let mut mem = make_mem(0x01, 4);
    assert!(!mem.cartridge.unsupported_write);
    mem.write(0x6000, 0x01);
    assert!(mem.cartridge.unsupported_write);

    // enabling external RAM on a cartridge that has some is recorded too
    let mut mem = make_mem(0x02, 4);
    mem.write(0x0000, 0x0A);
    assert!(mem.cartridge.unsupported_write);

    // on a RAM-less cartridge the same write is a plain ignored no-op
    let mut mem = make_mem(0x01, 4);
    mem.write(0x0000, 0x0A);
    assert!(!mem.cartridge.unsupported_write);

    // ordinary traffic never trips the latch
    let mut mem = make_mem(0x01, 4);
    mem.write(0x2000, 0x02);
    mem.write(0xC000, 0x55);
    mem.write(0xFF46, 0x00);
    assert!(!mem.cartridge.unsupported_write);
}

#[test]
fn dma_copies_one_block_and_clears_the_trigger() {
    // a trigger write of 0x80 copies [0x8000, 0x80A0) into [0xFE00, 0xFEA0)
    let mut mem = make_mem(0x00, 2);
    for i in 0..0xA0u16 {
        mem.write(0x8000 + i, (i as u8).wrapping_add(3));
    }
    mem.write(0xFF46, 0x80);
    update_dma(&mut mem);
    for i in 0..0xA0u16 {
        assert_eq!(mem.read(0xFE00 + i), (i as u8).wrapping_add(3));
    }
    assert_eq!(mem.read(0xFF46), 0);
}

#[test]
fn dma_with_zero_trigger_does_nothing() {
    let mut mem = make_mem(0x00, 2);
    mem.write(0xFE00, 0x77);
    update_dma(&mut mem);
    assert_eq!(mem.read(0xFE00), 0x77);
}

#[test]
fn init_ram_lays_out_the_first_two_banks() {
    let mut rom = vec![vec![0u8; 0x4000], vec![0u8; 0x4000]];
    rom[0][0] = 0xAA;
    rom[0][0x3FFF] = 0xBB;
    rom[1][0] = 0xCC;
    rom[1][0x3FFF] = 0xDD;
    let ram = init_ram(&rom);
    assert_eq!(ram.len(), 0x10000);
    assert_eq!(ram[0], 0xAA);
    assert_eq!(ram[0x3FFF], 0xBB);
    assert_eq!(ram[0x4000], 0xCC);
    assert_eq!(ram[0x7FFF], 0xDD);
    assert_eq!(ram[0x8000], 0x00);
    assert_eq!(ram[0xFFFF], 0x00);
}
