//! Arithmetic, logic and flag behaviour of the semantic functions, driven
//! through the tagged instruction engine.

use rust_boy::hardware::{Cpu, Flag, RegU8};
use rust_boy::instructions::instruct_fn;
use rust_boy::memory::{Cartridge, Memory};
use rust_boy::opcodes;

fn fresh_cpu() -> Cpu {
    Cpu {
        a: 0,
        f: 0,
        b: 0,
        c: 0,
        d: 0,
        e: 0,
        h: 0,
        l: 0,
        sp: 0xFFFE,
        pc: 0xC000,
        mie: false,
        pending_mie: None,
        pending_ticks: 0,
        is_halted: false,
    }
}

fn make_mem() -> Memory {
    Memory::new(Cartridge::new(vec![vec![0u8; 0x4000], vec![0u8; 0x4000]]))
}

#[test]
fn add_computes_sum_carry_and_half_carry() {
    // every combination of 8-bit values obeys the add law
    for a in 0..=255u16 {
        for b in 0..=255u16 {
            let mut cpu = fresh_cpu();
            let mut mem = make_mem();
            cpu.a = a as u8;
            cpu.b = b as u8;
            instruct_fn::add(&mut cpu, &mut mem, &RegU8::B, false);
            assert_eq!(cpu.a as u16, (a + b) % 256);
            assert_eq!(cpu.get_flag(Flag::C), a + b > 255);
            assert_eq!(cpu.get_flag(Flag::H), (a & 0xF) + (b & 0xF) > 0xF);
            assert_eq!(cpu.get_flag(Flag::Z), (a + b) % 256 == 0);
            assert!(!cpu.get_flag(Flag::N));
        }
    }
}

#[test]
fn sub_computes_difference_borrow_and_half_borrow() {
    for a in 0..=255i32 {
        for b in 0..=255i32 {
            let mut cpu = fresh_cpu();
            let mut mem = make_mem();
            cpu.a = a as u8;
            cpu.c = b as u8;
            instruct_fn::sub(&mut cpu, &mut mem, &RegU8::C, false);
            assert_eq!(cpu.a as i32, (a - b).rem_euclid(256));
            assert_eq!(cpu.get_flag(Flag::C), a < b);
            assert_eq!(cpu.get_flag(Flag::H), (a & 0xF) < (b & 0xF));
            assert_eq!(cpu.get_flag(Flag::Z), a == b);
            assert!(cpu.get_flag(Flag::N));
        }
    }
}

#[test]
fn adc_includes_carry_in_everywhere() {
    // 0xFF + 0x00 + carry-in overflows: both carry and half-carry fire
    let mut cpu = fresh_cpu();
    let mut mem = make_mem();
    cpu.a = 0xFF;
    cpu.e = 0x00;
    cpu.flag(Flag::C, true);
    instruct_fn::add(&mut cpu, &mut mem, &RegU8::E, true);
    assert_eq!(cpu.a, 0x00);
    assert!(cpu.get_flag(Flag::C));
    assert!(cpu.get_flag(Flag::H));
    assert!(cpu.get_flag(Flag::Z));
}

#[test]
fn sbc_includes_borrow_in_everywhere() {
    // 0x05 - 0xFF - 1 borrows even though 0x05 - 0x00 would not
    let mut cpu = fresh_cpu();
    let mut mem = make_mem();
    cpu.a = 0x05;
    cpu.d = 0xFF;
    cpu.flag(Flag::C, true);
    instruct_fn::sub(&mut cpu, &mut mem, &RegU8::D, true);
    assert_eq!(cpu.a, 0x05);
    assert!(cpu.get_flag(Flag::C));
}

#[test]
fn cmp_discards_the_result() {
    let mut cpu = fresh_cpu();
    let mut mem = make_mem();
    cpu.a = 0x42;
    cpu.b = 0x42;
    let r = instruct_fn::cmp(&mut cpu, &mut mem, &RegU8::B, false);
    assert_eq!(r, 0);
    assert_eq!(cpu.a, 0x42);
    assert!(cpu.get_flag(Flag::Z));
    assert!(cpu.get_flag(Flag::N));
}

#[test]
fn inc_then_dec_restores_value_and_keeps_carry() {
    for v in 0..=255u8 {
        for carry in [false, true] {
            let mut cpu = fresh_cpu();
            let mut mem = make_mem();
            cpu.h = v;
            cpu.flag(Flag::C, carry);
            instruct_fn::inc(&mut cpu, &mut mem, &RegU8::H);
            assert_eq!(cpu.get_flag(Flag::C), carry);
            instruct_fn::dec(&mut cpu, &mut mem, &RegU8::H);
            assert_eq!(cpu.h, v);
            assert_eq!(cpu.get_flag(Flag::C), carry);
        }
    }
}

#[test]
fn inc_touches_only_zero_half_carry_subtract() {
    // incrementing 0xFF wraps to zero with half-carry from the low nibble
    let mut cpu = fresh_cpu();
    let mut mem = make_mem();
    cpu.a = 0xFF;
    instruct_fn::inc(&mut cpu, &mut mem, &RegU8::A);
    assert_eq!(cpu.a, 0x00);
    assert!(cpu.get_flag(Flag::Z));
    assert!(cpu.get_flag(Flag::H));
    assert!(!cpu.get_flag(Flag::N));
    assert!(!cpu.get_flag(Flag::C));
}

#[test]
fn dec_sets_half_carry_on_nibble_borrow() {
    let mut cpu = fresh_cpu();
    let mut mem = make_mem();
    cpu.b = 0xF0;
    instruct_fn::dec(&mut cpu, &mut mem, &RegU8::B);
    assert_eq!(cpu.b, 0xEF);
    assert!(cpu.get_flag(Flag::H));
    assert!(cpu.get_flag(Flag::N));
}

#[test]
fn and_or_xor_flag_patterns() {
    let mut cpu = fresh_cpu();
    let mut mem = make_mem();
    cpu.a = 0b1010_1010;
    cpu.b = 0b0101_0101;
    instruct_fn::and(&mut cpu, &mut mem, &RegU8::B);
    assert_eq!(cpu.a, 0);
    assert!(cpu.get_flag(Flag::Z));
    assert!(cpu.get_flag(Flag::H));
    assert!(!cpu.get_flag(Flag::C));

    cpu.a = 0b1010_0000;
    cpu.c = 0b0000_0101;
    instruct_fn::or(&mut cpu, &mut mem, &RegU8::C);
    assert_eq!(cpu.a, 0b1010_0101);
    assert!(!cpu.get_flag(Flag::Z));
    assert!(!cpu.get_flag(Flag::H));

    instruct_fn::xor(&mut cpu, &mut mem, &RegU8::A);
    assert_eq!(cpu.a, 0);
    assert!(cpu.get_flag(Flag::Z));
}

#[test]
fn daa_corrects_bcd_addition() {
    // 0x15 + 0x27 = 0x3C, adjusted to 0x42 decimal
    let mut cpu = fresh_cpu();
    let mut mem = make_mem();
    cpu.a = 0x15;
    cpu.b = 0x27;
    instruct_fn::add(&mut cpu, &mut mem, &RegU8::B, false);
    assert_eq!(cpu.a, 0x3C);
    instruct_fn::daa(&mut cpu, &mut mem);
    assert_eq!(cpu.a, 0x42);
    assert!(!cpu.get_flag(Flag::H));
}

#[test]
fn rotate_left_accumulator_moves_top_bit_to_carry() {
    let mut cpu = fresh_cpu();
    let mut mem = make_mem();
    cpu.a = 0b1000_0001;
    // the unprefixed accumulator rotate: left, not through carry, no zero
    instruct_fn::rotate(&mut cpu, &mut mem, &RegU8::A, true, false, false, false, false);
    assert_eq!(cpu.a, 0b0000_0011);
    assert!(cpu.get_flag(Flag::C));
    assert!(!cpu.get_flag(Flag::Z));
}

#[test]
fn unprefixed_rotates_leave_zero_untouched() {
    // the accumulator-only rotates never touch the zero flag, whatever it was
    let mut cpu = fresh_cpu();
    let mut mem = make_mem();
    cpu.a = 0b0100_0000;
    cpu.flag(Flag::Z, true);
    instruct_fn::rotate(&mut cpu, &mut mem, &RegU8::A, true, false, false, false, false);
    assert_eq!(cpu.a, 0b1000_0000);
    assert!(cpu.get_flag(Flag::Z));

    cpu.flag(Flag::Z, false);
    instruct_fn::rotate(&mut cpu, &mut mem, &RegU8::A, false, true, false, false, false);
    assert!(!cpu.get_flag(Flag::Z));

    // the prefixed forms do track the result
    cpu.a = 0;
    instruct_fn::rotate(&mut cpu, &mut mem, &RegU8::A, true, false, true, false, false);
    assert!(cpu.get_flag(Flag::Z));
}

#[test]
fn rotate_right_through_carry_inserts_old_carry() {
    let mut cpu = fresh_cpu();
    let mut mem = make_mem();
    cpu.a = 0b0000_0010;
    cpu.flag(Flag::C, true);
    instruct_fn::rotate(&mut cpu, &mut mem, &RegU8::A, false, true, false, false, false);
    assert_eq!(cpu.a, 0b1000_0001);
    assert!(!cpu.get_flag(Flag::C));
}

#[test]
fn shift_right_keeping_msb() {
    let mut cpu = fresh_cpu();
    let mut mem = make_mem();
    cpu.d = 0b1001_0010;
    // prefixed arithmetic shift right: keeps the most-significant bit
    instruct_fn::rotate(&mut cpu, &mut mem, &RegU8::D, false, false, true, true, true);
    assert_eq!(cpu.d, 0b1100_1001);
    assert!(!cpu.get_flag(Flag::C));
}

#[test]
fn swap_exchanges_nibbles() {
    let mut cpu = fresh_cpu();
    let mut mem = make_mem();
    cpu.l = 0xAB;
    instruct_fn::swap(&mut cpu, &mut mem, &RegU8::L);
    assert_eq!(cpu.l, 0xBA);
    assert!(!cpu.get_flag(Flag::Z));
}

#[test]
fn bit_test_sets_zero_from_complement() {
    let mut cpu = fresh_cpu();
    let mut mem = make_mem();
    cpu.e = 0b0000_0100;
    instruct_fn::bit(&mut cpu, &mut mem, &RegU8::E, 2);
    assert!(!cpu.get_flag(Flag::Z));
    instruct_fn::bit(&mut cpu, &mut mem, &RegU8::E, 3);
    assert!(cpu.get_flag(Flag::Z));
    assert!(cpu.get_flag(Flag::H));
    instruct_fn::set_bit(&mut cpu, &mut mem, &RegU8::E, 7);
    assert_eq!(cpu.e, 0b1000_0100);
    instruct_fn::reset_bit(&mut cpu, &mut mem, &RegU8::E, 2);
    assert_eq!(cpu.e, 0b1000_0000);
}

#[test]
fn add_hl_pair_uses_bit11_and_bit15_boundaries() {
    let mut cpu = fresh_cpu();
    cpu.h = 0x0F;
    cpu.l = 0xFF;
    cpu.b = 0x00;
    cpu.c = 0x01;
    opcodes::add_hl_bc(&mut cpu);
    assert_eq!((cpu.h, cpu.l), (0x10, 0x00));
    assert!(cpu.get_flag(Flag::H));
    assert!(!cpu.get_flag(Flag::C));

    cpu.h = 0xFF;
    cpu.l = 0xFF;
    cpu.d = 0x00;
    cpu.e = 0x01;
    opcodes::add_hl_de(&mut cpu);
    assert_eq!((cpu.h, cpu.l), (0x00, 0x00));
    assert!(cpu.get_flag(Flag::C));
}

#[test]
fn concrete_alu_routines_match_the_engine() {
    let mut cpu = fresh_cpu();
    cpu.a = 0x3C;
    cpu.b = 0x12;
    opcodes::add_b(&mut cpu);
    assert_eq!(cpu.a, 0x4E);
    opcodes::cp_u8(&mut cpu, 0x4E);
    assert!(cpu.get_flag(Flag::Z));
    assert!(cpu.get_flag(Flag::N));
    opcodes::xor_a(&mut cpu);
    assert_eq!(cpu.a, 0);
    assert!(cpu.get_flag(Flag::Z));
    opcodes::or_u8(&mut cpu, 0x81);
    assert_eq!(cpu.a, 0x81);
    opcodes::and_u8(&mut cpu, 0x0F);
    assert_eq!(cpu.a, 0x01);
    assert!(cpu.get_flag(Flag::H));
    opcodes::cpl(&mut cpu);
    assert_eq!(cpu.a, 0xFE);
    assert!(cpu.get_flag(Flag::N));
    assert!(cpu.get_flag(Flag::H));
}

#[test]
fn set_carry_and_flip_carry() {
    let mut cpu = fresh_cpu();
    let mut mem = make_mem();
    instruct_fn::set_carry(&mut cpu, &mut mem, false);
    assert!(cpu.get_flag(Flag::C));
    instruct_fn::set_carry(&mut cpu, &mut mem, true);
    assert!(!cpu.get_flag(Flag::C));
    instruct_fn::set_carry(&mut cpu, &mut mem, true);
    assert!(cpu.get_flag(Flag::C));
}
