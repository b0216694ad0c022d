//! Loads, stores and stack traffic driven through the tagged instruction
//! engine.

use rust_boy::hardware::{Cpu, RegU16, RegU8};
use rust_boy::instructions::instruct_fn;
use rust_boy::instructions::Instruct;
use rust_boy::memory::{Cartridge, Memory};
use rust_boy::opcodes;

fn fresh_cpu() -> Cpu {
    Cpu {
        a: 0,
        f: 0,
        b: 0,
        c: 0,
        d: 0,
        e: 0,
        h: 0,
        l: 0,
        sp: 0xFFFE,
        pc: 0xC000,
        mie: false,
        pending_mie: None,
        pending_ticks: 0,
        is_halted: false,
    }
}

fn make_mem() -> Memory {
    Memory::new(Cartridge::new(vec![vec![0u8; 0x4000], vec![0u8; 0x4000]]))
}

#[test]
fn store_and_load_through_hl() {
    let mut cpu = fresh_cpu();
    let mut mem = make_mem();
    cpu.set_hl(0xC800);
    cpu.b = 0x5C;
    instruct_fn::load(&mut cpu, &mut mem, &RegU8::B, &RegU8::RamU16(RegU16::HL));
    assert_eq!(mem.read(0xC800), 0x5C);
    instruct_fn::load(&mut cpu, &mut mem, &RegU8::RamU16(RegU16::HL), &RegU8::E);
    assert_eq!(cpu.e, 0x5C);
}

#[test]
fn immediate_operands_move_the_program_counter() {
    // the executed LD A, n consumes its operand byte
    let mut cpu = fresh_cpu();
    let mut mem = make_mem();
    mem.write(0xC000, 0x42);
    instruct_fn::load(&mut cpu, &mut mem, &RegU8::U8, &RegU8::A);
    assert_eq!(cpu.a, 0x42);
    assert_eq!(cpu.pc, 0xC001);
}

#[test]
fn load_with_increment_and_decrement_move_hl() {
    let mut cpu = fresh_cpu();
    let mut mem = make_mem();
    cpu.set_hl(0xC900);
    cpu.a = 0x11;
    instruct_fn::load_plus(&mut cpu, &mut mem, &RegU8::A, &RegU8::RamU16(RegU16::HL), true);
    assert_eq!(mem.read(0xC900), 0x11);
    assert_eq!(cpu.get_hl(), 0xC901);

    instruct_fn::load_plus(&mut cpu, &mut mem, &RegU8::RamU16(RegU16::HL), &RegU8::A, false);
    assert_eq!(cpu.get_hl(), 0xC900);

    opcodes::ldi_hlp_a(&mut cpu, &mut mem);
    assert_eq!(cpu.get_hl(), 0xC901);
    opcodes::ldd_a_hlp(&mut cpu, &mem);
    assert_eq!(cpu.get_hl(), 0xC900);
}

#[test]
fn push_then_pop_round_trips_through_the_stack() {
    let mut cpu = fresh_cpu();
    let mut mem = make_mem();
    cpu.sp = 0xD000;
    cpu.set_bc(0x1234);
    instruct_fn::push(&mut cpu, &mut mem, &RegU16::BC);
    assert_eq!(cpu.sp, 0xCFFE);
    instruct_fn::pop(&mut cpu, &mut mem, &RegU16::DE);
    assert_eq!(cpu.get_de(), 0x1234);
    assert_eq!(cpu.sp, 0xD000);

    opcodes::push_hl(&mut cpu, &mut mem);
    opcodes::pop_af(&mut cpu, &mem);
    assert_eq!(cpu.get_af(), cpu.get_hl());
}

#[test]
fn sixteen_bit_store_writes_low_byte_first() {
    // storing the stack pointer at an immediate address lands low byte
    // first, as the word store of the instruction set does
    let mut cpu = fresh_cpu();
    let mut mem = make_mem();
    cpu.sp = 0xBEEF;
    mem.write(0xC000, 0x00);  // operand low
    mem.write(0xC001, 0xCA);  // operand high
    instruct_fn::load_u16(
        &mut cpu,
        &mut mem,
        &RegU16::SP,
        &RegU16::RamU16(Box::new(RegU16::U16)),
    );
    assert_eq!(mem.read(0xCA00), 0xEF);
    assert_eq!(mem.read(0xCA01), 0xBE);
    assert_eq!(cpu.pc, 0xC002);
}

#[test]
fn high_page_forms_use_the_io_page() {
    let mut cpu = fresh_cpu();
    let mut mem = make_mem();
    cpu.a = 0x77;
    cpu.c = 0x80;
    opcodes::ld_hram_c_a(&mut cpu, &mut mem);
    assert_eq!(mem.read(0xFF80), 0x77);
    cpu.a = 0;
    opcodes::ldh_a_u8(&mut cpu, 0x80, &mem);
    assert_eq!(cpu.a, 0x77);
}

#[test]
fn executed_call_and_return_round_trip() {
    let mut cpu = fresh_cpu();
    let mut mem = make_mem();
    cpu.sp = 0xD000;
    cpu.pc = 0xC100;
    opcodes::call_u16(&mut cpu, 0xC2, 0x00, &mut mem);
    assert_eq!(cpu.pc, 0xC200);
    assert_eq!(cpu.sp, 0xCFFE);
    opcodes::ret(&mut cpu, &mem);
    assert_eq!(cpu.pc, 0xC103);
    assert_eq!(cpu.sp, 0xD000);
}

#[test]
fn restart_pushes_the_next_address() {
    let mut cpu = fresh_cpu();
    let mut mem = make_mem();
    cpu.sp = 0xD000;
    cpu.pc = 0xC123;
    opcodes::rst_28(&mut cpu, &mut mem);
    assert_eq!(cpu.pc, 0x28);
    assert_eq!(mem.read(0xCFFE), 0x24);
    assert_eq!(mem.read(0xCFFF), 0xC1);
}

#[test]
fn relative_jumps_sign_extend_their_offset() {
    let mut cpu = fresh_cpu();
    cpu.pc = 0xC100;
    opcodes::jpr(&mut cpu, 0x10);
    assert_eq!(cpu.pc, 0xC110);
    opcodes::jpr(&mut cpu, 0xF0);  // -16
    assert_eq!(cpu.pc, 0xC100);
}

#[test]
fn executing_one_fetched_instruction() {
    // decode then execute: ADD A, n over the operand behind the counter
    let mut cpu = fresh_cpu();
    let mut mem = make_mem();
    cpu.a = 0x20;
    mem.write(0xC000, 0x22);
    let inst = Instruct::fetch(&mut cpu, 0xC6, 0x22);
    inst.inst.exec(&mut cpu, &mut mem);
    assert_eq!(cpu.a, 0x42);
    assert_eq!(cpu.pc, 0xC001);
}
