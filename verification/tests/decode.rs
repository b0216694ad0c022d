//! Totality and shape of the instruction decoder.

use rust_boy::hardware::{Cpu, Flag, RegU16, RegU8};
use rust_boy::instructions::{Instruct, InstructType};

fn fresh_cpu() -> Cpu {
    Cpu {
        a: 0,
        f: 0,
        b: 0,
        c: 0,
        d: 0,
        e: 0,
        h: 0,
        l: 0,
        sp: 0,
        pc: 0x100,
        mie: false,
        pending_mie: None,
        pending_ticks: 0,
        is_halted: false,
    }
}

#[test]
fn every_primary_opcode_decodes_with_positive_cost() {
    for op in 0..=255u8 {
        let mut cpu = fresh_cpu();
        let inst = Instruct::fetch(&mut cpu, op, 0x00);
        assert_eq!(inst.opcode, op);
        assert!(inst.ticks >= 4);
    }
}

#[test]
fn every_prefixed_opcode_decodes_with_positive_cost() {
    for follow in 0..=255u8 {
        let mut cpu = fresh_cpu();
        let inst = Instruct::fetch(&mut cpu, 0xCB, follow);
        assert_eq!(inst.opcode, 0xCB);
        assert!(inst.ticks >= 4);
        // the prefix byte itself is consumed inside decode
        assert_eq!(cpu.pc, 0x101);
    }
}

#[test]
fn decode_spot_checks() {
    let mut cpu = fresh_cpu();

    let inst = Instruct::fetch(&mut cpu, 0x3E, 0);
    assert_eq!(inst.inst, InstructType::Load(RegU8::U8, RegU8::A));
    assert_eq!(inst.ticks, 8);

    let inst = Instruct::fetch(&mut cpu, 0x7E, 0);
    assert_eq!(inst.inst, InstructType::Load(RegU8::RamU16(RegU16::HL), RegU8::A));
    assert_eq!(inst.ticks, 8);

    let inst = Instruct::fetch(&mut cpu, 0x78, 0);
    assert_eq!(inst.inst, InstructType::Load(RegU8::B, RegU8::A));
    assert_eq!(inst.ticks, 4);

    let inst = Instruct::fetch(&mut cpu, 0x3C, 0);
    assert_eq!(inst.inst, InstructType::Inc(RegU8::A));

    let inst = Instruct::fetch(&mut cpu, 0xC6, 0);
    assert_eq!(inst.inst, InstructType::Add(RegU8::U8, false));

    let inst = Instruct::fetch(&mut cpu, 0x8E, 0);
    assert_eq!(inst.inst, InstructType::Add(RegU8::RamU16(RegU16::HL), true));
    assert_eq!(inst.ticks, 8);

    let inst = Instruct::fetch(&mut cpu, 0xC2, 0);
    assert_eq!(inst.inst, InstructType::Jump(RegU16::U16, false, Some(Flag::Z), false));
    assert_eq!(inst.ticks, 12);

    let inst = Instruct::fetch(&mut cpu, 0xCD, 0);
    assert_eq!(inst.inst, InstructType::Jump(RegU16::U16, true, None, false));
    assert_eq!(inst.ticks, 24);

    let inst = Instruct::fetch(&mut cpu, 0xD7, 0);
    assert_eq!(inst.inst, InstructType::Reset(2));
    assert_eq!(inst.ticks, 16);

    let inst = Instruct::fetch(&mut cpu, 0xD9, 0);
    assert_eq!(inst.inst, InstructType::Ret(None, false, true));

    // undefined slots decode to a four-cycle no-op
    let inst = Instruct::fetch(&mut cpu, 0xDB, 0);
    assert_eq!(inst.inst, InstructType::Nop);
    assert_eq!(inst.ticks, 4);
}

#[test]
fn prefixed_decode_spot_checks() {
    let mut cpu = fresh_cpu();

    let inst = Instruct::fetch(&mut cpu, 0xCB, 0x37);
    assert_eq!(inst.inst, InstructType::Swap(RegU8::A));
    assert_eq!(inst.ticks, 8);

    let inst = Instruct::fetch(&mut cpu, 0xCB, 0x36);
    assert_eq!(inst.inst, InstructType::Swap(RegU8::RamU16(RegU16::HL)));
    assert_eq!(inst.ticks, 16);

    let inst = Instruct::fetch(&mut cpu, 0xCB, 0x11);
    assert_eq!(inst.inst, InstructType::Rotate(RegU8::C, true, true, true, false, false));

    let inst = Instruct::fetch(&mut cpu, 0xCB, 0x7E);
    assert_eq!(inst.inst, InstructType::Bit(RegU8::RamU16(RegU16::HL), 7));
    assert_eq!(inst.ticks, 12);

    let inst = Instruct::fetch(&mut cpu, 0xCB, 0x92);
    assert_eq!(inst.inst, InstructType::ResetBit(RegU8::D, 2));

    let inst = Instruct::fetch(&mut cpu, 0xCB, 0xFD);
    assert_eq!(inst.inst, InstructType::SetBit(RegU8::L, 7));
}

#[test]
fn primary_fetch_leaves_the_program_counter_alone() {
    let mut cpu = fresh_cpu();
    let _ = Instruct::fetch(&mut cpu, 0x00, 0x00);
    assert_eq!(cpu.pc, 0x100);
}
