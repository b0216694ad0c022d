//! Register pairs, flag packing and the deferred interrupt-enable
//! transition.

use rust_boy::hardware::{Cpu, Flag};
use rust_boy::opcodes;

fn fresh_cpu() -> Cpu {
    Cpu {
        a: 0,
        f: 0,
        b: 0,
        c: 0,
        d: 0,
        e: 0,
        h: 0,
        l: 0,
        sp: 0,
        pc: 0,
        mie: false,
        pending_mie: None,
        pending_ticks: 0,
        is_halted: false,
    }
}

#[test]
fn register_pair_round_trips_all_values() {
    // writing any 16-bit value through a pair setter and reading it back
    // through the paired getter returns the same value
    let mut cpu = fresh_cpu();
    for nn in 0..=0xFFFFu16 {
        cpu.set_af(nn);
        assert_eq!(cpu.get_af(), nn);
        cpu.set_bc(nn);
        assert_eq!(cpu.get_bc(), nn);
        cpu.set_de(nn);
        assert_eq!(cpu.get_de(), nn);
        cpu.set_hl(nn);
        assert_eq!(cpu.get_hl(), nn);
        cpu.set_sp(nn);
        assert_eq!(cpu.get_sp(), nn);
    }
}

#[test]
fn register_pairs_are_big_endian() {
    let mut cpu = fresh_cpu();
    cpu.set_bc(0x1234);
    assert_eq!(cpu.b, 0x12);
    assert_eq!(cpu.c, 0x34);
    cpu.set_hl(0xBEEF);
    assert_eq!((cpu.h, cpu.l), (0xBE, 0xEF));
}

#[test]
fn flag_bits_live_in_the_upper_nibble() {
    let mut cpu = fresh_cpu();
    cpu.flag(Flag::Z, true);
    assert_eq!(cpu.f, 0b1000_0000);
    cpu.flag(Flag::N, true);
    assert_eq!(cpu.f, 0b1100_0000);
    cpu.flag(Flag::H, true);
    assert_eq!(cpu.f, 0b1110_0000);
    cpu.flag(Flag::C, true);
    assert_eq!(cpu.f, 0b1111_0000);
    cpu.flag(Flag::Z, false);
    assert_eq!(cpu.f, 0b0111_0000);

    let flags = cpu.get_flags();
    assert!(!flags.z && flags.n && flags.h && flags.c);

    cpu.set_flag(Flag::Z);
    assert!(cpu.get_flag(Flag::Z));
    cpu.clear_flag(Flag::C);
    assert!(!cpu.get_flag(Flag::C));
}

#[test]
fn register_getters_and_setters() {
    let mut cpu = fresh_cpu();
    cpu.set_a(1);
    cpu.set_b(2);
    cpu.set_c(3);
    cpu.set_d(4);
    cpu.set_e(5);
    cpu.set_h(6);
    cpu.set_l(7);
    cpu.set_f(0xF0);
    cpu.set_pc(0x1234);
    cpu.set_mie(true);
    assert_eq!(
        (cpu.get_a(), cpu.get_b(), cpu.get_c(), cpu.get_d(), cpu.get_e(), cpu.get_h(), cpu.get_l()),
        (1, 2, 3, 4, 5, 6, 7)
    );
    assert_eq!(cpu.get_f(), 0xF0);
    assert_eq!(cpu.get_pc(), 0x1234);
    assert!(cpu.get_mie());
}

#[test]
fn register_to_register_loads() {
    let mut cpu = fresh_cpu();
    cpu.b = 0x7E;
    opcodes::ld_a_b(&mut cpu);
    assert_eq!(cpu.a, 0x7E);
    opcodes::ld_d_a(&mut cpu);
    assert_eq!(cpu.d, 0x7E);
    opcodes::ld_l_u8(&mut cpu, 0x99);
    assert_eq!(cpu.l, 0x99);
    opcodes::ld_hl_u16(&mut cpu, 0xAB, 0xCD);
    assert_eq!(cpu.get_hl(), 0xABCD);
    opcodes::ld_sp_hl(&mut cpu);
    assert_eq!(cpu.sp, 0xABCD);
}

#[test]
fn pending_interrupt_enable_is_deferred() {
    let mut cpu = fresh_cpu();
    opcodes::ei(&mut cpu);
    assert!(!cpu.mie);
    assert_eq!(cpu.pending_mie, Some(true));
    cpu.update_interrupt_status();
    assert!(cpu.mie);
    assert_eq!(cpu.pending_mie, None);

    opcodes::di(&mut cpu);
    assert!(cpu.mie);
    cpu.update_interrupt_status();
    assert!(!cpu.mie);
}

#[test]
fn pending_ticks_accumulate_and_clear() {
    let mut cpu = fresh_cpu();
    cpu.add_ticks(4);
    cpu.add_ticks(12);
    assert_eq!(cpu.get_ticks(), 16);
    cpu.clear_ticks();
    assert_eq!(cpu.get_ticks(), 0);
}
