//! The step loop, interrupt dispatch, the timer, input packing and one full
//! frame.

use rust_boy::controls::Controls;
use rust_boy::gpu::Gpu;
use rust_boy::hardware::{Cpu, Flag};
use rust_boy::interrupts::interrupt_check;
use rust_boy::master::Master;
use rust_boy::memory::{Cartridge, Memory};
use rust_boy::timer::Timer;

fn fresh_cpu() -> Cpu {
    Cpu {
        a: 0,
        f: 0,
        b: 0,
        c: 0,
        d: 0,
        e: 0,
        h: 0,
        l: 0,
        sp: 0xD000,
        pc: 0xC000,
        mie: false,
        pending_mie: None,
        pending_ticks: 0,
        is_halted: false,
    }
}

fn make_mem() -> Memory {
    Memory::new(Cartridge::new(vec![vec![0u8; 0x4000], vec![0u8; 0x4000]]))
}

fn fresh_timer() -> Timer {
    Timer { divider_ticks: 0, division: 0, timer_ticks: 0, timer_enb: false }
}

fn fresh_controls() -> Controls {
    Controls { up: 1, down: 1, left: 1, right: 1, a: 1, b: 1, select: 1, start: 1 }
}

fn fresh_master() -> Master {
    Master {
        nb_steps: 0,
        tick: 0,
        mode: 2,
        previous_mode: 2,
        step_by_step: false,
        line_by_line: false,
        screen_by_screen: false,
        log: false,
    }
}

#[test]
fn loading_immediate_then_incrementing() {
    // 0x3E 0x05 loads 5 into A; 0x3C increments it to 6 with zero and
    // half-carry clear
    let mut cpu = fresh_cpu();
    let mut mem = make_mem();
    let mut timer = fresh_timer();
    let mut controls = fresh_controls();
    let mut master = fresh_master();
    mem.write(0xC000, 0x3E);
    mem.write(0xC001, 0x05);
    mem.write(0xC002, 0x3C);

    master.step(&mut cpu, &mut timer, &mut controls, &mut mem);
    assert_eq!(cpu.a, 0x05);
    assert_eq!(cpu.pc, 0xC002);

    master.step(&mut cpu, &mut timer, &mut controls, &mut mem);
    assert_eq!(cpu.a, 0x06);
    assert!(!cpu.get_flag(Flag::Z));
    assert!(!cpu.get_flag(Flag::H));
    assert_eq!(master.nb_steps, 2);
}

#[test]
fn incrementing_a_full_accumulator() {
    // A = 0xFF, increment: result 0x00, zero set, half-carry set
    let mut cpu = fresh_cpu();
    let mut mem = make_mem();
    let mut timer = fresh_timer();
    let mut controls = fresh_controls();
    let mut master = fresh_master();
    cpu.a = 0xFF;
    mem.write(0xC000, 0x3C);

    master.step(&mut cpu, &mut timer, &mut controls, &mut mem);
    assert_eq!(cpu.a, 0x00);
    assert!(cpu.get_flag(Flag::Z));
    assert!(cpu.get_flag(Flag::H));
}

#[test]
fn conditional_jump_not_taken_advances_past_operands() {
    // JP NZ with Z set: no jump, no surcharge, program counter just past
    // the three instruction bytes
    let mut cpu = fresh_cpu();
    let mut mem = make_mem();
    let mut timer = fresh_timer();
    let mut controls = fresh_controls();
    let mut master = fresh_master();
    cpu.flag(Flag::Z, true);
    mem.write(0xC000, 0xC2);
    mem.write(0xC001, 0x00);
    mem.write(0xC002, 0xD0);

    master.step(&mut cpu, &mut timer, &mut controls, &mut mem);
    assert_eq!(cpu.pc, 0xC003);
    assert_eq!(master.tick, 12);
}

#[test]
fn conditional_jump_taken_adds_the_surcharge_once() {
    // JP NZ with Z clear: the jump lands and exactly 4 extra cycles join
    // the base cost
    let mut cpu = fresh_cpu();
    let mut mem = make_mem();
    let mut timer = fresh_timer();
    let mut controls = fresh_controls();
    let mut master = fresh_master();
    mem.write(0xC000, 0xC2);
    mem.write(0xC001, 0x00);
    mem.write(0xC002, 0xD0);

    master.step(&mut cpu, &mut timer, &mut controls, &mut mem);
    assert_eq!(cpu.pc, 0xD000);
    assert_eq!(master.tick, 16);
    assert_eq!(cpu.get_ticks(), 4);
}

#[test]
fn conditional_call_surcharge_is_twelve() {
    let mut cpu = fresh_cpu();
    let mut mem = make_mem();
    let mut timer = fresh_timer();
    let mut controls = fresh_controls();
    let mut master = fresh_master();
    mem.write(0xC000, 0xDC);  // CALL C, nn
    mem.write(0xC001, 0x00);
    mem.write(0xC002, 0xD0);
    cpu.flag(Flag::C, true);

    master.step(&mut cpu, &mut timer, &mut controls, &mut mem);
    assert_eq!(cpu.pc, 0xD000);
    assert_eq!(master.tick, 12 + 12);
    // the return address points past the three instruction bytes
    assert_eq!(mem.read(0xCFFE), 0x03);
    assert_eq!(mem.read(0xCFFF), 0xC0);
}

#[test]
fn dispatched_interrupt_costs_twelve_cycles() {
    // a pending, enabled interrupt is dispatched at the start of the step
    // and its vector-jump cost joins the frame accounting
    let mut cpu = fresh_cpu();
    let mut mem = make_mem();
    let mut timer = fresh_timer();
    let mut controls = fresh_controls();
    let mut master = fresh_master();
    cpu.mie = true;
    mem.write(0xFFFF, 0x01);
    mem.write(0xFF0F, 0x01);

    master.step(&mut cpu, &mut timer, &mut controls, &mut mem);
    // the vector jump (12) plus the no-op fetched at the vector (4)
    assert_eq!(master.tick, 16);
    assert_eq!(cpu.pc, 0x41);
    assert!(!cpu.mie);
    assert_eq!(mem.read(0xFF0F), 0x00);
}

#[test]
fn enable_interrupts_has_one_instruction_latency() {
    let mut cpu = fresh_cpu();
    let mut mem = make_mem();
    let mut timer = fresh_timer();
    let mut controls = fresh_controls();
    let mut master = fresh_master();
    mem.write(0xC000, 0xFB);  // EI

    master.step(&mut cpu, &mut timer, &mut controls, &mut mem);
    assert!(!cpu.mie);
    assert_eq!(cpu.pending_mie, Some(true));

    // the transition commits during the following step
    master.step(&mut cpu, &mut timer, &mut controls, &mut mem);
    assert!(cpu.mie);
    assert_eq!(cpu.pending_mie, None);
}

#[test]
fn interrupt_dispatch_takes_the_highest_priority_vector() {
    let mut cpu = fresh_cpu();
    let mut mem = make_mem();
    cpu.mie = true;
    cpu.pc = 0x1234;
    mem.write(0xFFFF, 0xFF);
    mem.write(0xFF0F, 0b0000_0101);  // video refresh and timer pending

    let pending = interrupt_check(&mut cpu, &mut mem);
    assert!(pending);
    assert_eq!(cpu.pc, 0x40);
    assert!(!cpu.mie);
    // the return address was pushed
    assert_eq!(mem.read(0xCFFE), 0x34);
    assert_eq!(mem.read(0xCFFF), 0x12);
    // only the dispatched bit was cleared; the timer stays pending
    assert_eq!(mem.read(0xFF0F), 0b0000_0100);
}

#[test]
fn masked_interrupts_are_pending_but_not_dispatched() {
    let mut cpu = fresh_cpu();
    let mut mem = make_mem();
    cpu.mie = false;
    cpu.pc = 0x1234;
    mem.write(0xFFFF, 0x01);
    mem.write(0xFF0F, 0x01);

    let pending = interrupt_check(&mut cpu, &mut mem);
    assert!(pending);
    assert_eq!(cpu.pc, 0x1234);
    assert_eq!(mem.read(0xFF0F), 0x01);
}

#[test]
fn no_interrupt_pending_reports_false() {
    let mut cpu = fresh_cpu();
    let mut mem = make_mem();
    cpu.mie = true;
    assert!(!interrupt_check(&mut cpu, &mut mem));
}

#[test]
fn timer_divider_rolls_over_every_256_cycles() {
    let mut timer = fresh_timer();
    let mut mem = make_mem();
    timer.update(255, &mut mem);
    assert_eq!(mem.read(0xFF04), 0);
    timer.update(10, &mut mem);
    assert_eq!(mem.read(0xFF04), 1);
    assert_eq!(timer.divider_ticks, 0);
}

#[test]
fn timer_counter_steps_past_the_period() {
    let mut timer = fresh_timer();
    let mut mem = make_mem();
    mem.write(0xFF07, 0b0000_0101);  // enabled, period 16
    timer.update(20, &mut mem);
    assert!(timer.timer_enb);
    assert_eq!(timer.division, 16);
    assert_eq!(mem.read(0xFF05), 1);
    assert_eq!(timer.timer_ticks, 0);
}

#[test]
fn timer_overflow_reloads_and_raises_the_flag() {
    let mut timer = fresh_timer();
    let mut mem = make_mem();
    mem.write(0xFF07, 0b0000_0101);
    mem.write(0xFF05, 255);
    mem.write(0xFF06, 7);  // modulo register
    timer.update(20, &mut mem);
    assert_eq!(mem.read(0xFF05), 7);
    assert_eq!(mem.read(0xFF0F) & 0b0000_0100, 0b0000_0100);
}

#[test]
fn disabled_timer_only_advances_the_divider() {
    let mut timer = fresh_timer();
    let mut mem = make_mem();
    mem.write(0xFF05, 9);
    timer.update(100, &mut mem);
    assert!(!timer.timer_enb);
    assert_eq!(mem.read(0xFF05), 9);
    assert_eq!(timer.timer_ticks, 0);
}

#[test]
fn input_register_packs_the_selected_half() {
    let mut mem = make_mem();
    let controls = Controls { up: 0, down: 1, left: 1, right: 1, a: 0, b: 1, select: 1, start: 1 };

    mem.write(0xFF00, 0b0010_0000);  // select the cross
    controls.update_ram(&mut mem);
    assert_eq!(mem.read(0xFF00), 0b1110_1011);

    mem.write(0xFF00, 0b0001_0000);  // select the buttons
    controls.update_ram(&mut mem);
    assert_eq!(mem.read(0xFF00), 0b1101_1110);
}

#[test]
fn one_frame_raises_vertical_blank_and_wraps_the_scanline() {
    // a full 144 + 10 line frame over a no-op program with the timer
    // disabled and all interrupts masked: the vertical-blank pending flag is
    // raised exactly once and the scanline counter comes back to zero
    let mut cpu = fresh_cpu();
    let mut mem = make_mem();
    let mut gpu = Gpu::new();
    let mut timer = fresh_timer();
    let mut controls = fresh_controls();
    let mut master = fresh_master();

    master.screen(&mut cpu, &mut gpu, &mut timer, &mut controls, &mut mem);

    assert_eq!(mem.read(0xFF0F), 0b0000_0001);
    assert_eq!(gpu.line, 0);
    assert_eq!(master.tick, 0);
    assert_eq!(master.mode, 1);
    // the line-counter register is back at zero when the frame returns
    assert_eq!(mem.read(0xFF44), 0);
}
