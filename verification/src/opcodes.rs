//! Concrete per-opcode routines.
//!
//! One small function per opcode slot, the register already picked: the
//! direct counterpart of dispatching one decoded instruction through the
//! parameterized semantic functions.  Immediate operands arrive as plain
//! arguments and every routine's contract states its exact effect on the
//! registers, the flags and the address space.  Control-flow routines move
//! the program counter to the real target; the cycle bookkeeping of
//! conditional forms belongs to the tagged engine.

use vstd::prelude::*;

use crate::hardware::{
    flag_of, high_byte, low_byte, lemma_low_nibble, mem_after_push, sign_extend, u16_of, wadd16,
    wadd8, wsub16, wsub8, Cpu, Flag,
};
use crate::instructions::instruct_fn::{flags_post, lemma_u16_masks};
use crate::memory::{mem_after_write, Memory};

verus! {

/// Does nothing.
pub fn nop(cpu: &mut Cpu)
    ensures
        *final(cpu) == *old(cpu),
{
}

/// Loads the immediate byte into register A.
pub fn ld_a_u8(cpu: &mut Cpu, n: u8)
    ensures
        *final(cpu) == (Cpu { a: n, ..*old(cpu) }),
{
    cpu.set_a(n);
}

/// Loads the immediate byte into register B.
pub fn ld_b_u8(cpu: &mut Cpu, n: u8)
    ensures
        *final(cpu) == (Cpu { b: n, ..*old(cpu) }),
{
    cpu.set_b(n);
}

/// Loads the immediate byte into register C.
pub fn ld_c_u8(cpu: &mut Cpu, n: u8)
    ensures
        *final(cpu) == (Cpu { c: n, ..*old(cpu) }),
{
    cpu.set_c(n);
}

/// Loads the immediate byte into register D.
pub fn ld_d_u8(cpu: &mut Cpu, n: u8)
    ensures
        *final(cpu) == (Cpu { d: n, ..*old(cpu) }),
{
    cpu.set_d(n);
}

/// Loads the immediate byte into register E.
pub fn ld_e_u8(cpu: &mut Cpu, n: u8)
    ensures
        *final(cpu) == (Cpu { e: n, ..*old(cpu) }),
{
    cpu.set_e(n);
}

/// Loads the immediate byte into register H.
pub fn ld_h_u8(cpu: &mut Cpu, n: u8)
    ensures
        *final(cpu) == (Cpu { h: n, ..*old(cpu) }),
{
    cpu.set_h(n);
}

/// Loads the immediate byte into register L.
pub fn ld_l_u8(cpu: &mut Cpu, n: u8)
    ensures
        *final(cpu) == (Cpu { l: n, ..*old(cpu) }),
{
    cpu.set_l(n);
}

/// Copies register A into register A.
pub fn ld_a_a(cpu: &mut Cpu)
    ensures
        *final(cpu) == (Cpu { a: old(cpu).a, ..*old(cpu) }),
{
    let v = cpu.get_a();
    cpu.set_a(v);
}

/// Copies register B into register A.
pub fn ld_a_b(cpu: &mut Cpu)
    ensures
        *final(cpu) == (Cpu { a: old(cpu).b, ..*old(cpu) }),
{
    let v = cpu.get_b();
    cpu.set_a(v);
}

/// Copies register C into register A.
pub fn ld_a_c(cpu: &mut Cpu)
    ensures
        *final(cpu) == (Cpu { a: old(cpu).c, ..*old(cpu) }),
{
    let v = cpu.get_c();
    cpu.set_a(v);
}

/// Copies register D into register A.
pub fn ld_a_d(cpu: &mut Cpu)
    ensures
        *final(cpu) == (Cpu { a: old(cpu).d, ..*old(cpu) }),
{
    let v = cpu.get_d();
    cpu.set_a(v);
}

/// Copies register E into register A.
pub fn ld_a_e(cpu: &mut Cpu)
    ensures
        *final(cpu) == (Cpu { a: old(cpu).e, ..*old(cpu) }),
{
    let v = cpu.get_e();
    cpu.set_a(v);
}

/// Copies register H into register A.
pub fn ld_a_h(cpu: &mut Cpu)
    ensures
        *final(cpu) == (Cpu { a: old(cpu).h, ..*old(cpu) }),
{
    let v = cpu.get_h();
    cpu.set_a(v);
}

/// Copies register L into register A.
pub fn ld_a_l(cpu: &mut Cpu)
    ensures
        *final(cpu) == (Cpu { a: old(cpu).l, ..*old(cpu) }),
{
    let v = cpu.get_l();
    cpu.set_a(v);
}

/// Copies register A into register B.
pub fn ld_b_a(cpu: &mut Cpu)
    ensures
        *final(cpu) == (Cpu { b: old(cpu).a, ..*old(cpu) }),
{
    let v = cpu.get_a();
    cpu.set_b(v);
}

/// Copies register B into register B.
pub fn ld_b_b(cpu: &mut Cpu)
    ensures
        *final(cpu) == (Cpu { b: old(cpu).b, ..*old(cpu) }),
{
    let v = cpu.get_b();
    cpu.set_b(v);
}

/// Copies register C into register B.
pub fn ld_b_c(cpu: &mut Cpu)
    ensures
        *final(cpu) == (Cpu { b: old(cpu).c, ..*old(cpu) }),
{
    let v = cpu.get_c();
    cpu.set_b(v);
}

/// Copies register D into register B.
pub fn ld_b_d(cpu: &mut Cpu)
    ensures
        *final(cpu) == (Cpu { b: old(cpu).d, ..*old(cpu) }),
{
    let v = cpu.get_d();
    cpu.set_b(v);
}

/// Copies register E into register B.
pub fn ld_b_e(cpu: &mut Cpu)
    ensures
        *final(cpu) == (Cpu { b: old(cpu).e, ..*old(cpu) }),
{
    let v = cpu.get_e();
    cpu.set_b(v);
}

/// Copies register H into register B.
pub fn ld_b_h(cpu: &mut Cpu)
    ensures
        *final(cpu) == (Cpu { b: old(cpu).h, ..*old(cpu) }),
{
    let v = cpu.get_h();
    cpu.set_b(v);
}

/// Copies register L into register B.
pub fn ld_b_l(cpu: &mut Cpu)
    ensures
        *final(cpu) == (Cpu { b: old(cpu).l, ..*old(cpu) }),
{
    let v = cpu.get_l();
    cpu.set_b(v);
}

/// Copies register A into register C.
pub fn ld_c_a(cpu: &mut Cpu)
    ensures
        *final(cpu) == (Cpu { c: old(cpu).a, ..*old(cpu) }),
{
    let v = cpu.get_a();
    cpu.set_c(v);
}

/// Copies register B into register C.
pub fn ld_c_b(cpu: &mut Cpu)
    ensures
        *final(cpu) == (Cpu { c: old(cpu).b, ..*old(cpu) }),
{
    let v = cpu.get_b();
    cpu.set_c(v);
}

/// Copies register C into register C.
pub fn ld_c_c(cpu: &mut Cpu)
    ensures
        *final(cpu) == (Cpu { c: old(cpu).c, ..*old(cpu) }),
{
    let v = cpu.get_c();
    cpu.set_c(v);
}

/// Copies register D into register C.
pub fn ld_c_d(cpu: &mut Cpu)
    ensures
        *final(cpu) == (Cpu { c: old(cpu).d, ..*old(cpu) }),
{
    let v = cpu.get_d();
    cpu.set_c(v);
}

/// Copies register E into register C.
pub fn ld_c_e(cpu: &mut Cpu)
    ensures
        *final(cpu) == (Cpu { c: old(cpu).e, ..*old(cpu) }),
{
    let v = cpu.get_e();
    cpu.set_c(v);
}

/// Copies register H into register C.
pub fn ld_c_h(cpu: &mut Cpu)
    ensures
        *final(cpu) == (Cpu { c: old(cpu).h, ..*old(cpu) }),
{
    let v = cpu.get_h();
    cpu.set_c(v);
}

/// Copies register L into register C.
pub fn ld_c_l(cpu: &mut Cpu)
    ensures
        *final(cpu) == (Cpu { c: old(cpu).l, ..*old(cpu) }),
{
    let v = cpu.get_l();
    cpu.set_c(v);
}

/// Copies register A into register D.
pub fn ld_d_a(cpu: &mut Cpu)
    ensures
        *final(cpu) == (Cpu { d: old(cpu).a, ..*old(cpu) }),
{
    let v = cpu.get_a();
    cpu.set_d(v);
}

/// Copies register B into register D.
pub fn ld_d_b(cpu: &mut Cpu)
    ensures
        *final(cpu) == (Cpu { d: old(cpu).b, ..*old(cpu) }),
{
    let v = cpu.get_b();
    cpu.set_d(v);
}

/// Copies register C into register D.
pub fn ld_d_c(cpu: &mut Cpu)
    ensures
        *final(cpu) == (Cpu { d: old(cpu).c, ..*old(cpu) }),
{
    let v = cpu.get_c();
    cpu.set_d(v);
}

/// Copies register D into register D.
pub fn ld_d_d(cpu: &mut Cpu)
    ensures
        *final(cpu) == (Cpu { d: old(cpu).d, ..*old(cpu) }),
{
    let v = cpu.get_d();
    cpu.set_d(v);
}

/// Copies register E into register D.
pub fn ld_d_e(cpu: &mut Cpu)
    ensures
        *final(cpu) == (Cpu { d: old(cpu).e, ..*old(cpu) }),
{
    let v = cpu.get_e();
    cpu.set_d(v);
}

/// Copies register H into register D.
pub fn ld_d_h(cpu: &mut Cpu)
    ensures
        *final(cpu) == (Cpu { d: old(cpu).h, ..*old(cpu) }),
{
    let v = cpu.get_h();
    cpu.set_d(v);
}

/// Copies register L into register D.
pub fn ld_d_l(cpu: &mut Cpu)
    ensures
        *final(cpu) == (Cpu { d: old(cpu).l, ..*old(cpu) }),
{
    let v = cpu.get_l();
    cpu.set_d(v);
}

/// Copies register A into register E.
pub fn ld_e_a(cpu: &mut Cpu)
    ensures
        *final(cpu) == (Cpu { e: old(cpu).a, ..*old(cpu) }),
{
    let v = cpu.get_a();
    cpu.set_e(v);
}

/// Copies register B into register E.
pub fn ld_e_b(cpu: &mut Cpu)
    ensures
        *final(cpu) == (Cpu { e: old(cpu).b, ..*old(cpu) }),
{
    let v = cpu.get_b();
    cpu.set_e(v);
}

/// Copies register C into register E.
pub fn ld_e_c(cpu: &mut Cpu)
    ensures
        *final(cpu) == (Cpu { e: old(cpu).c, ..*old(cpu) }),
{
    let v = cpu.get_c();
    cpu.set_e(v);
}

/// Copies register D into register E.
pub fn ld_e_d(cpu: &mut Cpu)
    ensures
        *final(cpu) == (Cpu { e: old(cpu).d, ..*old(cpu) }),
{
    let v = cpu.get_d();
    cpu.set_e(v);
}

/// Copies register E into register E.
pub fn ld_e_e(cpu: &mut Cpu)
    ensures
        *final(cpu) == (Cpu { e: old(cpu).e, ..*old(cpu) }),
{
    let v = cpu.get_e();
    cpu.set_e(v);
}

/// Copies register H into register E.
pub fn ld_e_h(cpu: &mut Cpu)
    ensures
        *final(cpu) == (Cpu { e: old(cpu).h, ..*old(cpu) }),
{
    let v = cpu.get_h();
    cpu.set_e(v);
}

/// Copies register L into register E.
pub fn ld_e_l(cpu: &mut Cpu)
    ensures
        *final(cpu) == (Cpu { e: old(cpu).l, ..*old(cpu) }),
{
    let v = cpu.get_l();
    cpu.set_e(v);
}

/// Copies register A into register H.
pub fn ld_h_a(cpu: &mut Cpu)
    ensures
        *final(cpu) == (Cpu { h: old(cpu).a, ..*old(cpu) }),
{
    let v = cpu.get_a();
    cpu.set_h(v);
}

/// Copies register B into register H.
pub fn ld_h_b(cpu: &mut Cpu)
    ensures
        *final(cpu) == (Cpu { h: old(cpu).b, ..*old(cpu) }),
{
    let v = cpu.get_b();
    cpu.set_h(v);
}

/// Copies register C into register H.
pub fn ld_h_c(cpu: &mut Cpu)
    ensures
        *final(cpu) == (Cpu { h: old(cpu).c, ..*old(cpu) }),
{
    let v = cpu.get_c();
    cpu.set_h(v);
}

/// Copies register D into register H.
pub fn ld_h_d(cpu: &mut Cpu)
    ensures
        *final(cpu) == (Cpu { h: old(cpu).d, ..*old(cpu) }),
{
    let v = cpu.get_d();
    cpu.set_h(v);
}

/// Copies register E into register H.
pub fn ld_h_e(cpu: &mut Cpu)
    ensures
        *final(cpu) == (Cpu { h: old(cpu).e, ..*old(cpu) }),
{
    let v = cpu.get_e();
    cpu.set_h(v);
}

/// Copies register H into register H.
pub fn ld_h_h(cpu: &mut Cpu)
    ensures
        *final(cpu) == (Cpu { h: old(cpu).h, ..*old(cpu) }),
{
    let v = cpu.get_h();
    cpu.set_h(v);
}

/// Copies register L into register H.
pub fn ld_h_l(cpu: &mut Cpu)
    ensures
        *final(cpu) == (Cpu { h: old(cpu).l, ..*old(cpu) }),
{
    let v = cpu.get_l();
    cpu.set_h(v);
}

/// Copies register A into register L.
pub fn ld_l_a(cpu: &mut Cpu)
    ensures
        *final(cpu) == (Cpu { l: old(cpu).a, ..*old(cpu) }),
{
    let v = cpu.get_a();
    cpu.set_l(v);
}

/// Copies register B into register L.
pub fn ld_l_b(cpu: &mut Cpu)
    ensures
        *final(cpu) == (Cpu { l: old(cpu).b, ..*old(cpu) }),
{
    let v = cpu.get_b();
    cpu.set_l(v);
}

/// Copies register C into register L.
pub fn ld_l_c(cpu: &mut Cpu)
    ensures
        *final(cpu) == (Cpu { l: old(cpu).c, ..*old(cpu) }),
{
    let v = cpu.get_c();
    cpu.set_l(v);
}

/// Copies register D into register L.
pub fn ld_l_d(cpu: &mut Cpu)
    ensures
        *final(cpu) == (Cpu { l: old(cpu).d, ..*old(cpu) }),
{
    let v = cpu.get_d();
    cpu.set_l(v);
}

/// Copies register E into register L.
pub fn ld_l_e(cpu: &mut Cpu)
    ensures
        *final(cpu) == (Cpu { l: old(cpu).e, ..*old(cpu) }),
{
    let v = cpu.get_e();
    cpu.set_l(v);
}

/// Copies register H into register L.
pub fn ld_l_h(cpu: &mut Cpu)
    ensures
        *final(cpu) == (Cpu { l: old(cpu).h, ..*old(cpu) }),
{
    let v = cpu.get_h();
    cpu.set_l(v);
}

/// Copies register L into register L.
pub fn ld_l_l(cpu: &mut Cpu)
    ensures
        *final(cpu) == (Cpu { l: old(cpu).l, ..*old(cpu) }),
{
    let v = cpu.get_l();
    cpu.set_l(v);
}

/// Loads the byte at the address in BC into register A.
pub fn ld_a_bcp(cpu: &mut Cpu, mem: &Memory)
    requires
        mem.wf(),
    ensures
        *final(cpu) == (Cpu { a: mem.spec_read(u16_of(old(cpu).b, old(cpu).c)), ..*old(cpu) }),
{
    let addr = cpu.get_bc();
    let v = mem.read(addr);
    cpu.set_a(v);
}

/// Loads the byte at the address in DE into register A.
pub fn ld_a_dep(cpu: &mut Cpu, mem: &Memory)
    requires
        mem.wf(),
    ensures
        *final(cpu) == (Cpu { a: mem.spec_read(u16_of(old(cpu).d, old(cpu).e)), ..*old(cpu) }),
{
    let addr = cpu.get_de();
    let v = mem.read(addr);
    cpu.set_a(v);
}

/// Loads the byte at the address in HL into register A.
pub fn ld_a_hlp(cpu: &mut Cpu, mem: &Memory)
    requires
        mem.wf(),
    ensures
        *final(cpu) == (Cpu { a: mem.spec_read(u16_of(old(cpu).h, old(cpu).l)), ..*old(cpu) }),
{
    let addr = cpu.get_hl();
    let v = mem.read(addr);
    cpu.set_a(v);
}

/// Loads the byte at the address in HL into register B.
pub fn ld_b_hlp(cpu: &mut Cpu, mem: &Memory)
    requires
        mem.wf(),
    ensures
        *final(cpu) == (Cpu { b: mem.spec_read(u16_of(old(cpu).h, old(cpu).l)), ..*old(cpu) }),
{
    let addr = cpu.get_hl();
    let v = mem.read(addr);
    cpu.set_b(v);
}

/// Loads the byte at the address in HL into register C.
pub fn ld_c_hlp(cpu: &mut Cpu, mem: &Memory)
    requires
        mem.wf(),
    ensures
        *final(cpu) == (Cpu { c: mem.spec_read(u16_of(old(cpu).h, old(cpu).l)), ..*old(cpu) }),
{
    let addr = cpu.get_hl();
    let v = mem.read(addr);
    cpu.set_c(v);
}

/// Loads the byte at the address in HL into register D.
pub fn ld_d_hlp(cpu: &mut Cpu, mem: &Memory)
    requires
        mem.wf(),
    ensures
        *final(cpu) == (Cpu { d: mem.spec_read(u16_of(old(cpu).h, old(cpu).l)), ..*old(cpu) }),
{
    let addr = cpu.get_hl();
    let v = mem.read(addr);
    cpu.set_d(v);
}

/// Loads the byte at the address in HL into register E.
pub fn ld_e_hlp(cpu: &mut Cpu, mem: &Memory)
    requires
        mem.wf(),
    ensures
        *final(cpu) == (Cpu { e: mem.spec_read(u16_of(old(cpu).h, old(cpu).l)), ..*old(cpu) }),
{
    let addr = cpu.get_hl();
    let v = mem.read(addr);
    cpu.set_e(v);
}

/// Loads the byte at the address in HL into register H.
pub fn ld_h_hlp(cpu: &mut Cpu, mem: &Memory)
    requires
        mem.wf(),
    ensures
        *final(cpu) == (Cpu { h: mem.spec_read(u16_of(old(cpu).h, old(cpu).l)), ..*old(cpu) }),
{
    let addr = cpu.get_hl();
    let v = mem.read(addr);
    cpu.set_h(v);
}

/// Loads the byte at the address in HL into register L.
pub fn ld_l_hlp(cpu: &mut Cpu, mem: &Memory)
    requires
        mem.wf(),
    ensures
        *final(cpu) == (Cpu { l: mem.spec_read(u16_of(old(cpu).h, old(cpu).l)), ..*old(cpu) }),
{
    let addr = cpu.get_hl();
    let v = mem.read(addr);
    cpu.set_l(v);
}

/// Loads the byte at the immediate address (high byte first) into A.
pub fn ld_a_u16p(cpu: &mut Cpu, h: u8, l: u8, mem: &Memory)
    requires
        mem.wf(),
    ensures
        *final(cpu) == (Cpu { a: mem.spec_read(u16_of(h, l)), ..*old(cpu) }),
{
    let v = mem.read(Cpu::get_u16(h, l));
    cpu.set_a(v);
}

/// Stores register B at the address in HL.
pub fn ld_hlp_b(cpu: &mut Cpu, mem: &mut Memory)
    requires
        old(mem).wf(),
    ensures
        final(mem).wf(),
        *final(cpu) == *old(cpu),
        mem_after_write(*old(mem), u16_of(old(cpu).h, old(cpu).l), old(cpu).b, *final(mem)),
{
    let addr = cpu.get_hl();
    let v = cpu.get_b();
    mem.write(addr, v);
}

/// Stores register C at the address in HL.
pub fn ld_hlp_c(cpu: &mut Cpu, mem: &mut Memory)
    requires
        old(mem).wf(),
    ensures
        final(mem).wf(),
        *final(cpu) == *old(cpu),
        mem_after_write(*old(mem), u16_of(old(cpu).h, old(cpu).l), old(cpu).c, *final(mem)),
{
    let addr = cpu.get_hl();
    let v = cpu.get_c();
    mem.write(addr, v);
}

/// Stores register D at the address in HL.
pub fn ld_hlp_d(cpu: &mut Cpu, mem: &mut Memory)
    requires
        old(mem).wf(),
    ensures
        final(mem).wf(),
        *final(cpu) == *old(cpu),
        mem_after_write(*old(mem), u16_of(old(cpu).h, old(cpu).l), old(cpu).d, *final(mem)),
{
    let addr = cpu.get_hl();
    let v = cpu.get_d();
    mem.write(addr, v);
}

/// Stores register E at the address in HL.
pub fn ld_hlp_e(cpu: &mut Cpu, mem: &mut Memory)
    requires
        old(mem).wf(),
    ensures
        final(mem).wf(),
        *final(cpu) == *old(cpu),
        mem_after_write(*old(mem), u16_of(old(cpu).h, old(cpu).l), old(cpu).e, *final(mem)),
{
    let addr = cpu.get_hl();
    let v = cpu.get_e();
    mem.write(addr, v);
}

/// Stores register H at the address in HL.
pub fn ld_hlp_h(cpu: &mut Cpu, mem: &mut Memory)
    requires
        old(mem).wf(),
    ensures
        final(mem).wf(),
        *final(cpu) == *old(cpu),
        mem_after_write(*old(mem), u16_of(old(cpu).h, old(cpu).l), old(cpu).h, *final(mem)),
{
    let addr = cpu.get_hl();
    let v = cpu.get_h();
    mem.write(addr, v);
}

/// Stores register L at the address in HL.
pub fn ld_hlp_l(cpu: &mut Cpu, mem: &mut Memory)
    requires
        old(mem).wf(),
    ensures
        final(mem).wf(),
        *final(cpu) == *old(cpu),
        mem_after_write(*old(mem), u16_of(old(cpu).h, old(cpu).l), old(cpu).l, *final(mem)),
{
    let addr = cpu.get_hl();
    let v = cpu.get_l();
    mem.write(addr, v);
}

/// Stores register A at the address in HL.
pub fn ld_hlp_a(cpu: &mut Cpu, mem: &mut Memory)
    requires
        old(mem).wf(),
    ensures
        final(mem).wf(),
        *final(cpu) == *old(cpu),
        mem_after_write(*old(mem), u16_of(old(cpu).h, old(cpu).l), old(cpu).a, *final(mem)),
{
    let addr = cpu.get_hl();
    let v = cpu.get_a();
    mem.write(addr, v);
}

/// Stores the immediate byte at the address in HL.
pub fn ld_hlp_u8(cpu: &mut Cpu, n: u8, mem: &mut Memory)
    requires
        old(mem).wf(),
    ensures
        final(mem).wf(),
        *final(cpu) == *old(cpu),
        mem_after_write(*old(mem), u16_of(old(cpu).h, old(cpu).l), n, *final(mem)),
{
    let addr = cpu.get_hl();
    mem.write(addr, n);
}

/// Stores register A at the address in BC.
pub fn ld_bcp_a(cpu: &mut Cpu, mem: &mut Memory)
    requires
        old(mem).wf(),
    ensures
        final(mem).wf(),
        *final(cpu) == *old(cpu),
        mem_after_write(*old(mem), u16_of(old(cpu).b, old(cpu).c), old(cpu).a, *final(mem)),
{
    let addr = cpu.get_bc();
    let v = cpu.get_a();
    mem.write(addr, v);
}

/// Stores register A at the address in DE.
pub fn ld_dep_a(cpu: &mut Cpu, mem: &mut Memory)
    requires
        old(mem).wf(),
    ensures
        final(mem).wf(),
        *final(cpu) == *old(cpu),
        mem_after_write(*old(mem), u16_of(old(cpu).d, old(cpu).e), old(cpu).a, *final(mem)),
{
    let addr = cpu.get_de();
    let v = cpu.get_a();
    mem.write(addr, v);
}

/// Stores register A at the immediate address (high byte first).
pub fn ld_u16p_a(cpu: &mut Cpu, h: u8, l: u8, mem: &mut Memory)
    requires
        old(mem).wf(),
    ensures
        final(mem).wf(),
        *final(cpu) == *old(cpu),
        mem_after_write(*old(mem), u16_of(h, l), old(cpu).a, *final(mem)),
{
    let v = cpu.get_a();
    mem.write(Cpu::get_u16(h, l), v);
}

/// Loads the high-page byte at `0xFF00 + C` into register A.
pub fn ld_a_hram_c(cpu: &mut Cpu, mem: &Memory)
    requires
        mem.wf(),
    ensures
        *final(cpu) == (Cpu { a: mem.spec_read((0xFF00 + old(cpu).c) as u16), ..*old(cpu) }),
{
    let v = mem.read(0xFF00 + cpu.get_c() as u16);
    cpu.set_a(v);
}

/// Stores register A at the high-page address `0xFF00 + C`.
pub fn ld_hram_c_a(cpu: &mut Cpu, mem: &mut Memory)
    requires
        old(mem).wf(),
    ensures
        final(mem).wf(),
        *final(cpu) == *old(cpu),
        mem_after_write(*old(mem), (0xFF00 + old(cpu).c) as u16, old(cpu).a, *final(mem)),
{
    let v = cpu.get_a();
    let addr = 0xFF00 + cpu.get_c() as u16;
    mem.write(addr, v);
}

/// Loads the byte at the address in HL into A, then decrements HL.
pub fn ldd_a_hlp(cpu: &mut Cpu, mem: &Memory)
    requires
        mem.wf(),
    ensures
        ({
            let hl = u16_of(old(cpu).h, old(cpu).l);
            *final(cpu) == (Cpu {
                a: mem.spec_read(hl),
                h: high_byte(wsub16(hl, 1)),
                l: low_byte(wsub16(hl, 1)),
                ..*old(cpu)
            })
        }),
{
    let addr = cpu.get_hl();
    let v = mem.read(addr);
    cpu.set_a(v);
    cpu.set_hl(addr.wrapping_sub(1));
}

/// Stores A at the address in HL, then decrements HL.
pub fn ldd_hlp_a(cpu: &mut Cpu, mem: &mut Memory)
    requires
        old(mem).wf(),
    ensures
        final(mem).wf(),
        ({
            let hl = u16_of(old(cpu).h, old(cpu).l);
            &&& *final(cpu) == (Cpu {
                h: high_byte(wsub16(hl, 1)),
                l: low_byte(wsub16(hl, 1)),
                ..*old(cpu)
            })
            &&& mem_after_write(*old(mem), hl, old(cpu).a, *final(mem))
        }),
{
    let addr = cpu.get_hl();
    let v = cpu.get_a();
    mem.write(addr, v);
    cpu.set_hl(addr.wrapping_sub(1));
}

/// Loads the byte at the address in HL into A, then increments HL.
pub fn ldi_a_hlp(cpu: &mut Cpu, mem: &Memory)
    requires
        mem.wf(),
    ensures
        ({
            let hl = u16_of(old(cpu).h, old(cpu).l);
            *final(cpu) == (Cpu {
                a: mem.spec_read(hl),
                h: high_byte(wadd16(hl, 1)),
                l: low_byte(wadd16(hl, 1)),
                ..*old(cpu)
            })
        }),
{
    let addr = cpu.get_hl();
    let v = mem.read(addr);
    cpu.set_a(v);
    cpu.set_hl(addr.wrapping_add(1));
}

/// Stores A at the address in HL, then increments HL.
pub fn ldi_hlp_a(cpu: &mut Cpu, mem: &mut Memory)
    requires
        old(mem).wf(),
    ensures
        final(mem).wf(),
        ({
            let hl = u16_of(old(cpu).h, old(cpu).l);
            &&& *final(cpu) == (Cpu {
                h: high_byte(wadd16(hl, 1)),
                l: low_byte(wadd16(hl, 1)),
                ..*old(cpu)
            })
            &&& mem_after_write(*old(mem), hl, old(cpu).a, *final(mem))
        }),
{
    let addr = cpu.get_hl();
    let v = cpu.get_a();
    mem.write(addr, v);
    cpu.set_hl(addr.wrapping_add(1));
}

/// Loads the high-page byte at `0xFF00 + n` into register A.
pub fn ldh_a_u8(cpu: &mut Cpu, n: u8, mem: &Memory)
    requires
        mem.wf(),
    ensures
        *final(cpu) == (Cpu { a: mem.spec_read((0xFF00 + n) as u16), ..*old(cpu) }),
{
    let v = mem.read(0xFF00 + n as u16);
    cpu.set_a(v);
}

/// Stores register A at the high-page address `0xFF00 + n`.
pub fn ldh_u8_a(cpu: &mut Cpu, n: u8, mem: &mut Memory)
    requires
        old(mem).wf(),
    ensures
        final(mem).wf(),
        *final(cpu) == *old(cpu),
        mem_after_write(*old(mem), (0xFF00 + n) as u16, old(cpu).a, *final(mem)),
{
    let v = cpu.get_a();
    let addr = 0xFF00 + n as u16;
    mem.write(addr, v);
}

/// Loads the immediate word into BC (high byte first).
pub fn ld_bc_u16(cpu: &mut Cpu, h: u8, l: u8)
    ensures
        *final(cpu) == (Cpu { b: h, c: l, ..*old(cpu) }),
{
    cpu.set_b(h);
    cpu.set_c(l);
}

/// Loads the immediate word into DE (high byte first).
pub fn ld_de_u16(cpu: &mut Cpu, h: u8, l: u8)
    ensures
        *final(cpu) == (Cpu { d: h, e: l, ..*old(cpu) }),
{
    cpu.set_d(h);
    cpu.set_e(l);
}

/// Loads the immediate word into HL (high byte first).
pub fn ld_hl_u16(cpu: &mut Cpu, h: u8, l: u8)
    ensures
        *final(cpu) == (Cpu { h: h, l: l, ..*old(cpu) }),
{
    cpu.set_h(h);
    cpu.set_l(l);
}

/// Loads the immediate word into the stack pointer (high byte first).
pub fn ld_sp_u16(cpu: &mut Cpu, h: u8, l: u8)
    ensures
        *final(cpu) == (Cpu { sp: u16_of(h, l), ..*old(cpu) }),
{
    let nn = Cpu::get_u16(h, l);
    cpu.set_sp(nn);
}

/// Copies HL into the stack pointer.
pub fn ld_sp_hl(cpu: &mut Cpu)
    ensures
        *final(cpu) == (Cpu { sp: u16_of(old(cpu).h, old(cpu).l), ..*old(cpu) }),
{
    let hl = cpu.get_hl();
    cpu.set_sp(hl);
}

/// Adds the sign-extended immediate byte to HL (two's complement through a
/// cast), with carry at the bit-15 boundary, half-carry at the bit-3
/// boundary, and zero and subtract cleared, as the tagged engine decodes
/// this opcode.
pub fn ld_hl_sp_i8(cpu: &mut Cpu, n: u8)
    ensures
        ({
            let lhs = u16_of(old(cpu).h, old(cpu).l);
            let rhs = sign_extend(n);
            let result = wadd16(lhs, rhs);
            &&& *final(cpu) == (Cpu {
                h: high_byte(result),
                l: low_byte(result),
                f: final(cpu).f,
                ..*old(cpu)
            })
            &&& flags_post(
                old(cpu).f,
                final(cpu).f,
                false,
                false,
                (lhs & 0x000F) + (rhs & 0x000F) > 0x000F,
                lhs + rhs > 0xFFFF,
            )
        }),
{
    let lhs = cpu.get_hl();
    let rhs = (n as i8) as u16;

    proof {
        lemma_u16_masks(lhs);
        lemma_u16_masks(rhs);
    }
    cpu.flag(Flag::C, lhs.checked_add(rhs).is_none());
    cpu.flag(Flag::H, (lhs & 0x000F) + (rhs & 0x000F) > 0x000F);

    cpu.set_hl(lhs.wrapping_add(rhs));

    cpu.flag(Flag::Z, false);
    cpu.flag(Flag::N, false);
}

/// Parks a disable-interrupts transition, which the scheduler commits one
/// instruction later.
pub fn di(cpu: &mut Cpu)
    ensures
        *final(cpu) == (Cpu { pending_mie: Some(false), ..*old(cpu) }),
{
    cpu.pending_mie = Some(false);
}

/// Parks an enable-interrupts transition, which the scheduler commits one
/// instruction later (the documented one-instruction latency).
pub fn ei(cpu: &mut Cpu)
    ensures
        *final(cpu) == (Cpu { pending_mie: Some(true), ..*old(cpu) }),
{
    cpu.pending_mie = Some(true);
}

/// Bitwise-ors register A into the accumulator.
pub fn or_a(cpu: &mut Cpu)
    ensures
        ({
            let result = old(cpu).a | old(cpu).a;
            &&& *final(cpu) == (Cpu { a: result, f: final(cpu).f, ..*old(cpu) })
            &&& flags_post(old(cpu).f, final(cpu).f, result == 0, false, false, false)
        }),
{
    let v = cpu.get_a();
    let result = cpu.get_a() | v;
    cpu.set_a(result);

    cpu.flag(Flag::N, false);
    cpu.flag(Flag::H, false);
    cpu.flag(Flag::C, false);
    cpu.flag(Flag::Z, result == 0);
}

/// Bitwise-ors register B into the accumulator.
pub fn or_b(cpu: &mut Cpu)
    ensures
        ({
            let result = old(cpu).a | old(cpu).b;
            &&& *final(cpu) == (Cpu { a: result, f: final(cpu).f, ..*old(cpu) })
            &&& flags_post(old(cpu).f, final(cpu).f, result == 0, false, false, false)
        }),
{
    let v = cpu.get_b();
    let result = cpu.get_a() | v;
    cpu.set_a(result);

    cpu.flag(Flag::N, false);
    cpu.flag(Flag::H, false);
    cpu.flag(Flag::C, false);
    cpu.flag(Flag::Z, result == 0);
}

/// Bitwise-ors register C into the accumulator.
pub fn or_c(cpu: &mut Cpu)
    ensures
        ({
            let result = old(cpu).a | old(cpu).c;
            &&& *final(cpu) == (Cpu { a: result, f: final(cpu).f, ..*old(cpu) })
            &&& flags_post(old(cpu).f, final(cpu).f, result == 0, false, false, false)
        }),
{
    let v = cpu.get_c();
    let result = cpu.get_a() | v;
    cpu.set_a(result);

    cpu.flag(Flag::N, false);
    cpu.flag(Flag::H, false);
    cpu.flag(Flag::C, false);
    cpu.flag(Flag::Z, result == 0);
}

/// Bitwise-ors register D into the accumulator.
pub fn or_d(cpu: &mut Cpu)
    ensures
        ({
            let result = old(cpu).a | old(cpu).d;
            &&& *final(cpu) == (Cpu { a: result, f: final(cpu).f, ..*old(cpu) })
            &&& flags_post(old(cpu).f, final(cpu).f, result == 0, false, false, false)
        }),
{
    let v = cpu.get_d();
    let result = cpu.get_a() | v;
    cpu.set_a(result);

    cpu.flag(Flag::N, false);
    cpu.flag(Flag::H, false);
    cpu.flag(Flag::C, false);
    cpu.flag(Flag::Z, result == 0);
}

/// Bitwise-ors register E into the accumulator.
pub fn or_e(cpu: &mut Cpu)
    ensures
        ({
            let result = old(cpu).a | old(cpu).e;
            &&& *final(cpu) == (Cpu { a: result, f: final(cpu).f, ..*old(cpu) })
            &&& flags_post(old(cpu).f, final(cpu).f, result == 0, false, false, false)
        }),
{
    let v = cpu.get_e();
    let result = cpu.get_a() | v;
    cpu.set_a(result);

    cpu.flag(Flag::N, false);
    cpu.flag(Flag::H, false);
    cpu.flag(Flag::C, false);
    cpu.flag(Flag::Z, result == 0);
}

/// Bitwise-ors register H into the accumulator.
pub fn or_h(cpu: &mut Cpu)
    ensures
        ({
            let result = old(cpu).a | old(cpu).h;
            &&& *final(cpu) == (Cpu { a: result, f: final(cpu).f, ..*old(cpu) })
            &&& flags_post(old(cpu).f, final(cpu).f, result == 0, false, false, false)
        }),
{
    let v = cpu.get_h();
    let result = cpu.get_a() | v;
    cpu.set_a(result);

    cpu.flag(Flag::N, false);
    cpu.flag(Flag::H, false);
    cpu.flag(Flag::C, false);
    cpu.flag(Flag::Z, result == 0);
}

/// Bitwise-ors register L into the accumulator.
pub fn or_l(cpu: &mut Cpu)
    ensures
        ({
            let result = old(cpu).a | old(cpu).l;
            &&& *final(cpu) == (Cpu { a: result, f: final(cpu).f, ..*old(cpu) })
            &&& flags_post(old(cpu).f, final(cpu).f, result == 0, false, false, false)
        }),
{
    let v = cpu.get_l();
    let result = cpu.get_a() | v;
    cpu.set_a(result);

    cpu.flag(Flag::N, false);
    cpu.flag(Flag::H, false);
    cpu.flag(Flag::C, false);
    cpu.flag(Flag::Z, result == 0);
}

/// Bitwise-ors the byte at the address in HL into the accumulator.
pub fn or_hlp(cpu: &mut Cpu, mem: &Memory)
    requires
        mem.wf(),
    ensures
        ({
            let result = old(cpu).a | mem.spec_read(u16_of(old(cpu).h, old(cpu).l));
            &&& *final(cpu) == (Cpu { a: result, f: final(cpu).f, ..*old(cpu) })
            &&& flags_post(old(cpu).f, final(cpu).f, result == 0, false, false, false)
        }),
{
    let addr = cpu.get_hl();
    let v = mem.read(addr);
    let result = cpu.get_a() | v;
    cpu.set_a(result);

    cpu.flag(Flag::N, false);
    cpu.flag(Flag::H, false);
    cpu.flag(Flag::C, false);
    cpu.flag(Flag::Z, result == 0);
}

/// Bitwise-ors the immediate byte into the accumulator.
pub fn or_u8(cpu: &mut Cpu, n: u8)
    ensures
        ({
            let result = old(cpu).a | n;
            &&& *final(cpu) == (Cpu { a: result, f: final(cpu).f, ..*old(cpu) })
            &&& flags_post(old(cpu).f, final(cpu).f, result == 0, false, false, false)
        }),
{
    let v = n;
    let result = cpu.get_a() | v;
    cpu.set_a(result);

    cpu.flag(Flag::N, false);
    cpu.flag(Flag::H, false);
    cpu.flag(Flag::C, false);
    cpu.flag(Flag::Z, result == 0);
}

/// Bitwise-ands register A into the accumulator.
pub fn and_a(cpu: &mut Cpu)
    ensures
        ({
            let result = old(cpu).a & old(cpu).a;
            &&& *final(cpu) == (Cpu { a: result, f: final(cpu).f, ..*old(cpu) })
            &&& flags_post(old(cpu).f, final(cpu).f, result == 0, false, true, false)
        }),
{
    let v = cpu.get_a();
    let result = cpu.get_a() & v;
    cpu.set_a(result);

    cpu.flag(Flag::N, false);
    cpu.flag(Flag::H, true);
    cpu.flag(Flag::C, false);
    cpu.flag(Flag::Z, result == 0);
}

/// Bitwise-ands register B into the accumulator.
pub fn and_b(cpu: &mut Cpu)
    ensures
        ({
            let result = old(cpu).a & old(cpu).b;
            &&& *final(cpu) == (Cpu { a: result, f: final(cpu).f, ..*old(cpu) })
            &&& flags_post(old(cpu).f, final(cpu).f, result == 0, false, true, false)
        }),
{
    let v = cpu.get_b();
    let result = cpu.get_a() & v;
    cpu.set_a(result);

    cpu.flag(Flag::N, false);
    cpu.flag(Flag::H, true);
    cpu.flag(Flag::C, false);
    cpu.flag(Flag::Z, result == 0);
}

/// Bitwise-ands register C into the accumulator.
pub fn and_c(cpu: &mut Cpu)
    ensures
        ({
            let result = old(cpu).a & old(cpu).c;
            &&& *final(cpu) == (Cpu { a: result, f: final(cpu).f, ..*old(cpu) })
            &&& flags_post(old(cpu).f, final(cpu).f, result == 0, false, true, false)
        }),
{
    let v = cpu.get_c();
    let result = cpu.get_a() & v;
    cpu.set_a(result);

    cpu.flag(Flag::N, false);
    cpu.flag(Flag::H, true);
    cpu.flag(Flag::C, false);
    cpu.flag(Flag::Z, result == 0);
}

/// Bitwise-ands register D into the accumulator.
pub fn and_d(cpu: &mut Cpu)
    ensures
        ({
            let result = old(cpu).a & old(cpu).d;
            &&& *final(cpu) == (Cpu { a: result, f: final(cpu).f, ..*old(cpu) })
            &&& flags_post(old(cpu).f, final(cpu).f, result == 0, false, true, false)
        }),
{
    let v = cpu.get_d();
    let result = cpu.get_a() & v;
    cpu.set_a(result);

    cpu.flag(Flag::N, false);
    cpu.flag(Flag::H, true);
    cpu.flag(Flag::C, false);
    cpu.flag(Flag::Z, result == 0);
}

/// Bitwise-ands register E into the accumulator.
pub fn and_e(cpu: &mut Cpu)
    ensures
        ({
            let result = old(cpu).a & old(cpu).e;
            &&& *final(cpu) == (Cpu { a: result, f: final(cpu).f, ..*old(cpu) })
            &&& flags_post(old(cpu).f, final(cpu).f, result == 0, false, true, false)
        }),
{
    let v = cpu.get_e();
    let result = cpu.get_a() & v;
    cpu.set_a(result);

    cpu.flag(Flag::N, false);
    cpu.flag(Flag::H, true);
    cpu.flag(Flag::C, false);
    cpu.flag(Flag::Z, result == 0);
}

/// Bitwise-ands register H into the accumulator.
pub fn and_h(cpu: &mut Cpu)
    ensures
        ({
            let result = old(cpu).a & old(cpu).h;
            &&& *final(cpu) == (Cpu { a: result, f: final(cpu).f, ..*old(cpu) })
            &&& flags_post(old(cpu).f, final(cpu).f, result == 0, false, true, false)
        }),
{
    let v = cpu.get_h();
    let result = cpu.get_a() & v;
    cpu.set_a(result);

    cpu.flag(Flag::N, false);
    cpu.flag(Flag::H, true);
    cpu.flag(Flag::C, false);
    cpu.flag(Flag::Z, result == 0);
}

/// Bitwise-ands register L into the accumulator.
pub fn and_l(cpu: &mut Cpu)
    ensures
        ({
            let result = old(cpu).a & old(cpu).l;
            &&& *final(cpu) == (Cpu { a: result, f: final(cpu).f, ..*old(cpu) })
            &&& flags_post(old(cpu).f, final(cpu).f, result == 0, false, true, false)
        }),
{
    let v = cpu.get_l();
    let result = cpu.get_a() & v;
    cpu.set_a(result);

    cpu.flag(Flag::N, false);
    cpu.flag(Flag::H, true);
    cpu.flag(Flag::C, false);
    cpu.flag(Flag::Z, result == 0);
}

/// Bitwise-ands the byte at the address in HL into the accumulator.
pub fn and_hlp(cpu: &mut Cpu, mem: &Memory)
    requires
        mem.wf(),
    ensures
        ({
            let result = old(cpu).a & mem.spec_read(u16_of(old(cpu).h, old(cpu).l));
            &&& *final(cpu) == (Cpu { a: result, f: final(cpu).f, ..*old(cpu) })
            &&& flags_post(old(cpu).f, final(cpu).f, result == 0, false, true, false)
        }),
{
    let addr = cpu.get_hl();
    let v = mem.read(addr);
    let result = cpu.get_a() & v;
    cpu.set_a(result);

    cpu.flag(Flag::N, false);
    cpu.flag(Flag::H, true);
    cpu.flag(Flag::C, false);
    cpu.flag(Flag::Z, result == 0);
}

/// Bitwise-ands the immediate byte into the accumulator.
pub fn and_u8(cpu: &mut Cpu, n: u8)
    ensures
        ({
            let result = old(cpu).a & n;
            &&& *final(cpu) == (Cpu { a: result, f: final(cpu).f, ..*old(cpu) })
            &&& flags_post(old(cpu).f, final(cpu).f, result == 0, false, true, false)
        }),
{
    let v = n;
    let result = cpu.get_a() & v;
    cpu.set_a(result);

    cpu.flag(Flag::N, false);
    cpu.flag(Flag::H, true);
    cpu.flag(Flag::C, false);
    cpu.flag(Flag::Z, result == 0);
}

/// Bitwise-xors the accumulator with itself, leaving zero.
pub fn xor_a(cpu: &mut Cpu)
    ensures
        ({
            let result = old(cpu).a ^ old(cpu).a;
            &&& *final(cpu) == (Cpu { a: result, f: final(cpu).f, ..*old(cpu) })
            &&& flags_post(old(cpu).f, final(cpu).f, result == 0, false, false, false)
        }),
{
    let v = cpu.get_a();
    let result = cpu.get_a() ^ v;
    cpu.set_a(result);

    cpu.flag(Flag::N, false);
    cpu.flag(Flag::H, false);
    cpu.flag(Flag::C, false);
    cpu.flag(Flag::Z, result == 0);
}

/// Bitwise-xors register C into the accumulator.
pub fn xor_c(cpu: &mut Cpu)
    ensures
        ({
            let result = old(cpu).a ^ old(cpu).c;
            &&& *final(cpu) == (Cpu { a: result, f: final(cpu).f, ..*old(cpu) })
            &&& flags_post(old(cpu).f, final(cpu).f, result == 0, false, false, false)
        }),
{
    let v = cpu.get_c();
    let result = cpu.get_a() ^ v;
    cpu.set_a(result);

    cpu.flag(Flag::N, false);
    cpu.flag(Flag::H, false);
    cpu.flag(Flag::C, false);
    cpu.flag(Flag::Z, result == 0);
}
/// Jumps to the immediate address (high byte first).
pub fn jp_u16(cpu: &mut Cpu, h: u8, l: u8)
    ensures
        *final(cpu) == (Cpu { pc: u16_of(h, l), ..*old(cpu) }),
{
    let nn = Cpu::get_u16(h, l);
    cpu.set_pc(nn);
}

/// Jumps to the immediate address when the Z flag is reset.
pub fn jp_nz_u16(cpu: &mut Cpu, h: u8, l: u8)
    ensures
        *final(cpu) == if !flag_of(old(cpu).f, Flag::Z) {
            (Cpu { pc: u16_of(h, l), ..*old(cpu) })
        } else {
            *old(cpu)
        },
{
    if !cpu.get_flag(Flag::Z) {
        jp_u16(cpu, h, l);
    }
}

/// Jumps to the immediate address when the Z flag is set.
pub fn jp_z_u16(cpu: &mut Cpu, h: u8, l: u8)
    ensures
        *final(cpu) == if flag_of(old(cpu).f, Flag::Z) {
            (Cpu { pc: u16_of(h, l), ..*old(cpu) })
        } else {
            *old(cpu)
        },
{
    if cpu.get_flag(Flag::Z) {
        jp_u16(cpu, h, l);
    }
}

/// Jumps to the immediate address when the C flag is reset.
pub fn jp_nc_u16(cpu: &mut Cpu, h: u8, l: u8)
    ensures
        *final(cpu) == if !flag_of(old(cpu).f, Flag::C) {
            (Cpu { pc: u16_of(h, l), ..*old(cpu) })
        } else {
            *old(cpu)
        },
{
    if !cpu.get_flag(Flag::C) {
        jp_u16(cpu, h, l);
    }
}

/// Jumps to the immediate address when the C flag is set.
pub fn jp_c_u16(cpu: &mut Cpu, h: u8, l: u8)
    ensures
        *final(cpu) == if flag_of(old(cpu).f, Flag::C) {
            (Cpu { pc: u16_of(h, l), ..*old(cpu) })
        } else {
            *old(cpu)
        },
{
    if cpu.get_flag(Flag::C) {
        jp_u16(cpu, h, l);
    }
}

/// Jumps to the address in HL.
pub fn jp_hl(cpu: &mut Cpu)
    ensures
        *final(cpu) == (Cpu { pc: u16_of(old(cpu).h, old(cpu).l), ..*old(cpu) }),
{
    let hl = cpu.get_hl();
    cpu.set_pc(hl);
}

/// Relative jump: adds the sign-extended offset to the program counter.
pub fn jpr(cpu: &mut Cpu, n: u8)
    ensures
        *final(cpu) == (Cpu { pc: wadd16(old(cpu).pc, sign_extend(n)), ..*old(cpu) }),
{
    cpu.pc = cpu.pc.wrapping_add((n as i8) as u16);
}

/// Relative jump when the Z flag is reset.
pub fn jpr_nz(cpu: &mut Cpu, n: u8)
    ensures
        *final(cpu) == if !flag_of(old(cpu).f, Flag::Z) {
            (Cpu { pc: wadd16(old(cpu).pc, sign_extend(n)), ..*old(cpu) })
        } else {
            *old(cpu)
        },
{
    if !cpu.get_flag(Flag::Z) {
        jpr(cpu, n);
    }
}

/// Relative jump when the Z flag is set.
pub fn jpr_z(cpu: &mut Cpu, n: u8)
    ensures
        *final(cpu) == if flag_of(old(cpu).f, Flag::Z) {
            (Cpu { pc: wadd16(old(cpu).pc, sign_extend(n)), ..*old(cpu) })
        } else {
            *old(cpu)
        },
{
    if cpu.get_flag(Flag::Z) {
        jpr(cpu, n);
    }
}

/// Relative jump when the C flag is reset.
pub fn jpr_nc(cpu: &mut Cpu, n: u8)
    ensures
        *final(cpu) == if !flag_of(old(cpu).f, Flag::C) {
            (Cpu { pc: wadd16(old(cpu).pc, sign_extend(n)), ..*old(cpu) })
        } else {
            *old(cpu)
        },
{
    if !cpu.get_flag(Flag::C) {
        jpr(cpu, n);
    }
}

/// Relative jump when the C flag is set.
pub fn jpr_c(cpu: &mut Cpu, n: u8)
    ensures
        *final(cpu) == if flag_of(old(cpu).f, Flag::C) {
            (Cpu { pc: wadd16(old(cpu).pc, sign_extend(n)), ..*old(cpu) })
        } else {
            *old(cpu)
        },
{
    if cpu.get_flag(Flag::C) {
        jpr(cpu, n);
    }
}

/// Increments register A: half-carry fires when the low nibble was
/// 0xF, subtract clears, zero tracks the result, and carry stays put.
pub fn inc_a(cpu: &mut Cpu)
    ensures
        ({
            let result = wadd8(old(cpu).a, 1);
            &&& *final(cpu) == (Cpu { a: result, f: final(cpu).f, ..*old(cpu) })
            &&& flags_post(
                old(cpu).f,
                final(cpu).f,
                result == 0,
                false,
                old(cpu).a & 0x0F == 0x0F,
                flag_of(old(cpu).f, Flag::C),
            )
        }),
{
    let v = cpu.get_a();
    let result = v.wrapping_add(1);
    cpu.set_a(result);

    cpu.flag(Flag::H, v & 0x0F == 0x0F);
    cpu.flag(Flag::Z, result == 0);
    cpu.flag(Flag::N, false);
}

/// Decrements register A: half-carry fires when a borrow crosses
/// the nibble boundary, subtract sets, zero tracks the result, and carry
/// stays put.
pub fn dec_a(cpu: &mut Cpu)
    ensures
        ({
            let result = wsub8(old(cpu).a, 1);
            &&& *final(cpu) == (Cpu { a: result, f: final(cpu).f, ..*old(cpu) })
            &&& flags_post(
                old(cpu).f,
                final(cpu).f,
                result == 0,
                true,
                old(cpu).a & 0x0F == 0x00,
                flag_of(old(cpu).f, Flag::C),
            )
        }),
{
    let v = cpu.get_a();
    let result = v.wrapping_sub(1);
    cpu.set_a(result);

    cpu.flag(Flag::H, v & 0x0F == 0x00);
    cpu.flag(Flag::Z, result == 0);
    cpu.flag(Flag::N, true);
}

/// Increments register B: half-carry fires when the low nibble was
/// 0xF, subtract clears, zero tracks the result, and carry stays put.
pub fn inc_b(cpu: &mut Cpu)
    ensures
        ({
            let result = wadd8(old(cpu).b, 1);
            &&& *final(cpu) == (Cpu { b: result, f: final(cpu).f, ..*old(cpu) })
            &&& flags_post(
                old(cpu).f,
                final(cpu).f,
                result == 0,
                false,
                old(cpu).b & 0x0F == 0x0F,
                flag_of(old(cpu).f, Flag::C),
            )
        }),
{
    let v = cpu.get_b();
    let result = v.wrapping_add(1);
    cpu.set_b(result);

    cpu.flag(Flag::H, v & 0x0F == 0x0F);
    cpu.flag(Flag::Z, result == 0);
    cpu.flag(Flag::N, false);
}

/// Decrements register B: half-carry fires when a borrow crosses
/// the nibble boundary, subtract sets, zero tracks the result, and carry
/// stays put.
pub fn dec_b(cpu: &mut Cpu)
    ensures
        ({
            let result = wsub8(old(cpu).b, 1);
            &&& *final(cpu) == (Cpu { b: result, f: final(cpu).f, ..*old(cpu) })
            &&& flags_post(
                old(cpu).f,
                final(cpu).f,
                result == 0,
                true,
                old(cpu).b & 0x0F == 0x00,
                flag_of(old(cpu).f, Flag::C),
            )
        }),
{
    let v = cpu.get_b();
    let result = v.wrapping_sub(1);
    cpu.set_b(result);

    cpu.flag(Flag::H, v & 0x0F == 0x00);
    cpu.flag(Flag::Z, result == 0);
    cpu.flag(Flag::N, true);
}

/// Increments register C: half-carry fires when the low nibble was
/// 0xF, subtract clears, zero tracks the result, and carry stays put.
pub fn inc_c(cpu: &mut Cpu)
    ensures
        ({
            let result = wadd8(old(cpu).c, 1);
            &&& *final(cpu) == (Cpu { c: result, f: final(cpu).f, ..*old(cpu) })
            &&& flags_post(
                old(cpu).f,
                final(cpu).f,
                result == 0,
                false,
                old(cpu).c & 0x0F == 0x0F,
                flag_of(old(cpu).f, Flag::C),
            )
        }),
{
    let v = cpu.get_c();
    let result = v.wrapping_add(1);
    cpu.set_c(result);

    cpu.flag(Flag::H, v & 0x0F == 0x0F);
    cpu.flag(Flag::Z, result == 0);
    cpu.flag(Flag::N, false);
}

/// Decrements register C: half-carry fires when a borrow crosses
/// the nibble boundary, subtract sets, zero tracks the result, and carry
/// stays put.
pub fn dec_c(cpu: &mut Cpu)
    ensures
        ({
            let result = wsub8(old(cpu).c, 1);
            &&& *final(cpu) == (Cpu { c: result, f: final(cpu).f, ..*old(cpu) })
            &&& flags_post(
                old(cpu).f,
                final(cpu).f,
                result == 0,
                true,
                old(cpu).c & 0x0F == 0x00,
                flag_of(old(cpu).f, Flag::C),
            )
        }),
{
    let v = cpu.get_c();
    let result = v.wrapping_sub(1);
    cpu.set_c(result);

    cpu.flag(Flag::H, v & 0x0F == 0x00);
    cpu.flag(Flag::Z, result == 0);
    cpu.flag(Flag::N, true);
}

/// Increments register D: half-carry fires when the low nibble was
/// 0xF, subtract clears, zero tracks the result, and carry stays put.
pub fn inc_d(cpu: &mut Cpu)
    ensures
        ({
            let result = wadd8(old(cpu).d, 1);
            &&& *final(cpu) == (Cpu { d: result, f: final(cpu).f, ..*old(cpu) })
            &&& flags_post(
                old(cpu).f,
                final(cpu).f,
                result == 0,
                false,
                old(cpu).d & 0x0F == 0x0F,
                flag_of(old(cpu).f, Flag::C),
            )
        }),
{
    let v = cpu.get_d();
    let result = v.wrapping_add(1);
    cpu.set_d(result);

    cpu.flag(Flag::H, v & 0x0F == 0x0F);
    cpu.flag(Flag::Z, result == 0);
    cpu.flag(Flag::N, false);
}

/// Decrements register D: half-carry fires when a borrow crosses
/// the nibble boundary, subtract sets, zero tracks the result, and carry
/// stays put.
pub fn dec_d(cpu: &mut Cpu)
    ensures
        ({
            let result = wsub8(old(cpu).d, 1);
            &&& *final(cpu) == (Cpu { d: result, f: final(cpu).f, ..*old(cpu) })
            &&& flags_post(
                old(cpu).f,
                final(cpu).f,
                result == 0,
                true,
                old(cpu).d & 0x0F == 0x00,
                flag_of(old(cpu).f, Flag::C),
            )
        }),
{
    let v = cpu.get_d();
    let result = v.wrapping_sub(1);
    cpu.set_d(result);

    cpu.flag(Flag::H, v & 0x0F == 0x00);
    cpu.flag(Flag::Z, result == 0);
    cpu.flag(Flag::N, true);
}

/// Increments register E: half-carry fires when the low nibble was
/// 0xF, subtract clears, zero tracks the result, and carry stays put.
pub fn inc_e(cpu: &mut Cpu)
    ensures
        ({
            let result = wadd8(old(cpu).e, 1);
            &&& *final(cpu) == (Cpu { e: result, f: final(cpu).f, ..*old(cpu) })
            &&& flags_post(
                old(cpu).f,
                final(cpu).f,
                result == 0,
                false,
                old(cpu).e & 0x0F == 0x0F,
                flag_of(old(cpu).f, Flag::C),
            )
        }),
{
    let v = cpu.get_e();
    let result = v.wrapping_add(1);
    cpu.set_e(result);

    cpu.flag(Flag::H, v & 0x0F == 0x0F);
    cpu.flag(Flag::Z, result == 0);
    cpu.flag(Flag::N, false);
}

/// Decrements register E: half-carry fires when a borrow crosses
/// the nibble boundary, subtract sets, zero tracks the result, and carry
/// stays put.
pub fn dec_e(cpu: &mut Cpu)
    ensures
        ({
            let result = wsub8(old(cpu).e, 1);
            &&& *final(cpu) == (Cpu { e: result, f: final(cpu).f, ..*old(cpu) })
            &&& flags_post(
                old(cpu).f,
                final(cpu).f,
                result == 0,
                true,
                old(cpu).e & 0x0F == 0x00,
                flag_of(old(cpu).f, Flag::C),
            )
        }),
{
    let v = cpu.get_e();
    let result = v.wrapping_sub(1);
    cpu.set_e(result);

    cpu.flag(Flag::H, v & 0x0F == 0x00);
    cpu.flag(Flag::Z, result == 0);
    cpu.flag(Flag::N, true);
}

/// Increments register H: half-carry fires when the low nibble was
/// 0xF, subtract clears, zero tracks the result, and carry stays put.
pub fn inc_h(cpu: &mut Cpu)
    ensures
        ({
            let result = wadd8(old(cpu).h, 1);
            &&& *final(cpu) == (Cpu { h: result, f: final(cpu).f, ..*old(cpu) })
            &&& flags_post(
                old(cpu).f,
                final(cpu).f,
                result == 0,
                false,
                old(cpu).h & 0x0F == 0x0F,
                flag_of(old(cpu).f, Flag::C),
            )
        }),
{
    let v = cpu.get_h();
    let result = v.wrapping_add(1);
    cpu.set_h(result);

    cpu.flag(Flag::H, v & 0x0F == 0x0F);
    cpu.flag(Flag::Z, result == 0);
    cpu.flag(Flag::N, false);
}

/// Decrements register H: half-carry fires when a borrow crosses
/// the nibble boundary, subtract sets, zero tracks the result, and carry
/// stays put.
pub fn dec_h(cpu: &mut Cpu)
    ensures
        ({
            let result = wsub8(old(cpu).h, 1);
            &&& *final(cpu) == (Cpu { h: result, f: final(cpu).f, ..*old(cpu) })
            &&& flags_post(
                old(cpu).f,
                final(cpu).f,
                result == 0,
                true,
                old(cpu).h & 0x0F == 0x00,
                flag_of(old(cpu).f, Flag::C),
            )
        }),
{
    let v = cpu.get_h();
    let result = v.wrapping_sub(1);
    cpu.set_h(result);

    cpu.flag(Flag::H, v & 0x0F == 0x00);
    cpu.flag(Flag::Z, result == 0);
    cpu.flag(Flag::N, true);
}

/// Increments register L: half-carry fires when the low nibble was
/// 0xF, subtract clears, zero tracks the result, and carry stays put.
pub fn inc_l(cpu: &mut Cpu)
    ensures
        ({
            let result = wadd8(old(cpu).l, 1);
            &&& *final(cpu) == (Cpu { l: result, f: final(cpu).f, ..*old(cpu) })
            &&& flags_post(
                old(cpu).f,
                final(cpu).f,
                result == 0,
                false,
                old(cpu).l & 0x0F == 0x0F,
                flag_of(old(cpu).f, Flag::C),
            )
        }),
{
    let v = cpu.get_l();
    let result = v.wrapping_add(1);
    cpu.set_l(result);

    cpu.flag(Flag::H, v & 0x0F == 0x0F);
    cpu.flag(Flag::Z, result == 0);
    cpu.flag(Flag::N, false);
}

/// Decrements register L: half-carry fires when a borrow crosses
/// the nibble boundary, subtract sets, zero tracks the result, and carry
/// stays put.
pub fn dec_l(cpu: &mut Cpu)
    ensures
        ({
            let result = wsub8(old(cpu).l, 1);
            &&& *final(cpu) == (Cpu { l: result, f: final(cpu).f, ..*old(cpu) })
            &&& flags_post(
                old(cpu).f,
                final(cpu).f,
                result == 0,
                true,
                old(cpu).l & 0x0F == 0x00,
                flag_of(old(cpu).f, Flag::C),
            )
        }),
{
    let v = cpu.get_l();
    let result = v.wrapping_sub(1);
    cpu.set_l(result);

    cpu.flag(Flag::H, v & 0x0F == 0x00);
    cpu.flag(Flag::Z, result == 0);
    cpu.flag(Flag::N, true);
}

/// Increments the byte at the address in HL, with the same flag behaviour as the register forms.
pub fn inc_hlp(cpu: &mut Cpu, mem: &mut Memory)
    requires
        old(mem).wf(),
    ensures
        final(mem).wf(),
        ({
            let hl = u16_of(old(cpu).h, old(cpu).l);
            let v = old(mem).spec_read(hl);
            let result = wadd8(v, 1);
            &&& *final(cpu) == (Cpu { f: final(cpu).f, ..*old(cpu) })
            &&& flags_post(
                old(cpu).f,
                final(cpu).f,
                result == 0,
                false,
                v & 0x0F == 0x0F,
                flag_of(old(cpu).f, Flag::C),
            )
            &&& mem_after_write(*old(mem), hl, result, *final(mem))
        }),
{
    let addr = cpu.get_hl();
    let v = mem.read(addr);
    let result = v.wrapping_add(1);
    mem.write(addr, result);

    cpu.flag(Flag::H, v & 0x0F == 0x0F);
    cpu.flag(Flag::Z, result == 0);
    cpu.flag(Flag::N, false);
}

/// Decrements the byte at the address in HL, with the same flag behaviour as the register forms.
pub fn dec_hlp(cpu: &mut Cpu, mem: &mut Memory)
    requires
        old(mem).wf(),
    ensures
        final(mem).wf(),
        ({
            let hl = u16_of(old(cpu).h, old(cpu).l);
            let v = old(mem).spec_read(hl);
            let result = wsub8(v, 1);
            &&& *final(cpu) == (Cpu { f: final(cpu).f, ..*old(cpu) })
            &&& flags_post(
                old(cpu).f,
                final(cpu).f,
                result == 0,
                true,
                v & 0x0F == 0x00,
                flag_of(old(cpu).f, Flag::C),
            )
            &&& mem_after_write(*old(mem), hl, result, *final(mem))
        }),
{
    let addr = cpu.get_hl();
    let v = mem.read(addr);
    let result = v.wrapping_sub(1);
    mem.write(addr, result);

    cpu.flag(Flag::H, v & 0x0F == 0x00);
    cpu.flag(Flag::Z, result == 0);
    cpu.flag(Flag::N, true);
}

/// Compares the accumulator with the immediate byte: the flags of the
/// subtraction `A - n`, with the accumulator left alone.
pub fn cp_u8(cpu: &mut Cpu, n: u8)
    ensures
        ({
            let result = wsub8(old(cpu).a, n);
            &&& *final(cpu) == (Cpu { f: final(cpu).f, ..*old(cpu) })
            &&& flags_post(
                old(cpu).f,
                final(cpu).f,
                result == 0,
                true,
                (old(cpu).a & 0x0F) < (n & 0x0F),
                old(cpu).a < n,
            )
        }),
{
    let a = cpu.get_a();
    cpu.flag(Flag::N, true);
    cpu.flag(Flag::C, a < n);
    cpu.flag(Flag::Z, a.wrapping_sub(n) == 0);
    cpu.flag(Flag::H, (a & 0x0F) < (n & 0x0F));
}

/// Calls the subroutine at the immediate address: the address of the next
/// instruction (three bytes past the opcode) is pushed and control moves to
/// the target.
pub fn call_u16(cpu: &mut Cpu, h: u8, l: u8, mem: &mut Memory)
    requires
        old(mem).wf(),
    ensures
        final(mem).wf(),
        *final(cpu) == (Cpu { pc: u16_of(h, l), sp: wsub16(old(cpu).sp, 2), ..*old(cpu) }),
        mem_after_push(old(cpu).sp, *old(mem), wadd16(old(cpu).pc, 3), *final(mem)),
{
    let ret_addr = cpu.pc.wrapping_add(3);
    cpu.write_u16_to_stack(ret_addr, mem);
    let nn = Cpu::get_u16(h, l);
    cpu.set_pc(nn);
}

/// Calls the subroutine at the immediate address when the Z flag is
/// reset.
pub fn call_nz_u16(cpu: &mut Cpu, h: u8, l: u8, mem: &mut Memory)
    requires
        old(mem).wf(),
    ensures
        final(mem).wf(),
        if !flag_of(old(cpu).f, Flag::Z) {
            &&& *final(cpu) == (Cpu {
                pc: u16_of(h, l),
                sp: wsub16(old(cpu).sp, 2),
                ..*old(cpu)
            })
            &&& mem_after_push(old(cpu).sp, *old(mem), wadd16(old(cpu).pc, 3), *final(mem))
        } else {
            &&& *final(cpu) == *old(cpu)
            &&& *final(mem) == *old(mem)
        },
{
    if !cpu.get_flag(Flag::Z) {
        call_u16(cpu, h, l, mem);
    }
}

/// Calls the subroutine at the immediate address when the Z flag is
/// set.
pub fn call_z_u16(cpu: &mut Cpu, h: u8, l: u8, mem: &mut Memory)
    requires
        old(mem).wf(),
    ensures
        final(mem).wf(),
        if flag_of(old(cpu).f, Flag::Z) {
            &&& *final(cpu) == (Cpu {
                pc: u16_of(h, l),
                sp: wsub16(old(cpu).sp, 2),
                ..*old(cpu)
            })
            &&& mem_after_push(old(cpu).sp, *old(mem), wadd16(old(cpu).pc, 3), *final(mem))
        } else {
            &&& *final(cpu) == *old(cpu)
            &&& *final(mem) == *old(mem)
        },
{
    if cpu.get_flag(Flag::Z) {
        call_u16(cpu, h, l, mem);
    }
}

/// Calls the subroutine at the immediate address when the C flag is
/// reset.
pub fn call_nc_u16(cpu: &mut Cpu, h: u8, l: u8, mem: &mut Memory)
    requires
        old(mem).wf(),
    ensures
        final(mem).wf(),
        if !flag_of(old(cpu).f, Flag::C) {
            &&& *final(cpu) == (Cpu {
                pc: u16_of(h, l),
                sp: wsub16(old(cpu).sp, 2),
                ..*old(cpu)
            })
            &&& mem_after_push(old(cpu).sp, *old(mem), wadd16(old(cpu).pc, 3), *final(mem))
        } else {
            &&& *final(cpu) == *old(cpu)
            &&& *final(mem) == *old(mem)
        },
{
    if !cpu.get_flag(Flag::C) {
        call_u16(cpu, h, l, mem);
    }
}

/// Calls the subroutine at the immediate address when the C flag is
/// set.
pub fn call_c_u16(cpu: &mut Cpu, h: u8, l: u8, mem: &mut Memory)
    requires
        old(mem).wf(),
    ensures
        final(mem).wf(),
        if flag_of(old(cpu).f, Flag::C) {
            &&& *final(cpu) == (Cpu {
                pc: u16_of(h, l),
                sp: wsub16(old(cpu).sp, 2),
                ..*old(cpu)
            })
            &&& mem_after_push(old(cpu).sp, *old(mem), wadd16(old(cpu).pc, 3), *final(mem))
        } else {
            &&& *final(cpu) == *old(cpu)
            &&& *final(mem) == *old(mem)
        },
{
    if cpu.get_flag(Flag::C) {
        call_u16(cpu, h, l, mem);
    }
}

/// Increments BC without touching any flag.
pub fn inc_bc(cpu: &mut Cpu)
    ensures
        ({
            let result = wadd16(u16_of(old(cpu).b, old(cpu).c), 1);
            *final(cpu) == (Cpu { b: high_byte(result), c: low_byte(result), ..*old(cpu) })
        }),
{
    let v = cpu.get_bc();
    cpu.set_bc(v.wrapping_add(1));
}

/// Decrements BC without touching any flag.
pub fn dec_bc(cpu: &mut Cpu)
    ensures
        ({
            let result = wsub16(u16_of(old(cpu).b, old(cpu).c), 1);
            *final(cpu) == (Cpu { b: high_byte(result), c: low_byte(result), ..*old(cpu) })
        }),
{
    let v = cpu.get_bc();
    cpu.set_bc(v.wrapping_sub(1));
}

/// Increments DE without touching any flag.
pub fn inc_de(cpu: &mut Cpu)
    ensures
        ({
            let result = wadd16(u16_of(old(cpu).d, old(cpu).e), 1);
            *final(cpu) == (Cpu { d: high_byte(result), e: low_byte(result), ..*old(cpu) })
        }),
{
    let v = cpu.get_de();
    cpu.set_de(v.wrapping_add(1));
}

/// Decrements DE without touching any flag.
pub fn dec_de(cpu: &mut Cpu)
    ensures
        ({
            let result = wsub16(u16_of(old(cpu).d, old(cpu).e), 1);
            *final(cpu) == (Cpu { d: high_byte(result), e: low_byte(result), ..*old(cpu) })
        }),
{
    let v = cpu.get_de();
    cpu.set_de(v.wrapping_sub(1));
}

/// Increments HL without touching any flag.
pub fn inc_hl(cpu: &mut Cpu)
    ensures
        ({
            let result = wadd16(u16_of(old(cpu).h, old(cpu).l), 1);
            *final(cpu) == (Cpu { h: high_byte(result), l: low_byte(result), ..*old(cpu) })
        }),
{
    let v = cpu.get_hl();
    cpu.set_hl(v.wrapping_add(1));
}

/// Decrements HL without touching any flag.
pub fn dec_hl(cpu: &mut Cpu)
    ensures
        ({
            let result = wsub16(u16_of(old(cpu).h, old(cpu).l), 1);
            *final(cpu) == (Cpu { h: high_byte(result), l: low_byte(result), ..*old(cpu) })
        }),
{
    let v = cpu.get_hl();
    cpu.set_hl(v.wrapping_sub(1));
}

/// Increments the stack pointer without touching any flag.
pub fn inc_sp(cpu: &mut Cpu)
    ensures
        *final(cpu) == (Cpu { sp: wadd16(old(cpu).sp, 1), ..*old(cpu) }),
{
    let v = cpu.get_sp();
    cpu.set_sp(v.wrapping_add(1));
}

/// Decrements the stack pointer without touching any flag.
pub fn dec_sp(cpu: &mut Cpu)
    ensures
        *final(cpu) == (Cpu { sp: wsub16(old(cpu).sp, 1), ..*old(cpu) }),
{
    let v = cpu.get_sp();
    cpu.set_sp(v.wrapping_sub(1));
}

/// Returns from a subroutine: the program counter is popped off the stack.
pub fn ret(cpu: &mut Cpu, mem: &Memory)
    requires
        mem.wf(),
    ensures
        *final(cpu) == (Cpu {
            pc: u16_of(mem.spec_read(wadd16(old(cpu).sp, 1)), mem.spec_read(old(cpu).sp)),
            sp: wadd16(old(cpu).sp, 2),
            ..*old(cpu)
        }),
{
    let addr = cpu.read_u16_from_stack(mem);
    cpu.set_pc(addr);
}

/// Returns from a subroutine when the Z flag is reset.
pub fn ret_nz(cpu: &mut Cpu, mem: &Memory)
    requires
        mem.wf(),
    ensures
        *final(cpu) == if !flag_of(old(cpu).f, Flag::Z) {
            (Cpu {
                pc: u16_of(mem.spec_read(wadd16(old(cpu).sp, 1)), mem.spec_read(old(cpu).sp)),
                sp: wadd16(old(cpu).sp, 2),
                ..*old(cpu)
            })
        } else {
            *old(cpu)
        },
{
    if !cpu.get_flag(Flag::Z) {
        ret(cpu, mem);
    }
}

/// Returns from a subroutine when the Z flag is set.
pub fn ret_z(cpu: &mut Cpu, mem: &Memory)
    requires
        mem.wf(),
    ensures
        *final(cpu) == if flag_of(old(cpu).f, Flag::Z) {
            (Cpu {
                pc: u16_of(mem.spec_read(wadd16(old(cpu).sp, 1)), mem.spec_read(old(cpu).sp)),
                sp: wadd16(old(cpu).sp, 2),
                ..*old(cpu)
            })
        } else {
            *old(cpu)
        },
{
    if cpu.get_flag(Flag::Z) {
        ret(cpu, mem);
    }
}

/// Returns from a subroutine when the C flag is reset.
pub fn ret_nc(cpu: &mut Cpu, mem: &Memory)
    requires
        mem.wf(),
    ensures
        *final(cpu) == if !flag_of(old(cpu).f, Flag::C) {
            (Cpu {
                pc: u16_of(mem.spec_read(wadd16(old(cpu).sp, 1)), mem.spec_read(old(cpu).sp)),
                sp: wadd16(old(cpu).sp, 2),
                ..*old(cpu)
            })
        } else {
            *old(cpu)
        },
{
    if !cpu.get_flag(Flag::C) {
        ret(cpu, mem);
    }
}

/// Returns from a subroutine when the C flag is set.
pub fn ret_c(cpu: &mut Cpu, mem: &Memory)
    requires
        mem.wf(),
    ensures
        *final(cpu) == if flag_of(old(cpu).f, Flag::C) {
            (Cpu {
                pc: u16_of(mem.spec_read(wadd16(old(cpu).sp, 1)), mem.spec_read(old(cpu).sp)),
                sp: wadd16(old(cpu).sp, 2),
                ..*old(cpu)
            })
        } else {
            *old(cpu)
        },
{
    if cpu.get_flag(Flag::C) {
        ret(cpu, mem);
    }
}

/// Returns from an interrupt handler: the program counter is popped and the
/// master-interrupt-enable flag turns on at once.
pub fn ret_i(cpu: &mut Cpu, mem: &Memory)
    requires
        mem.wf(),
    ensures
        *final(cpu) == (Cpu {
            pc: u16_of(mem.spec_read(wadd16(old(cpu).sp, 1)), mem.spec_read(old(cpu).sp)),
            sp: wadd16(old(cpu).sp, 2),
            mie: true,
            ..*old(cpu)
        }),
{
    cpu.set_mie(true);
    let pc = cpu.read_u16_from_stack(mem);
    cpu.set_pc(pc);
}

/// Pushes AF onto the stack.
pub fn push_af(cpu: &mut Cpu, mem: &mut Memory)
    requires
        old(mem).wf(),
    ensures
        final(mem).wf(),
        *final(cpu) == (Cpu { sp: wsub16(old(cpu).sp, 2), ..*old(cpu) }),
        mem_after_push(old(cpu).sp, *old(mem), u16_of(old(cpu).a, old(cpu).f), *final(mem)),
{
    let v = cpu.get_af();
    cpu.write_u16_to_stack(v, mem);
}

/// Pops the top of the stack into AF.
pub fn pop_af(cpu: &mut Cpu, mem: &Memory)
    requires
        mem.wf(),
    ensures
        ({
            let v = u16_of(mem.spec_read(wadd16(old(cpu).sp, 1)), mem.spec_read(old(cpu).sp));
            *final(cpu) == (Cpu {
                a: high_byte(v),
                f: low_byte(v),
                sp: wadd16(old(cpu).sp, 2),
                ..*old(cpu)
            })
        }),
{
    let v = cpu.read_u16_from_stack(mem);
    cpu.set_af(v);
}

/// Pushes BC onto the stack.
pub fn push_bc(cpu: &mut Cpu, mem: &mut Memory)
    requires
        old(mem).wf(),
    ensures
        final(mem).wf(),
        *final(cpu) == (Cpu { sp: wsub16(old(cpu).sp, 2), ..*old(cpu) }),
        mem_after_push(old(cpu).sp, *old(mem), u16_of(old(cpu).b, old(cpu).c), *final(mem)),
{
    let v = cpu.get_bc();
    cpu.write_u16_to_stack(v, mem);
}

/// Pops the top of the stack into BC.
pub fn pop_bc(cpu: &mut Cpu, mem: &Memory)
    requires
        mem.wf(),
    ensures
        ({
            let v = u16_of(mem.spec_read(wadd16(old(cpu).sp, 1)), mem.spec_read(old(cpu).sp));
            *final(cpu) == (Cpu {
                b: high_byte(v),
                c: low_byte(v),
                sp: wadd16(old(cpu).sp, 2),
                ..*old(cpu)
            })
        }),
{
    let v = cpu.read_u16_from_stack(mem);
    cpu.set_bc(v);
}

/// Pushes DE onto the stack.
pub fn push_de(cpu: &mut Cpu, mem: &mut Memory)
    requires
        old(mem).wf(),
    ensures
        final(mem).wf(),
        *final(cpu) == (Cpu { sp: wsub16(old(cpu).sp, 2), ..*old(cpu) }),
        mem_after_push(old(cpu).sp, *old(mem), u16_of(old(cpu).d, old(cpu).e), *final(mem)),
{
    let v = cpu.get_de();
    cpu.write_u16_to_stack(v, mem);
}

/// Pops the top of the stack into DE.
pub fn pop_de(cpu: &mut Cpu, mem: &Memory)
    requires
        mem.wf(),
    ensures
        ({
            let v = u16_of(mem.spec_read(wadd16(old(cpu).sp, 1)), mem.spec_read(old(cpu).sp));
            *final(cpu) == (Cpu {
                d: high_byte(v),
                e: low_byte(v),
                sp: wadd16(old(cpu).sp, 2),
                ..*old(cpu)
            })
        }),
{
    let v = cpu.read_u16_from_stack(mem);
    cpu.set_de(v);
}

/// Pushes HL onto the stack.
pub fn push_hl(cpu: &mut Cpu, mem: &mut Memory)
    requires
        old(mem).wf(),
    ensures
        final(mem).wf(),
        *final(cpu) == (Cpu { sp: wsub16(old(cpu).sp, 2), ..*old(cpu) }),
        mem_after_push(old(cpu).sp, *old(mem), u16_of(old(cpu).h, old(cpu).l), *final(mem)),
{
    let v = cpu.get_hl();
    cpu.write_u16_to_stack(v, mem);
}

/// Pops the top of the stack into HL.
pub fn pop_hl(cpu: &mut Cpu, mem: &Memory)
    requires
        mem.wf(),
    ensures
        ({
            let v = u16_of(mem.spec_read(wadd16(old(cpu).sp, 1)), mem.spec_read(old(cpu).sp));
            *final(cpu) == (Cpu {
                h: high_byte(v),
                l: low_byte(v),
                sp: wadd16(old(cpu).sp, 2),
                ..*old(cpu)
            })
        }),
{
    let v = cpu.read_u16_from_stack(mem);
    cpu.set_hl(v);
}

/// Flips every bit of the accumulator; half-carry and subtract set, zero
/// and carry stay put.
pub fn cpl(cpu: &mut Cpu)
    ensures
        *final(cpu) == (Cpu { a: !old(cpu).a, f: final(cpu).f, ..*old(cpu) }),
        flags_post(
            old(cpu).f,
            final(cpu).f,
            flag_of(old(cpu).f, Flag::Z),
            true,
            true,
            flag_of(old(cpu).f, Flag::C),
        ),
{
    cpu.flag(Flag::H, true);
    cpu.flag(Flag::N, true);
    let v = cpu.get_a();
    cpu.set_a(!v);
}

/// Handles the accumulator forms of the prefixed family that this direct
/// interface exposes: the nibble swap and the reset of bit 0.  Every other
/// follow-up byte leaves the state alone here; the tagged engine decodes
/// the full family.
pub fn prefix(cpu: &mut Cpu, n: u8)
    ensures
        n == 0x37 ==> ({
            let result = (old(cpu).a << 4) | (old(cpu).a >> 4);
            &&& *final(cpu) == (Cpu { a: result, f: final(cpu).f, ..*old(cpu) })
            &&& flags_post(old(cpu).f, final(cpu).f, result == 0, false, false, false)
        }),
        n == 0x87 ==> *final(cpu) == (Cpu { a: old(cpu).a & 0xFE, ..*old(cpu) }),
        n != 0x37 && n != 0x87 ==> *final(cpu) == *old(cpu),
{
    match n {
        0x37 => {
            let v = cpu.get_a();
            let result = (v << 4) | (v >> 4);
            cpu.set_a(result);
            cpu.flag(Flag::N, false);
            cpu.flag(Flag::H, false);
            cpu.flag(Flag::C, false);
            cpu.flag(Flag::Z, result == 0);
        },
        0x87 => {
            let v = cpu.get_a();
            cpu.set_a(v & 0xFE);
        },
        _ => {},
    }
}

/// Pushes the address of the next instruction and restarts at the fixed
/// vector `0x0`.
pub fn rst_0(cpu: &mut Cpu, mem: &mut Memory)
    requires
        old(mem).wf(),
    ensures
        final(mem).wf(),
        *final(cpu) == (Cpu { pc: 0, sp: wsub16(old(cpu).sp, 2), ..*old(cpu) }),
        mem_after_push(old(cpu).sp, *old(mem), wadd16(old(cpu).pc, 1), *final(mem)),
{
    let ret_addr = cpu.pc.wrapping_add(1);
    cpu.write_u16_to_stack(ret_addr, mem);
    cpu.set_pc(0);
}

/// Pushes the address of the next instruction and restarts at the fixed
/// vector `0x8`.
pub fn rst_8(cpu: &mut Cpu, mem: &mut Memory)
    requires
        old(mem).wf(),
    ensures
        final(mem).wf(),
        *final(cpu) == (Cpu { pc: 8, sp: wsub16(old(cpu).sp, 2), ..*old(cpu) }),
        mem_after_push(old(cpu).sp, *old(mem), wadd16(old(cpu).pc, 1), *final(mem)),
{
    let ret_addr = cpu.pc.wrapping_add(1);
    cpu.write_u16_to_stack(ret_addr, mem);
    cpu.set_pc(8);
}

/// Pushes the address of the next instruction and restarts at the fixed
/// vector `0x10`.
pub fn rst_10(cpu: &mut Cpu, mem: &mut Memory)
    requires
        old(mem).wf(),
    ensures
        final(mem).wf(),
        *final(cpu) == (Cpu { pc: 16, sp: wsub16(old(cpu).sp, 2), ..*old(cpu) }),
        mem_after_push(old(cpu).sp, *old(mem), wadd16(old(cpu).pc, 1), *final(mem)),
{
    let ret_addr = cpu.pc.wrapping_add(1);
    cpu.write_u16_to_stack(ret_addr, mem);
    cpu.set_pc(16);
}

/// Pushes the address of the next instruction and restarts at the fixed
/// vector `0x18`.
pub fn rst_18(cpu: &mut Cpu, mem: &mut Memory)
    requires
        old(mem).wf(),
    ensures
        final(mem).wf(),
        *final(cpu) == (Cpu { pc: 24, sp: wsub16(old(cpu).sp, 2), ..*old(cpu) }),
        mem_after_push(old(cpu).sp, *old(mem), wadd16(old(cpu).pc, 1), *final(mem)),
{
    let ret_addr = cpu.pc.wrapping_add(1);
    cpu.write_u16_to_stack(ret_addr, mem);
    cpu.set_pc(24);
}

/// Pushes the address of the next instruction and restarts at the fixed
/// vector `0x20`.
pub fn rst_20(cpu: &mut Cpu, mem: &mut Memory)
    requires
        old(mem).wf(),
    ensures
        final(mem).wf(),
        *final(cpu) == (Cpu { pc: 32, sp: wsub16(old(cpu).sp, 2), ..*old(cpu) }),
        mem_after_push(old(cpu).sp, *old(mem), wadd16(old(cpu).pc, 1), *final(mem)),
{
    let ret_addr = cpu.pc.wrapping_add(1);
    cpu.write_u16_to_stack(ret_addr, mem);
    cpu.set_pc(32);
}

/// Pushes the address of the next instruction and restarts at the fixed
/// vector `0x28`.
pub fn rst_28(cpu: &mut Cpu, mem: &mut Memory)
    requires
        old(mem).wf(),
    ensures
        final(mem).wf(),
        *final(cpu) == (Cpu { pc: 40, sp: wsub16(old(cpu).sp, 2), ..*old(cpu) }),
        mem_after_push(old(cpu).sp, *old(mem), wadd16(old(cpu).pc, 1), *final(mem)),
{
    let ret_addr = cpu.pc.wrapping_add(1);
    cpu.write_u16_to_stack(ret_addr, mem);
    cpu.set_pc(40);
}

/// Pushes the address of the next instruction and restarts at the fixed
/// vector `0x30`.
pub fn rst_30(cpu: &mut Cpu, mem: &mut Memory)
    requires
        old(mem).wf(),
    ensures
        final(mem).wf(),
        *final(cpu) == (Cpu { pc: 48, sp: wsub16(old(cpu).sp, 2), ..*old(cpu) }),
        mem_after_push(old(cpu).sp, *old(mem), wadd16(old(cpu).pc, 1), *final(mem)),
{
    let ret_addr = cpu.pc.wrapping_add(1);
    cpu.write_u16_to_stack(ret_addr, mem);
    cpu.set_pc(48);
}

/// Pushes the address of the next instruction and restarts at the fixed
/// vector `0x38`.
pub fn rst_38(cpu: &mut Cpu, mem: &mut Memory)
    requires
        old(mem).wf(),
    ensures
        final(mem).wf(),
        *final(cpu) == (Cpu { pc: 56, sp: wsub16(old(cpu).sp, 2), ..*old(cpu) }),
        mem_after_push(old(cpu).sp, *old(mem), wadd16(old(cpu).pc, 1), *final(mem)),
{
    let ret_addr = cpu.pc.wrapping_add(1);
    cpu.write_u16_to_stack(ret_addr, mem);
    cpu.set_pc(56);
}

/// Adds register A to the accumulator, with the flag behaviour
/// of an 8-bit add.
pub fn add_a(cpu: &mut Cpu)
    ensures
        ({
            let rhs = old(cpu).a;
            let result = wadd8(old(cpu).a, rhs);
            &&& *final(cpu) == (Cpu { a: result, f: final(cpu).f, ..*old(cpu) })
            &&& flags_post(
                old(cpu).f,
                final(cpu).f,
                result == 0,
                false,
                (old(cpu).a & 0x0F) + (rhs & 0x0F) > 0x0F,
                old(cpu).a + rhs > 0xFF,
            )
        }),
{
    let v = cpu.get_a();
    let a = cpu.get_a();

    proof {
        lemma_low_nibble(a);
        lemma_low_nibble(v);
    }
    let wide: u16 = a as u16 + v as u16;
    cpu.flag(Flag::C, wide > 0xFF);
    cpu.flag(Flag::H, (a & 0x0F) + (v & 0x0F) > 0x0F);

    let result = a.wrapping_add(v);
    cpu.set_a(result);

    cpu.flag(Flag::Z, result == 0);
    cpu.flag(Flag::N, false);
}

/// Adds register B to the accumulator, with the flag behaviour
/// of an 8-bit add.
pub fn add_b(cpu: &mut Cpu)
    ensures
        ({
            let rhs = old(cpu).b;
            let result = wadd8(old(cpu).a, rhs);
            &&& *final(cpu) == (Cpu { a: result, f: final(cpu).f, ..*old(cpu) })
            &&& flags_post(
                old(cpu).f,
                final(cpu).f,
                result == 0,
                false,
                (old(cpu).a & 0x0F) + (rhs & 0x0F) > 0x0F,
                old(cpu).a + rhs > 0xFF,
            )
        }),
{
    let v = cpu.get_b();
    let a = cpu.get_a();

    proof {
        lemma_low_nibble(a);
        lemma_low_nibble(v);
    }
    let wide: u16 = a as u16 + v as u16;
    cpu.flag(Flag::C, wide > 0xFF);
    cpu.flag(Flag::H, (a & 0x0F) + (v & 0x0F) > 0x0F);

    let result = a.wrapping_add(v);
    cpu.set_a(result);

    cpu.flag(Flag::Z, result == 0);
    cpu.flag(Flag::N, false);
}

/// Adds register C to the accumulator, with the flag behaviour
/// of an 8-bit add.
pub fn add_c(cpu: &mut Cpu)
    ensures
        ({
            let rhs = old(cpu).c;
            let result = wadd8(old(cpu).a, rhs);
            &&& *final(cpu) == (Cpu { a: result, f: final(cpu).f, ..*old(cpu) })
            &&& flags_post(
                old(cpu).f,
                final(cpu).f,
                result == 0,
                false,
                (old(cpu).a & 0x0F) + (rhs & 0x0F) > 0x0F,
                old(cpu).a + rhs > 0xFF,
            )
        }),
{
    let v = cpu.get_c();
    let a = cpu.get_a();

    proof {
        lemma_low_nibble(a);
        lemma_low_nibble(v);
    }
    let wide: u16 = a as u16 + v as u16;
    cpu.flag(Flag::C, wide > 0xFF);
    cpu.flag(Flag::H, (a & 0x0F) + (v & 0x0F) > 0x0F);

    let result = a.wrapping_add(v);
    cpu.set_a(result);

    cpu.flag(Flag::Z, result == 0);
    cpu.flag(Flag::N, false);
}

/// Adds register D to the accumulator, with the flag behaviour
/// of an 8-bit add.
pub fn add_d(cpu: &mut Cpu)
    ensures
        ({
            let rhs = old(cpu).d;
            let result = wadd8(old(cpu).a, rhs);
            &&& *final(cpu) == (Cpu { a: result, f: final(cpu).f, ..*old(cpu) })
            &&& flags_post(
                old(cpu).f,
                final(cpu).f,
                result == 0,
                false,
                (old(cpu).a & 0x0F) + (rhs & 0x0F) > 0x0F,
                old(cpu).a + rhs > 0xFF,
            )
        }),
{
    let v = cpu.get_d();
    let a = cpu.get_a();

    proof {
        lemma_low_nibble(a);
        lemma_low_nibble(v);
    }
    let wide: u16 = a as u16 + v as u16;
    cpu.flag(Flag::C, wide > 0xFF);
    cpu.flag(Flag::H, (a & 0x0F) + (v & 0x0F) > 0x0F);

    let result = a.wrapping_add(v);
    cpu.set_a(result);

    cpu.flag(Flag::Z, result == 0);
    cpu.flag(Flag::N, false);
}

/// Adds register E to the accumulator, with the flag behaviour
/// of an 8-bit add.
pub fn add_e(cpu: &mut Cpu)
    ensures
        ({
            let rhs = old(cpu).e;
            let result = wadd8(old(cpu).a, rhs);
            &&& *final(cpu) == (Cpu { a: result, f: final(cpu).f, ..*old(cpu) })
            &&& flags_post(
                old(cpu).f,
                final(cpu).f,
                result == 0,
                false,
                (old(cpu).a & 0x0F) + (rhs & 0x0F) > 0x0F,
                old(cpu).a + rhs > 0xFF,
            )
        }),
{
    let v = cpu.get_e();
    let a = cpu.get_a();

    proof {
        lemma_low_nibble(a);
        lemma_low_nibble(v);
    }
    let wide: u16 = a as u16 + v as u16;
    cpu.flag(Flag::C, wide > 0xFF);
    cpu.flag(Flag::H, (a & 0x0F) + (v & 0x0F) > 0x0F);

    let result = a.wrapping_add(v);
    cpu.set_a(result);

    cpu.flag(Flag::Z, result == 0);
    cpu.flag(Flag::N, false);
}

/// Adds register H to the accumulator, with the flag behaviour
/// of an 8-bit add.
pub fn add_h(cpu: &mut Cpu)
    ensures
        ({
            let rhs = old(cpu).h;
            let result = wadd8(old(cpu).a, rhs);
            &&& *final(cpu) == (Cpu { a: result, f: final(cpu).f, ..*old(cpu) })
            &&& flags_post(
                old(cpu).f,
                final(cpu).f,
                result == 0,
                false,
                (old(cpu).a & 0x0F) + (rhs & 0x0F) > 0x0F,
                old(cpu).a + rhs > 0xFF,
            )
        }),
{
    let v = cpu.get_h();
    let a = cpu.get_a();

    proof {
        lemma_low_nibble(a);
        lemma_low_nibble(v);
    }
    let wide: u16 = a as u16 + v as u16;
    cpu.flag(Flag::C, wide > 0xFF);
    cpu.flag(Flag::H, (a & 0x0F) + (v & 0x0F) > 0x0F);

    let result = a.wrapping_add(v);
    cpu.set_a(result);

    cpu.flag(Flag::Z, result == 0);
    cpu.flag(Flag::N, false);
}

/// Adds register L to the accumulator, with the flag behaviour
/// of an 8-bit add.
pub fn add_l(cpu: &mut Cpu)
    ensures
        ({
            let rhs = old(cpu).l;
            let result = wadd8(old(cpu).a, rhs);
            &&& *final(cpu) == (Cpu { a: result, f: final(cpu).f, ..*old(cpu) })
            &&& flags_post(
                old(cpu).f,
                final(cpu).f,
                result == 0,
                false,
                (old(cpu).a & 0x0F) + (rhs & 0x0F) > 0x0F,
                old(cpu).a + rhs > 0xFF,
            )
        }),
{
    let v = cpu.get_l();
    let a = cpu.get_a();

    proof {
        lemma_low_nibble(a);
        lemma_low_nibble(v);
    }
    let wide: u16 = a as u16 + v as u16;
    cpu.flag(Flag::C, wide > 0xFF);
    cpu.flag(Flag::H, (a & 0x0F) + (v & 0x0F) > 0x0F);

    let result = a.wrapping_add(v);
    cpu.set_a(result);

    cpu.flag(Flag::Z, result == 0);
    cpu.flag(Flag::N, false);
}

/// Adds the byte at the address in HL to the accumulator.
pub fn add_hlp(cpu: &mut Cpu, mem: &Memory)
    requires
        mem.wf(),
    ensures
        ({
            let rhs = mem.spec_read(u16_of(old(cpu).h, old(cpu).l));
            let result = wadd8(old(cpu).a, rhs);
            &&& *final(cpu) == (Cpu { a: result, f: final(cpu).f, ..*old(cpu) })
            &&& flags_post(
                old(cpu).f,
                final(cpu).f,
                result == 0,
                false,
                (old(cpu).a & 0x0F) + (rhs & 0x0F) > 0x0F,
                old(cpu).a + rhs > 0xFF,
            )
        }),
{
    let addr = cpu.get_hl();
    let v = mem.read(addr);
    let a = cpu.get_a();

    proof {
        lemma_low_nibble(a);
        lemma_low_nibble(v);
    }
    let wide: u16 = a as u16 + v as u16;
    cpu.flag(Flag::C, wide > 0xFF);
    cpu.flag(Flag::H, (a & 0x0F) + (v & 0x0F) > 0x0F);

    let result = a.wrapping_add(v);
    cpu.set_a(result);

    cpu.flag(Flag::Z, result == 0);
    cpu.flag(Flag::N, false);
}

/// Adds the immediate byte to the accumulator.
pub fn add_u8(cpu: &mut Cpu, n: u8)
    ensures
        ({
            let rhs = n;
            let result = wadd8(old(cpu).a, rhs);
            &&& *final(cpu) == (Cpu { a: result, f: final(cpu).f, ..*old(cpu) })
            &&& flags_post(
                old(cpu).f,
                final(cpu).f,
                result == 0,
                false,
                (old(cpu).a & 0x0F) + (rhs & 0x0F) > 0x0F,
                old(cpu).a + rhs > 0xFF,
            )
        }),
{
    let v = n;
    let a = cpu.get_a();

    proof {
        lemma_low_nibble(a);
        lemma_low_nibble(v);
    }
    let wide: u16 = a as u16 + v as u16;
    cpu.flag(Flag::C, wide > 0xFF);
    cpu.flag(Flag::H, (a & 0x0F) + (v & 0x0F) > 0x0F);

    let result = a.wrapping_add(v);
    cpu.set_a(result);

    cpu.flag(Flag::Z, result == 0);
    cpu.flag(Flag::N, false);
}

/// Adds `n` to HL: carry at the bit-15 boundary, half-carry at the bit-11
/// boundary, subtract cleared, zero untouched.
fn add_hl_u16(cpu: &mut Cpu, n: u16)
    ensures
        ({
            let lhs = u16_of(old(cpu).h, old(cpu).l);
            let result = wadd16(lhs, n);
            &&& *final(cpu) == (Cpu {
                h: high_byte(result),
                l: low_byte(result),
                f: final(cpu).f,
                ..*old(cpu)
            })
            &&& flags_post(
                old(cpu).f,
                final(cpu).f,
                flag_of(old(cpu).f, Flag::Z),
                false,
                (lhs & 0x0FFF) + (n & 0x0FFF) > 0x0FFF,
                lhs + n > 0xFFFF,
            )
        }),
{
    let lhs = cpu.get_hl();

    proof {
        lemma_u16_masks(lhs);
        lemma_u16_masks(n);
    }
    cpu.flag(Flag::C, lhs.checked_add(n).is_none());
    cpu.flag(Flag::H, (lhs & 0x0FFF) + (n & 0x0FFF) > 0x0FFF);

    cpu.set_hl(lhs.wrapping_add(n));

    cpu.flag(Flag::N, false);
}

/// Adds BC to HL, with the 16-bit add flag rules.
pub fn add_hl_bc(cpu: &mut Cpu)
    ensures
        ({
            let lhs = u16_of(old(cpu).h, old(cpu).l);
            let rhs = u16_of(old(cpu).b, old(cpu).c);
            let result = wadd16(lhs, rhs);
            &&& *final(cpu) == (Cpu {
                h: high_byte(result),
                l: low_byte(result),
                f: final(cpu).f,
                ..*old(cpu)
            })
            &&& flags_post(
                old(cpu).f,
                final(cpu).f,
                flag_of(old(cpu).f, Flag::Z),
                false,
                (lhs & 0x0FFF) + (rhs & 0x0FFF) > 0x0FFF,
                lhs + rhs > 0xFFFF,
            )
        }),
{
    let rhs = cpu.get_bc();
    add_hl_u16(cpu, rhs);
}

/// Adds DE to HL, with the 16-bit add flag rules.
pub fn add_hl_de(cpu: &mut Cpu)
    ensures
        ({
            let lhs = u16_of(old(cpu).h, old(cpu).l);
            let rhs = u16_of(old(cpu).d, old(cpu).e);
            let result = wadd16(lhs, rhs);
            &&& *final(cpu) == (Cpu {
                h: high_byte(result),
                l: low_byte(result),
                f: final(cpu).f,
                ..*old(cpu)
            })
            &&& flags_post(
                old(cpu).f,
                final(cpu).f,
                flag_of(old(cpu).f, Flag::Z),
                false,
                (lhs & 0x0FFF) + (rhs & 0x0FFF) > 0x0FFF,
                lhs + rhs > 0xFFFF,
            )
        }),
{
    let rhs = cpu.get_de();
    add_hl_u16(cpu, rhs);
}

/// Adds HL to HL, with the 16-bit add flag rules.
pub fn add_hl_hl(cpu: &mut Cpu)
    ensures
        ({
            let lhs = u16_of(old(cpu).h, old(cpu).l);
            let rhs = u16_of(old(cpu).h, old(cpu).l);
            let result = wadd16(lhs, rhs);
            &&& *final(cpu) == (Cpu {
                h: high_byte(result),
                l: low_byte(result),
                f: final(cpu).f,
                ..*old(cpu)
            })
            &&& flags_post(
                old(cpu).f,
                final(cpu).f,
                flag_of(old(cpu).f, Flag::Z),
                false,
                (lhs & 0x0FFF) + (rhs & 0x0FFF) > 0x0FFF,
                lhs + rhs > 0xFFFF,
            )
        }),
{
    let rhs = cpu.get_hl();
    add_hl_u16(cpu, rhs);
}

/// Adds the stack pointer to HL, with the 16-bit add flag rules.
pub fn add_hl_sp(cpu: &mut Cpu)
    ensures
        ({
            let lhs = u16_of(old(cpu).h, old(cpu).l);
            let rhs = old(cpu).sp;
            let result = wadd16(lhs, rhs);
            &&& *final(cpu) == (Cpu {
                h: high_byte(result),
                l: low_byte(result),
                f: final(cpu).f,
                ..*old(cpu)
            })
            &&& flags_post(
                old(cpu).f,
                final(cpu).f,
                flag_of(old(cpu).f, Flag::Z),
                false,
                (lhs & 0x0FFF) + (rhs & 0x0FFF) > 0x0FFF,
                lhs + rhs > 0xFFFF,
            )
        }),
{
    let rhs = cpu.get_sp();
    add_hl_u16(cpu, rhs);
}

} // verus!
