//! The semantic functions, one per instruction shape, parameterized by
//! operand descriptors.
//!
//! Each function carries a `..._post` predicate that states exactly how it
//! maps the machine state before the call to the state after it: which
//! register or memory byte changes, where the program counter ends up after
//! immediate operands are consumed, and the value of every condition flag.

use vstd::prelude::*;

use crate::hardware::{
    flag_of, high_byte, low_byte, mem_after_push, mem_after_u16_store, mem_after_u8_store,
    read_u16_pc, read_u16_val, read_u8_pc, read_u8_val, reg_u8_readable, u16_of,
    wadd16, wadd8, wsub16, wsub8, write_u16_cpu, write_u8_cpu, Cpu, Flag, RegU16, RegU8,
};
use crate::hardware::lemma_low_nibble;
use crate::memory::Memory;

verus! {

/// How a flag byte `post_f` relates to its predecessor `pre_f` when the four
/// condition flags are forced to the given values: the unused low nibble is
/// carried over unchanged.
pub open spec fn flags_post(pre_f: u8, post_f: u8, z: bool, n: bool, h: bool, c: bool) -> bool {
    &&& flag_of(post_f, Flag::Z) == z
    &&& flag_of(post_f, Flag::N) == n
    &&& flag_of(post_f, Flag::H) == h
    &&& flag_of(post_f, Flag::C) == c
    &&& post_f & 0x0F == pre_f & 0x0F
}

/// The borrow or carry fed into an arithmetic operation: 1 when the
/// operation uses the carry and the carry flag is set, else 0.
pub open spec fn carry_in(cpu: Cpu, carry: bool) -> u8 {
    if carry && cpu.spec_flag(Flag::C) {
        1
    } else {
        0
    }
}

/// The register file `cpu` with its program counter stepped past the
/// operand bytes of the 8-bit operand `reg`.
pub open spec fn after_u8_read(cpu: Cpu, reg: RegU8) -> Cpu {
    Cpu { pc: read_u8_pc(cpu, reg), ..cpu }
}

/// The register file `cpu` with its program counter stepped past the
/// operand bytes of the 16-bit operand `rr`.
pub open spec fn after_u16_read(cpu: Cpu, rr: RegU16) -> Cpu {
    Cpu { pc: read_u16_pc(cpu, rr), ..cpu }
}

/// What `load` does: the value of `src` is stored into `dest`; no flag
/// changes.
pub open spec fn load_post(
    cpu: Cpu,
    mem: Memory,
    src: RegU8,
    dest: RegU8,
    post_cpu: Cpu,
    post_mem: Memory,
) -> bool {
    let v = read_u8_val(cpu, mem, src);
    let cpu1 = after_u8_read(cpu, src);
    &&& post_cpu == write_u8_cpu(cpu1, dest, v)
    &&& mem_after_u8_store(cpu1, mem, dest, v, post_mem)
}

/// Copies the 8-bit operand `src` into the 8-bit operand `dest`.
pub fn load(cpu: &mut Cpu, mem: &mut Memory, src: &RegU8, dest: &RegU8)
    requires
        old(mem).wf(),
        reg_u8_readable(*src),
        reg_u8_readable(*dest),
        !(*dest is U8),
    ensures
        final(mem).wf(),
        load_post(*old(cpu), *old(mem), *src, *dest, *final(cpu), *final(mem)),
{
    let value = cpu.get_reg_u8(mem, src);
    cpu.set_reg_u8(mem, dest, value);
}

/// What `load_plus` does: a `load`, then HL moves up (`inc` true) or down
/// by one.
pub open spec fn load_plus_post(
    cpu: Cpu,
    mem: Memory,
    src: RegU8,
    dest: RegU8,
    inc: bool,
    post_cpu: Cpu,
    post_mem: Memory,
) -> bool {
    let v = read_u8_val(cpu, mem, src);
    let cpu1 = after_u8_read(cpu, src);
    let cpu2 = write_u8_cpu(cpu1, dest, v);
    let hl = u16_of(cpu2.h, cpu2.l);
    let hl2 = if inc {
        wadd16(hl, 1)
    } else {
        wsub16(hl, 1)
    };
    &&& post_cpu == (Cpu { h: high_byte(hl2), l: low_byte(hl2), ..cpu2 })
    &&& mem_after_u8_store(cpu1, mem, dest, v, post_mem)
}

/// Copies `src` into `dest` and then increments or decrements HL, for the
/// load-and-move instruction family.
pub fn load_plus(cpu: &mut Cpu, mem: &mut Memory, src: &RegU8, dest: &RegU8, inc: bool)
    requires
        old(mem).wf(),
        reg_u8_readable(*src),
        reg_u8_readable(*dest),
        !(*dest is U8),
    ensures
        final(mem).wf(),
        load_plus_post(*old(cpu), *old(mem), *src, *dest, inc, *final(cpu), *final(mem)),
{
    load(cpu, mem, src, dest);
    match inc {
        true => inc_u16(cpu, mem, &RegU16::HL),
        false => dec_u16(cpu, mem, &RegU16::HL),
    }
}

/// What `load_u16` does: the value of the 16-bit operand `src` is stored
/// into the 16-bit operand `dest`; no flag changes.
pub open spec fn load_u16_post(
    cpu: Cpu,
    mem: Memory,
    src: RegU16,
    dest: RegU16,
    post_cpu: Cpu,
    post_mem: Memory,
) -> bool {
    let v = read_u16_val(cpu, mem, src);
    let cpu1 = after_u16_read(cpu, src);
    &&& post_cpu == write_u16_cpu(cpu1, dest, v)
    &&& mem_after_u16_store(cpu1, mem, dest, v, post_mem)
}

/// Copies the 16-bit operand `src` into the 16-bit operand `dest`.
pub fn load_u16(cpu: &mut Cpu, mem: &mut Memory, src: &RegU16, dest: &RegU16)
    requires
        old(mem).wf(),
        !(*src is RamU16),
        !(*dest is U16),
        !(*dest is I8),
        (*dest matches RegU16::RamU16(b) ==> !(*b is RamU16)),
    ensures
        final(mem).wf(),
        load_u16_post(*old(cpu), *old(mem), *src, *dest, *final(cpu), *final(mem)),
{
    let value = cpu.get_reg_u16(mem, src);
    cpu.set_reg_u16(mem, dest, value);
}

/// What `push` does: the stack pointer drops by two and the value of `src`
/// lands on the stack, low byte first.
pub open spec fn push_post(
    cpu: Cpu,
    mem: Memory,
    src: RegU16,
    post_cpu: Cpu,
    post_mem: Memory,
) -> bool {
    let v = read_u16_val(cpu, mem, src);
    let cpu1 = after_u16_read(cpu, src);
    &&& post_cpu == (Cpu { sp: wsub16(cpu1.sp, 2), ..cpu1 })
    &&& mem_after_push(cpu1.sp, mem, v, post_mem)
}

/// Pushes the value of the 16-bit operand `src` onto the stack.
pub fn push(cpu: &mut Cpu, mem: &mut Memory, src: &RegU16)
    requires
        old(mem).wf(),
        !(*src is RamU16),
    ensures
        final(mem).wf(),
        push_post(*old(cpu), *old(mem), *src, *final(cpu), *final(mem)),
{
    let value = cpu.get_reg_u16(mem, src);
    cpu.write_u16_to_stack(value, mem);
}

/// What `pop` does: the two bytes at the top of the stack (low byte at the
/// top) are stored into `dest` and the stack pointer rises by two.
pub open spec fn pop_post(
    cpu: Cpu,
    mem: Memory,
    dest: RegU16,
    post_cpu: Cpu,
    post_mem: Memory,
) -> bool {
    let v = u16_of(mem.spec_read(wadd16(cpu.sp, 1)), mem.spec_read(cpu.sp));
    let cpu1 = Cpu { sp: wadd16(cpu.sp, 2), ..cpu };
    &&& post_cpu == write_u16_cpu(cpu1, dest, v)
    &&& mem_after_u16_store(cpu1, mem, dest, v, post_mem)
}

/// Pops a 16-bit value off the stack into the 16-bit operand `dest`.
pub fn pop(cpu: &mut Cpu, mem: &mut Memory, dest: &RegU16)
    requires
        old(mem).wf(),
        !(*dest is U16),
        !(*dest is I8),
        (*dest matches RegU16::RamU16(b) ==> !(*b is RamU16)),
    ensures
        final(mem).wf(),
        pop_post(*old(cpu), *old(mem), *dest, *final(cpu), *final(mem)),
{
    let value = cpu.read_u16_from_stack(mem);
    cpu.set_reg_u16(mem, dest, value);
}

/// What `add` does: the accumulator takes `(A + src + carry-in) mod 256`;
/// carry is set iff the full sum overflows 8 bits, half-carry iff the low
/// nibble sum (carry-in included) exceeds 0xF, zero iff the result is 0, and
/// subtract is always cleared.
pub open spec fn add_post(
    cpu: Cpu,
    mem: Memory,
    src: RegU8,
    carry: bool,
    post_cpu: Cpu,
    post_mem: Memory,
) -> bool {
    let lhs = cpu.a;
    let rhs = read_u8_val(cpu, mem, src);
    let cin = carry_in(cpu, carry);
    let result = wadd8(wadd8(lhs, rhs), cin);
    &&& post_cpu == (Cpu { a: result, f: post_cpu.f, pc: read_u8_pc(cpu, src), ..cpu })
    &&& flags_post(
        cpu.f,
        post_cpu.f,
        result == 0,
        false,
        (lhs & 0x0F) + (rhs & 0x0F) + cin > 0x0F,
        lhs + rhs + cin > 0xFF,
    )
    &&& post_mem == mem
}

/// Adds the 8-bit operand `src` (plus the carry flag, when `carry` is set)
/// to the accumulator.
pub fn add(cpu: &mut Cpu, mem: &mut Memory, src: &RegU8, carry: bool)
    requires
        old(mem).wf(),
        reg_u8_readable(*src),
    ensures
        final(mem).wf(),
        add_post(*old(cpu), *old(mem), *src, carry, *final(cpu), *final(mem)),
{
    let lhs = cpu.get_reg_u8(mem, &RegU8::A);
    let rhs = cpu.get_reg_u8(mem, src);
    let cin: u8 = if carry && cpu.get_flag(Flag::C) {
        1
    } else {
        0
    };

    proof {
        lemma_low_nibble(lhs);
        lemma_low_nibble(rhs);
    }
    let wide: u16 = lhs as u16 + rhs as u16 + cin as u16;
    cpu.flag(Flag::C, wide > 0xFF);
    cpu.flag(Flag::H, (lhs & 0x0F) + (rhs & 0x0F) + cin > 0x0F);

    // Compute addition
    let result = lhs.wrapping_add(rhs).wrapping_add(cin);
    cpu.set_reg_u8(mem, &RegU8::A, result);

    cpu.flag(Flag::Z, result == 0);
    cpu.flag(Flag::N, false);
}

/// The result an 8-bit subtraction leaves in the accumulator:
/// `(A - src - borrow-in) mod 256`.
pub open spec fn sub_result(cpu: Cpu, mem: Memory, src: RegU8, carry: bool) -> u8 {
    wsub8(wsub8(cpu.a, read_u8_val(cpu, mem, src)), carry_in(cpu, carry))
}

/// What `cmp` does: the flags of the subtraction `A - src - borrow-in` are
/// set (carry iff the minuend is smaller, half-carry iff its low nibble is,
/// zero iff the difference is 0, subtract always set) and the accumulator is
/// left alone.
pub open spec fn cmp_post(
    cpu: Cpu,
    mem: Memory,
    src: RegU8,
    carry: bool,
    post_cpu: Cpu,
    post_mem: Memory,
) -> bool {
    let lhs = cpu.a;
    let rhs = read_u8_val(cpu, mem, src);
    let cin = carry_in(cpu, carry);
    let result = sub_result(cpu, mem, src, carry);
    &&& post_cpu == (Cpu { f: post_cpu.f, pc: read_u8_pc(cpu, src), ..cpu })
    &&& flags_post(
        cpu.f,
        post_cpu.f,
        result == 0,
        true,
        (lhs & 0x0F) < (rhs & 0x0F) + cin,
        lhs < rhs + cin,
    )
    &&& post_mem == mem
}

/// Compares the accumulator with the 8-bit operand `src`: computes the
/// subtraction, sets its flags, and returns the would-be result without
/// storing it.  `sub` stores the returned value.
pub fn cmp(cpu: &mut Cpu, mem: &mut Memory, src: &RegU8, carry: bool) -> (r: u8)
    requires
        old(mem).wf(),
        reg_u8_readable(*src),
    ensures
        final(mem).wf(),
        r == sub_result(*old(cpu), *old(mem), *src, carry),
        cmp_post(*old(cpu), *old(mem), *src, carry, *final(cpu), *final(mem)),
{
    let lhs = cpu.get_reg_u8(mem, &RegU8::A);
    let rhs = cpu.get_reg_u8(mem, src);
    let cin: u8 = if carry && cpu.get_flag(Flag::C) {
        1
    } else {
        0
    };

    proof {
        lemma_low_nibble(lhs);
        lemma_low_nibble(rhs);
    }
    cpu.flag(Flag::C, (lhs as u16) < rhs as u16 + cin as u16);
    cpu.flag(Flag::H, (lhs & 0x0F) < (rhs & 0x0F) + cin);

    // Compute subtraction
    let result = lhs.wrapping_sub(rhs).wrapping_sub(cin);

    cpu.flag(Flag::Z, result == 0);
    cpu.flag(Flag::N, true);
    result
}

/// What `sub` does: like `cmp`, but the result is stored back into the
/// accumulator.
pub open spec fn sub_post(
    cpu: Cpu,
    mem: Memory,
    src: RegU8,
    carry: bool,
    post_cpu: Cpu,
    post_mem: Memory,
) -> bool {
    let result = sub_result(cpu, mem, src, carry);
    &&& post_cpu == (Cpu { a: result, f: post_cpu.f, pc: read_u8_pc(cpu, src), ..cpu })
    &&& cmp_post(cpu, mem, src, carry, Cpu { a: cpu.a, ..post_cpu }, post_mem)
}

/// Subtracts the 8-bit operand `src` (plus the carry flag, when `carry` is
/// set) from the accumulator.
pub fn sub(cpu: &mut Cpu, mem: &mut Memory, src: &RegU8, carry: bool)
    requires
        old(mem).wf(),
        reg_u8_readable(*src),
    ensures
        final(mem).wf(),
        sub_post(*old(cpu), *old(mem), *src, carry, *final(cpu), *final(mem)),
{
    let result = cmp(cpu, mem, src, carry);
    cpu.set_reg_u8(mem, &RegU8::A, result);
}

/// What `and` does: the accumulator takes `A & src`; zero tracks the
/// result, half-carry is set, subtract and carry are cleared.
pub open spec fn and_post(
    cpu: Cpu,
    mem: Memory,
    src: RegU8,
    post_cpu: Cpu,
    post_mem: Memory,
) -> bool {
    let result = cpu.a & read_u8_val(cpu, mem, src);
    &&& post_cpu == (Cpu { a: result, f: post_cpu.f, pc: read_u8_pc(cpu, src), ..cpu })
    &&& flags_post(cpu.f, post_cpu.f, result == 0, false, true, false)
    &&& post_mem == mem
}

/// Bitwise-ands the 8-bit operand `src` into the accumulator.
pub fn and(cpu: &mut Cpu, mem: &mut Memory, src: &RegU8)
    requires
        old(mem).wf(),
        reg_u8_readable(*src),
    ensures
        final(mem).wf(),
        and_post(*old(cpu), *old(mem), *src, *final(cpu), *final(mem)),
{
    // Compute AND
    let result = cpu.get_reg_u8(mem, &RegU8::A) & cpu.get_reg_u8(mem, src);
    cpu.set_reg_u8(mem, &RegU8::A, result);

    cpu.flag(Flag::N, false);
    cpu.flag(Flag::H, true);
    cpu.flag(Flag::C, false);
    cpu.flag(Flag::Z, result == 0);
}

/// What `or` does: the accumulator takes `A | src`; zero tracks the result,
/// the other three flags are cleared.
pub open spec fn or_post(
    cpu: Cpu,
    mem: Memory,
    src: RegU8,
    post_cpu: Cpu,
    post_mem: Memory,
) -> bool {
    let result = cpu.a | read_u8_val(cpu, mem, src);
    &&& post_cpu == (Cpu { a: result, f: post_cpu.f, pc: read_u8_pc(cpu, src), ..cpu })
    &&& flags_post(cpu.f, post_cpu.f, result == 0, false, false, false)
    &&& post_mem == mem
}

/// Bitwise-ors the 8-bit operand `src` into the accumulator.
pub fn or(cpu: &mut Cpu, mem: &mut Memory, src: &RegU8)
    requires
        old(mem).wf(),
        reg_u8_readable(*src),
    ensures
        final(mem).wf(),
        or_post(*old(cpu), *old(mem), *src, *final(cpu), *final(mem)),
{
    // Compute OR
    let result = cpu.get_reg_u8(mem, &RegU8::A) | cpu.get_reg_u8(mem, src);
    cpu.set_reg_u8(mem, &RegU8::A, result);

    cpu.flag(Flag::N, false);
    cpu.flag(Flag::H, false);
    cpu.flag(Flag::C, false);
    cpu.flag(Flag::Z, result == 0);
}

/// What `xor` does: the accumulator takes `A ^ src`; zero tracks the
/// result, the other three flags are cleared.
pub open spec fn xor_post(
    cpu: Cpu,
    mem: Memory,
    src: RegU8,
    post_cpu: Cpu,
    post_mem: Memory,
) -> bool {
    let result = cpu.a ^ read_u8_val(cpu, mem, src);
    &&& post_cpu == (Cpu { a: result, f: post_cpu.f, pc: read_u8_pc(cpu, src), ..cpu })
    &&& flags_post(cpu.f, post_cpu.f, result == 0, false, false, false)
    &&& post_mem == mem
}

/// Bitwise-xors the 8-bit operand `src` into the accumulator.
pub fn xor(cpu: &mut Cpu, mem: &mut Memory, src: &RegU8)
    requires
        old(mem).wf(),
        reg_u8_readable(*src),
    ensures
        final(mem).wf(),
        xor_post(*old(cpu), *old(mem), *src, *final(cpu), *final(mem)),
{
    // Compute XOR
    let result = cpu.get_reg_u8(mem, &RegU8::A) ^ cpu.get_reg_u8(mem, src);
    cpu.set_reg_u8(mem, &RegU8::A, result);

    cpu.flag(Flag::N, false);
    cpu.flag(Flag::H, false);
    cpu.flag(Flag::C, false);
    cpu.flag(Flag::Z, result == 0);
}

/// What `inc` does: the 8-bit operand takes `(value + 1) mod 256`; zero
/// tracks the result, half-carry is set iff the low nibble was 0xF,
/// subtract is cleared, and the carry flag is left exactly as it was.
pub open spec fn inc_post(
    cpu: Cpu,
    mem: Memory,
    reg: RegU8,
    post_cpu: Cpu,
    post_mem: Memory,
) -> bool {
    let v = read_u8_val(cpu, mem, reg);
    let cpu1 = after_u8_read(cpu, reg);
    let result = wadd8(v, 1);
    let cpu2 = write_u8_cpu(cpu1, reg, result);
    &&& post_cpu == (Cpu { f: post_cpu.f, ..cpu2 })
    &&& flags_post(
        cpu.f,
        post_cpu.f,
        result == 0,
        false,
        v & 0x0F == 0x0F,
        flag_of(cpu.f, Flag::C),
    )
    &&& mem_after_u8_store(cpu1, mem, reg, result, post_mem)
}

/// Increments the 8-bit operand `reg`, leaving the carry flag untouched.
pub fn inc(cpu: &mut Cpu, mem: &mut Memory, reg: &RegU8)
    requires
        old(mem).wf(),
        reg_u8_readable(*reg),
        !(*reg is U8),
    ensures
        final(mem).wf(),
        inc_post(*old(cpu), *old(mem), *reg, *final(cpu), *final(mem)),
{
    let reg_val = cpu.get_reg_u8(mem, reg);

    // Compute increment
    let result = reg_val.wrapping_add(1);
    cpu.set_reg_u8(mem, reg, result);

    cpu.flag(Flag::H, reg_val & 0x0F == 0x0F);
    cpu.flag(Flag::Z, result == 0);
    cpu.flag(Flag::N, false);
}

/// What `dec` does: the 8-bit operand takes `(value - 1) mod 256`; zero
/// tracks the result, half-carry is set iff a borrow crosses the nibble
/// boundary (low nibble was 0), subtract is set, and the carry flag is left
/// exactly as it was.
pub open spec fn dec_post(
    cpu: Cpu,
    mem: Memory,
    reg: RegU8,
    post_cpu: Cpu,
    post_mem: Memory,
) -> bool {
    let v = read_u8_val(cpu, mem, reg);
    let cpu1 = after_u8_read(cpu, reg);
    let result = wsub8(v, 1);
    let cpu2 = write_u8_cpu(cpu1, reg, result);
    &&& post_cpu == (Cpu { f: post_cpu.f, ..cpu2 })
    &&& flags_post(
        cpu.f,
        post_cpu.f,
        result == 0,
        true,
        v & 0x0F == 0x00,
        flag_of(cpu.f, Flag::C),
    )
    &&& mem_after_u8_store(cpu1, mem, reg, result, post_mem)
}

/// Decrements the 8-bit operand `reg`, leaving the carry flag untouched.
pub fn dec(cpu: &mut Cpu, mem: &mut Memory, reg: &RegU8)
    requires
        old(mem).wf(),
        reg_u8_readable(*reg),
        !(*reg is U8),
    ensures
        final(mem).wf(),
        dec_post(*old(cpu), *old(mem), *reg, *final(cpu), *final(mem)),
{
    let reg_val = cpu.get_reg_u8(mem, reg);

    // A borrow crosses the nibble boundary exactly when the lower nibble is
    // empty, as in 0xf0 - 0x01 = 0xef
    let result = reg_val.wrapping_sub(1);
    cpu.set_reg_u8(mem, reg, result);

    cpu.flag(Flag::H, reg_val & 0x0F == 0x00);
    cpu.flag(Flag::Z, result == 0);
    cpu.flag(Flag::N, true);
}

/// What `inc_u16` does: the 16-bit operand takes `(value + 1) mod 2^16`; no
/// flag changes.
pub open spec fn inc_u16_post(
    cpu: Cpu,
    mem: Memory,
    rr: RegU16,
    post_cpu: Cpu,
    post_mem: Memory,
) -> bool {
    let v = read_u16_val(cpu, mem, rr);
    let cpu1 = after_u16_read(cpu, rr);
    &&& post_cpu == write_u16_cpu(cpu1, rr, wadd16(v, 1))
    &&& mem_after_u16_store(cpu1, mem, rr, wadd16(v, 1), post_mem)
}

/// Increments the 16-bit operand `rr` without touching any flag.
pub fn inc_u16(cpu: &mut Cpu, mem: &mut Memory, rr: &RegU16)
    requires
        old(mem).wf(),
        !(*rr is RamU16),
        !(*rr is U16),
        !(*rr is I8),
    ensures
        final(mem).wf(),
        inc_u16_post(*old(cpu), *old(mem), *rr, *final(cpu), *final(mem)),
{
    let value = cpu.get_reg_u16(mem, rr);
    cpu.set_reg_u16(mem, rr, value.wrapping_add(1));
}

/// What `dec_u16` does: the 16-bit operand takes `(value - 1) mod 2^16`; no
/// flag changes.
pub open spec fn dec_u16_post(
    cpu: Cpu,
    mem: Memory,
    rr: RegU16,
    post_cpu: Cpu,
    post_mem: Memory,
) -> bool {
    let v = read_u16_val(cpu, mem, rr);
    let cpu1 = after_u16_read(cpu, rr);
    &&& post_cpu == write_u16_cpu(cpu1, rr, wsub16(v, 1))
    &&& mem_after_u16_store(cpu1, mem, rr, wsub16(v, 1), post_mem)
}

/// Decrements the 16-bit operand `rr` without touching any flag.
pub fn dec_u16(cpu: &mut Cpu, mem: &mut Memory, rr: &RegU16)
    requires
        old(mem).wf(),
        !(*rr is RamU16),
        !(*rr is U16),
        !(*rr is I8),
    ensures
        final(mem).wf(),
        dec_u16_post(*old(cpu), *old(mem), *rr, *final(cpu), *final(mem)),
{
    let value = cpu.get_reg_u16(mem, rr);
    cpu.set_reg_u16(mem, rr, value.wrapping_sub(1));
}

/// Masking a 16-bit value keeps it below the mask's range.
pub proof fn lemma_u16_masks(x: u16)
    by (bit_vector)
    ensures
        x & 0xFFF < 0x1000,
        x & 0xF < 0x10,
{
}

/// What `add_u16` does: HL takes `(HL + src) mod 2^16`; carry is computed at
/// the bit-15 boundary and half-carry at the bit-11 boundary, subtract is
/// cleared, and zero is left exactly as it was.
pub open spec fn add_u16_post(
    cpu: Cpu,
    mem: Memory,
    src: RegU16,
    post_cpu: Cpu,
    post_mem: Memory,
) -> bool {
    let lhs = u16_of(cpu.h, cpu.l);
    let rhs = read_u16_val(cpu, mem, src);
    let cpu1 = after_u16_read(cpu, src);
    let result = wadd16(lhs, rhs);
    &&& post_cpu == (Cpu { h: high_byte(result), l: low_byte(result), f: post_cpu.f, ..cpu1 })
    &&& flags_post(
        cpu.f,
        post_cpu.f,
        flag_of(cpu.f, Flag::Z),
        false,
        (lhs & 0x0FFF) + (rhs & 0x0FFF) > 0x0FFF,
        lhs + rhs > 0xFFFF,
    )
    &&& post_mem == mem
}

/// Adds the 16-bit operand `src` to HL.
pub fn add_u16(cpu: &mut Cpu, mem: &mut Memory, src: &RegU16)
    requires
        old(mem).wf(),
        !(*src is RamU16),
    ensures
        final(mem).wf(),
        add_u16_post(*old(cpu), *old(mem), *src, *final(cpu), *final(mem)),
{
    let lhs = cpu.get_reg_u16(mem, &RegU16::HL);
    let rhs = cpu.get_reg_u16(mem, src);

    proof {
        lemma_u16_masks(lhs);
        lemma_u16_masks(rhs);
    }
    cpu.flag(Flag::C, lhs.checked_add(rhs).is_none());
    cpu.flag(Flag::H, (lhs & 0x0FFF) + (rhs & 0x0FFF) > 0x0FFF);

    cpu.set_reg_u16(mem, &RegU16::HL, lhs.wrapping_add(rhs));

    cpu.flag(Flag::N, false);
}

/// What `add_u16_i8` does: the 16-bit operand `dest` takes
/// `(dest + offset) mod 2^16` with the offset read as a 16-bit operand
/// (usually the sign-extended immediate byte); carry is computed at the
/// bit-15 boundary and half-carry at the bit-3 boundary, zero and subtract
/// are cleared.
pub open spec fn add_u16_i8_post(
    cpu: Cpu,
    mem: Memory,
    dest: RegU16,
    offset: RegU16,
    post_cpu: Cpu,
    post_mem: Memory,
) -> bool {
    let lhs = read_u16_val(cpu, mem, dest);
    let rhs = read_u16_val(cpu, mem, offset);
    let cpu1 = after_u16_read(cpu, offset);
    let result = wadd16(lhs, rhs);
    &&& post_cpu == (Cpu { f: post_cpu.f, ..write_u16_cpu(cpu1, dest, result) })
    &&& flags_post(
        cpu.f,
        post_cpu.f,
        false,
        false,
        (lhs & 0x000F) + (rhs & 0x000F) > 0x000F,
        lhs + rhs > 0xFFFF,
    )
    &&& post_mem == mem
}

/// Adds a 16-bit offset (usually the sign-extended immediate byte) to the
/// register pair or stack pointer `dest`.
pub fn add_u16_i8(cpu: &mut Cpu, mem: &mut Memory, dest: &RegU16, offset: &RegU16)
    requires
        old(mem).wf(),
        (*dest is HL || *dest is SP),
        !(*offset is RamU16),
    ensures
        final(mem).wf(),
        add_u16_i8_post(*old(cpu), *old(mem), *dest, *offset, *final(cpu), *final(mem)),
{
    let lhs = cpu.get_reg_u16(mem, dest);
    let rhs = cpu.get_reg_u16(mem, offset);

    proof {
        lemma_u16_masks(lhs);
        lemma_u16_masks(rhs);
    }
    cpu.flag(Flag::C, lhs.checked_add(rhs).is_none());
    cpu.flag(Flag::H, (lhs & 0x000F) + (rhs & 0x000F) > 0x000F);

    cpu.set_reg_u16(mem, dest, lhs.wrapping_add(rhs));

    cpu.flag(Flag::Z, false);
    cpu.flag(Flag::N, false);
}

/// What `daa` does: after a BCD addition or subtraction, the accumulator is
/// corrected by 0x06 / 0x60 as the half-carry, carry and subtract flags
/// demand; carry is set (never cleared) when the high correction fires,
/// half-carry is always cleared afterwards, zero tracks the result and
/// subtract stays as it was.
pub open spec fn daa_post(cpu: Cpu, post_cpu: Cpu, post_mem: Memory, mem: Memory) -> bool {
    let value = cpu.a;
    let n = flag_of(cpu.f, Flag::N);
    let hi_corr = flag_of(cpu.f, Flag::C) || (!n && value > 0x99);
    let lo_corr = flag_of(cpu.f, Flag::H) || (!n && (value & 0x0F) > 0x09);
    let correction = (if hi_corr {
        0x60u8
    } else {
        0
    }) | (if lo_corr {
        0x06u8
    } else {
        0
    });
    let result = if n {
        wsub8(value, correction)
    } else {
        wadd8(value, correction)
    };
    &&& post_cpu == (Cpu { a: result, f: post_cpu.f, ..cpu })
    &&& flags_post(cpu.f, post_cpu.f, result == 0, n, false, hi_corr)
    &&& post_mem == mem
}

/// Adjusts the accumulator into binary-coded decimal after an addition or
/// subtraction.
pub fn daa(cpu: &mut Cpu, mem: &mut Memory)
    requires
        old(mem).wf(),
    ensures
        final(mem).wf(),
        daa_post(*old(cpu), *final(cpu), *final(mem), *old(mem)),
{
    let value = cpu.get_reg_u8(mem, &RegU8::A);
    let n_flag = cpu.get_flag(Flag::N);

    let hi_corr = cpu.get_flag(Flag::C) || (!n_flag && value > 0x99);
    let lo_corr = cpu.get_flag(Flag::H) || (!n_flag && (value & 0x0F > 0x09));

    if hi_corr {
        cpu.flag(Flag::C, true);
    }
    let correction: u8 = (if hi_corr {
        0x60
    } else {
        0
    }) | (if lo_corr {
        0x06
    } else {
        0
    });

    let result = match n_flag {
        false => value.wrapping_add(correction),
        true => value.wrapping_sub(correction),
    };
    cpu.set_reg_u8(mem, &RegU8::A, result);

    cpu.flag(Flag::Z, result == 0);
    cpu.flag(Flag::H, false);
}

/// What `cpl` does: every bit of the accumulator is flipped; half-carry and
/// subtract are set, zero and carry stay as they were.
pub open spec fn cpl_post(cpu: Cpu, post_cpu: Cpu, post_mem: Memory, mem: Memory) -> bool {
    &&& post_cpu == (Cpu { a: !cpu.a, f: post_cpu.f, ..cpu })
    &&& flags_post(
        cpu.f,
        post_cpu.f,
        flag_of(cpu.f, Flag::Z),
        true,
        true,
        flag_of(cpu.f, Flag::C),
    )
    &&& post_mem == mem
}

/// Flips every bit of the accumulator.
pub fn cpl(cpu: &mut Cpu, mem: &mut Memory)
    requires
        old(mem).wf(),
    ensures
        final(mem).wf(),
        cpl_post(*old(cpu), *final(cpu), *final(mem), *old(mem)),
{
    cpu.flag(Flag::H, true);
    cpu.flag(Flag::N, true);

    let value = cpu.get_reg_u8(mem, &RegU8::A);
    cpu.set_reg_u8(mem, &RegU8::A, !value);
}

/// What `set_carry` does: with `flip` the carry flag is complemented, else
/// it is set; half-carry and subtract are cleared and zero stays as it was.
pub open spec fn set_carry_post(
    cpu: Cpu,
    flip: bool,
    post_cpu: Cpu,
    post_mem: Memory,
    mem: Memory,
) -> bool {
    &&& post_cpu == (Cpu { f: post_cpu.f, ..cpu })
    &&& flags_post(
        cpu.f,
        post_cpu.f,
        flag_of(cpu.f, Flag::Z),
        false,
        false,
        !(flag_of(cpu.f, Flag::C) && flip),
    )
    &&& post_mem == mem
}

/// Sets the carry flag, or complements it when `flip` is true.
pub fn set_carry(cpu: &mut Cpu, _mem: &mut Memory, flip: bool)
    ensures
        *final(_mem) == *old(_mem),
        set_carry_post(*old(cpu), flip, *final(cpu), *final(_mem), *old(_mem)),
{
    cpu.flag(Flag::H, false);
    cpu.flag(Flag::N, false);
    let c = cpu.get_flag(Flag::C);
    cpu.flag(Flag::C, !(c && flip));
}

/// What `change_mie` does: a master-interrupt-enable transition is parked
/// for the scheduler to commit one instruction later; nothing else changes.
pub open spec fn change_mie_post(
    cpu: Cpu,
    enable: bool,
    post_cpu: Cpu,
    post_mem: Memory,
    mem: Memory,
) -> bool {
    &&& post_cpu == (Cpu { pending_mie: Some(enable), ..cpu })
    &&& post_mem == mem
}

/// Requests that the master-interrupt-enable flag become `enable` after the
/// next instruction (the documented one-instruction latency).
pub fn change_mie(cpu: &mut Cpu, _mem: &mut Memory, enable: bool)
    ensures
        *final(_mem) == *old(_mem),
        change_mie_post(*old(cpu), enable, *final(cpu), *final(_mem), *old(_mem)),
{
    cpu.pending_mie = Some(enable);
}

/// The byte a rotate or shift produces from `v`, given the old carry flag
/// and the five shape booleans: direction, rotate-through-carry, shift
/// versus rotate, and whether the most-significant bit is kept (the
/// MSB-preserving right shift).
pub open spec fn rotate_result(
    v: u8,
    old_c: bool,
    left: bool,
    through_carry: bool,
    shift: bool,
    keep_msb: bool,
) -> u8 {
    let c_bit: u8 = if old_c {
        1
    } else {
        0
    };
    if left {
        let base = if shift {
            v << 1
        } else {
            (v << 1) | (v >> 7)
        };
        if through_carry {
            (base & 0xFE) | c_bit
        } else {
            base
        }
    } else {
        let base = if shift {
            v >> 1
        } else {
            (v >> 1) | (v << 7)
        };
        let base2 = if through_carry {
            (base & 0x7F) | (c_bit << 7)
        } else {
            base
        };
        if keep_msb {
            (base2 & 0x7F) | (v & 0x80)
        } else {
            base2
        }
    }
}

/// The bit a rotate or shift pushes out of `v`: the top bit going left, the
/// bottom bit going right.
pub open spec fn rotate_carry(v: u8, left: bool) -> bool {
    if left {
        v >> 7 != 0
    } else {
        v & 1 != 0
    }
}

/// What `rotate` does: the operand takes the rotated or shifted byte, carry
/// takes the bit pushed out, half-carry and subtract are cleared, and zero
/// tracks the result for the prefixed forms (`update_z`) while the
/// unprefixed accumulator-only rotates leave it exactly as it was.
pub open spec fn rotate_post(
    cpu: Cpu,
    mem: Memory,
    reg: RegU8,
    left: bool,
    through_carry: bool,
    update_z: bool,
    shift: bool,
    keep_msb: bool,
    post_cpu: Cpu,
    post_mem: Memory,
) -> bool {
    let v = read_u8_val(cpu, mem, reg);
    let cpu1 = after_u8_read(cpu, reg);
    let result = rotate_result(v, flag_of(cpu.f, Flag::C), left, through_carry, shift, keep_msb);
    let cpu2 = write_u8_cpu(cpu1, reg, result);
    &&& post_cpu == (Cpu { f: post_cpu.f, ..cpu2 })
    &&& flags_post(
        cpu.f,
        post_cpu.f,
        if update_z {
            result == 0
        } else {
            flag_of(cpu.f, Flag::Z)
        },
        false,
        false,
        rotate_carry(v, left),
    )
    &&& mem_after_u8_store(cpu1, mem, reg, result, post_mem)
}

/// Rotates or shifts the 8-bit operand `reg` by one position, in the
/// direction and shape the five booleans select.
pub fn rotate(
    cpu: &mut Cpu,
    mem: &mut Memory,
    reg: &RegU8,
    left: bool,
    through_carry: bool,
    update_z: bool,
    shift: bool,
    keep_msb: bool,
)
    requires
        old(mem).wf(),
        reg_u8_readable(*reg),
        !(*reg is U8),
    ensures
        final(mem).wf(),
        rotate_post(
            *old(cpu),
            *old(mem),
            *reg,
            left,
            through_carry,
            update_z,
            shift,
            keep_msb,
            *final(cpu),
            *final(mem),
        ),
{
    let value = cpu.get_reg_u8(mem, reg);
    let old_carry: u8 = match cpu.get_flag(Flag::C) {
        true => 0b1,
        false => 0b0,
    };

    let (new_carry, result) = match left {
        true => {
            let new_carry = value >> 7;

            let mut result = match shift {
                true => value << 1,
                false => (value << 1) | (value >> 7),
            };

            if through_carry {
                result = (result & 0b1111_1110) | old_carry;
            }

            (new_carry, result)
        },
        false => {
            let new_carry = value & 0b0000_0001;

            let mut result = match shift {
                true => value >> 1,
                false => (value >> 1) | (value << 7),
            };

            if through_carry {
                result = (result & 0b0111_1111) | (old_carry << 7);
            }

            if keep_msb {
                result = (result & 0b0111_1111) | (value & 0b1000_0000);
            }

            (new_carry, result)
        },
    };

    cpu.set_reg_u8(mem, reg, result);

    cpu.flag(Flag::H, false);
    cpu.flag(Flag::N, false);
    cpu.flag(Flag::C, new_carry != 0b0);
    if update_z {
        cpu.flag(Flag::Z, result == 0);
    }
}

/// What `swap` does: the operand's nibbles trade places; zero tracks the
/// result and the other three flags are cleared.
pub open spec fn swap_post(
    cpu: Cpu,
    mem: Memory,
    reg: RegU8,
    post_cpu: Cpu,
    post_mem: Memory,
) -> bool {
    let v = read_u8_val(cpu, mem, reg);
    let cpu1 = after_u8_read(cpu, reg);
    let result = (v << 4) | ((v & 0xF0) >> 4);
    let cpu2 = write_u8_cpu(cpu1, reg, result);
    &&& post_cpu == (Cpu { f: post_cpu.f, ..cpu2 })
    &&& flags_post(cpu.f, post_cpu.f, result == 0, false, false, false)
    &&& mem_after_u8_store(cpu1, mem, reg, result, post_mem)
}

/// Swaps the upper and lower nibble of the 8-bit operand `reg`.
pub fn swap(cpu: &mut Cpu, mem: &mut Memory, reg: &RegU8)
    requires
        old(mem).wf(),
        reg_u8_readable(*reg),
        !(*reg is U8),
    ensures
        final(mem).wf(),
        swap_post(*old(cpu), *old(mem), *reg, *final(cpu), *final(mem)),
{
    let value = cpu.get_reg_u8(mem, reg);
    let upper_nible = value & 0b1111_0000;
    let result = (value << 4) | (upper_nible >> 4);

    cpu.set_reg_u8(mem, reg, result);

    cpu.flag(Flag::N, false);
    cpu.flag(Flag::H, false);
    cpu.flag(Flag::C, false);
    cpu.flag(Flag::Z, result == 0);
}

/// What `bit` does: zero is set to the complement of the tested bit,
/// half-carry is set, subtract is cleared, carry and the operand itself are
/// untouched.
pub open spec fn bit_post(
    cpu: Cpu,
    mem: Memory,
    reg: RegU8,
    bit_pos: u8,
    post_cpu: Cpu,
    post_mem: Memory,
) -> bool {
    let v = read_u8_val(cpu, mem, reg);
    let cpu1 = after_u8_read(cpu, reg);
    &&& post_cpu == (Cpu { f: post_cpu.f, ..cpu1 })
    &&& flags_post(
        cpu.f,
        post_cpu.f,
        v & (1u8 << bit_pos) == 0,
        false,
        true,
        flag_of(cpu.f, Flag::C),
    )
    &&& post_mem == mem
}

/// Tests bit `bit_pos` of the 8-bit operand `reg`.
pub fn bit(cpu: &mut Cpu, mem: &mut Memory, reg: &RegU8, bit_pos: u8)
    requires
        old(mem).wf(),
        reg_u8_readable(*reg),
        bit_pos < 8,
    ensures
        final(mem).wf(),
        bit_post(*old(cpu), *old(mem), *reg, bit_pos, *final(cpu), *final(mem)),
{
    let value = cpu.get_reg_u8(mem, reg);

    cpu.flag(Flag::N, false);
    cpu.flag(Flag::H, true);
    cpu.flag(Flag::Z, (value & (1u8 << bit_pos)) == 0);
}

/// What `set_bit` does: the tested bit of the operand is forced to one; no
/// flag changes.
pub open spec fn set_bit_post(
    cpu: Cpu,
    mem: Memory,
    reg: RegU8,
    bit_pos: u8,
    post_cpu: Cpu,
    post_mem: Memory,
) -> bool {
    let v = read_u8_val(cpu, mem, reg);
    let cpu1 = after_u8_read(cpu, reg);
    let result = v | (1u8 << bit_pos);
    &&& post_cpu == write_u8_cpu(cpu1, reg, result)
    &&& mem_after_u8_store(cpu1, mem, reg, result, post_mem)
}

/// Sets bit `bit_pos` of the 8-bit operand `reg`.
pub fn set_bit(cpu: &mut Cpu, mem: &mut Memory, reg: &RegU8, bit_pos: u8)
    requires
        old(mem).wf(),
        reg_u8_readable(*reg),
        !(*reg is U8),
        bit_pos < 8,
    ensures
        final(mem).wf(),
        set_bit_post(*old(cpu), *old(mem), *reg, bit_pos, *final(cpu), *final(mem)),
{
    let value = cpu.get_reg_u8(mem, reg);
    let result = value | (1u8 << bit_pos);
    cpu.set_reg_u8(mem, reg, result);
}

/// What `reset_bit` does: the tested bit of the operand is forced to zero;
/// no flag changes.
pub open spec fn reset_bit_post(
    cpu: Cpu,
    mem: Memory,
    reg: RegU8,
    bit_pos: u8,
    post_cpu: Cpu,
    post_mem: Memory,
) -> bool {
    let v = read_u8_val(cpu, mem, reg);
    let cpu1 = after_u8_read(cpu, reg);
    let result = v & !(1u8 << bit_pos);
    &&& post_cpu == write_u8_cpu(cpu1, reg, result)
    &&& mem_after_u8_store(cpu1, mem, reg, result, post_mem)
}

/// Clears bit `bit_pos` of the 8-bit operand `reg`.
pub fn reset_bit(cpu: &mut Cpu, mem: &mut Memory, reg: &RegU8, bit_pos: u8)
    requires
        old(mem).wf(),
        reg_u8_readable(*reg),
        !(*reg is U8),
        bit_pos < 8,
    ensures
        final(mem).wf(),
        reset_bit_post(*old(cpu), *old(mem), *reg, bit_pos, *final(cpu), *final(mem)),
{
    let value = cpu.get_reg_u8(mem, reg);
    let result = value & !(1u8 << bit_pos);
    cpu.set_reg_u8(mem, reg, result);
}

/// Whether a conditional control transfer is taken: unconditional forms
/// always are, conditional forms when the named flag matches `is_set`.
pub open spec fn branch_taken(cpu: Cpu, flag: Option<Flag>, is_set: bool) -> bool {
    match flag {
        None => true,
        Some(fl) => flag_of(cpu.f, fl) == is_set,
    }
}

/// The cycle surcharge a conditional branch adds when it is taken: 4 for a
/// jump, 12 for a call; unconditional forms add nothing.
pub open spec fn branch_surcharge(cpu: Cpu, flag: Option<Flag>, is_set: bool, is_call: bool) -> u8 {
    if flag is Some && branch_taken(cpu, flag, is_set) {
        if is_call {
            12
        } else {
            4
        }
    } else {
        0
    }
}

/// What `jump` does.  The address operand is always consumed, so when the
/// condition is false the program counter advances exactly past the
/// instruction and nothing else changes.  When it holds, a conditional form
/// adds its surcharge (4 for a jump, 12 for a call) to the pending-cycle
/// accumulator exactly once; a call first pushes the address of the next
/// instruction; and the program counter takes the target: the operand value,
/// or for the relative form the next-instruction address plus the
/// sign-extended offset.
pub open spec fn jump_post(
    cpu: Cpu,
    mem: Memory,
    addr: RegU16,
    is_call: bool,
    flag: Option<Flag>,
    is_set: bool,
    post_cpu: Cpu,
    post_mem: Memory,
) -> bool {
    let taken = branch_taken(cpu, flag, is_set);
    let addr_val = read_u16_val(cpu, mem, addr);
    let cpu1 = Cpu {
        pc: read_u16_pc(cpu, addr),
        pending_ticks: wadd8(cpu.pending_ticks, branch_surcharge(cpu, flag, is_set, is_call)),
        ..cpu
    };
    if !taken {
        &&& post_cpu == cpu1
        &&& post_mem == mem
    } else {
        let target = if addr is I8 {
            wadd16(cpu1.pc, addr_val)
        } else {
            addr_val
        };
        if is_call {
            &&& post_cpu == (Cpu { pc: target, sp: wsub16(cpu1.sp, 2), ..cpu1 })
            &&& mem_after_push(cpu1.sp, mem, cpu1.pc, post_mem)
        } else {
            &&& post_cpu == (Cpu { pc: target, ..cpu1 })
            &&& post_mem == mem
        }
    }
}

/// Jumps, or calls a subroutine, at the 16-bit operand `addr`, absolutely or
/// relatively, unconditionally or on a flag condition.
pub fn jump(
    cpu: &mut Cpu,
    mem: &mut Memory,
    addr: &RegU16,
    is_call: bool,
    flag: Option<Flag>,
    is_set: bool,
)
    requires
        old(mem).wf(),
        !(*addr is RamU16),
    ensures
        final(mem).wf(),
        jump_post(*old(cpu), *old(mem), *addr, is_call, flag, is_set, *final(cpu), *final(mem)),
{
    let mut taken = true;

    if let Some(fl) = flag {
        if cpu.get_flag(fl) != is_set {
            taken = false;
        } else {
            // Jump condition is fulfilled; add the taken-branch surcharge
            match is_call {
                false => cpu.add_ticks(4),
                true => cpu.add_ticks(12),
            }
        }
    }

    let addr_unwrapped = cpu.get_reg_u16(mem, addr);

    if taken {
        if is_call {
            let pc = cpu.pc;
            cpu.write_u16_to_stack(pc, mem);
        }
        match addr {
            // Relative jump
            RegU16::I8 => cpu.pc = cpu.pc.wrapping_add(addr_unwrapped),
            // Absolute jump
            _ => cpu.pc = addr_unwrapped,
        }
    }
}

/// What `reset` does: the current program counter is pushed and control
/// moves to the fixed vector `nth_byte * 8` on the first page.
pub open spec fn reset_post(
    cpu: Cpu,
    mem: Memory,
    nth_byte: u16,
    post_cpu: Cpu,
    post_mem: Memory,
) -> bool {
    &&& post_cpu == (Cpu { pc: (nth_byte * 8) as u16, sp: wsub16(cpu.sp, 2), ..cpu })
    &&& mem_after_push(cpu.sp, mem, cpu.pc, post_mem)
}

/// Pushes the current address and restarts at the `nth_byte`-th vector of
/// the first page.
pub fn reset(cpu: &mut Cpu, mem: &mut Memory, nth_byte: u16)
    requires
        old(mem).wf(),
        nth_byte <= 7,
    ensures
        final(mem).wf(),
        reset_post(*old(cpu), *old(mem), nth_byte, *final(cpu), *final(mem)),
{
    let pc = cpu.pc;
    cpu.write_u16_to_stack(pc, mem);
    cpu.pc = nth_byte * 8;
}

/// What `ret` does.  When the condition is false only the conditional
/// surcharge bookkeeping could change, and no surcharge is added; when it
/// holds, a conditional form adds 12 cycles exactly once, the program
/// counter is popped off the stack, and the interrupt-enabling form turns
/// the master-interrupt-enable flag on immediately (no one-instruction
/// latency).
pub open spec fn ret_post(
    cpu: Cpu,
    mem: Memory,
    flag: Option<Flag>,
    is_set: bool,
    i_enable: bool,
    post_cpu: Cpu,
    post_mem: Memory,
) -> bool {
    let taken = branch_taken(cpu, flag, is_set);
    let cpu1 = Cpu {
        pending_ticks: wadd8(cpu.pending_ticks, branch_surcharge(cpu, flag, is_set, true)),
        ..cpu
    };
    &&& post_mem == mem
    &&& if !taken {
        post_cpu == cpu1
    } else {
        post_cpu == (Cpu {
            pc: u16_of(mem.spec_read(wadd16(cpu.sp, 1)), mem.spec_read(cpu.sp)),
            sp: wadd16(cpu.sp, 2),
            mie: i_enable || cpu.mie,
            ..cpu1
        })
    }
}

/// Returns from a subroutine, unconditionally or on a flag condition,
/// enabling interrupts at once when `i_enable` is set.
pub fn ret(cpu: &mut Cpu, mem: &mut Memory, flag: Option<Flag>, is_set: bool, i_enable: bool)
    requires
        old(mem).wf(),
    ensures
        *final(mem) == *old(mem),
        ret_post(*old(cpu), *old(mem), flag, is_set, i_enable, *final(cpu), *final(mem)),
{
    let mut taken = true;

    if let Some(fl) = flag {
        if cpu.get_flag(fl) != is_set {
            taken = false;
        } else {
            // Return condition is fulfilled; add the taken-branch surcharge
            cpu.add_ticks(12);
        }
    }

    if taken {
        let addr = cpu.read_u16_from_stack(mem);
        cpu.pc = addr;

        if i_enable {
            cpu.mie = true;
        }
    }
}

} // verus!
