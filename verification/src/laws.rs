//! The arithmetic and timing laws of the instruction set, stated once and
//! proved from the semantic functions' contracts.

use vstd::prelude::*;

use vstd::arithmetic::div_mod::{lemma_mod_add_multiples_vanish, lemma_small_mod};

use crate::hardware::{
    read_u16_pc, read_u8_val, wadd8, wsub8, Cpu, Flag, RegU16, RegU8,
};
use crate::instructions::instruct_fn::{
    add_post, branch_surcharge, branch_taken, cmp_post, dec_post, inc_post, jump_post, ret_post,
    sub_result,
};
use crate::memory::Memory;

verus! {

/// Wrapping 8-bit addition is addition modulo 256.
pub proof fn lemma_wadd8_mod(a: u8, b: u8)
    ensures
        wadd8(a, b) == (a + b) % 256,
{
    if a + b <= 0xFF {
        lemma_small_mod((a + b) as nat, 256);
    } else {
        lemma_mod_add_multiples_vanish(a + b - 256, 256);
        lemma_small_mod((a + b - 256) as nat, 256);
    }
}

/// Wrapping 8-bit subtraction is subtraction modulo 256.
pub proof fn lemma_wsub8_mod(a: u8, b: u8)
    ensures
        wsub8(a, b) == (a - b) % 256,
{
    if a - b >= 0 {
        lemma_small_mod((a - b) as nat, 256);
    } else {
        lemma_mod_add_multiples_vanish(a - b, 256);
        lemma_small_mod((a - b + 256) as nat, 256);
    }
}

/// For all 8-bit values `a`, `b`: adding `b` to an accumulator holding `a`
/// yields `(a + b) mod 256`, sets carry exactly when `a + b > 255`, sets
/// half-carry exactly when `(a & 0xF) + (b & 0xF) > 0xF`, tracks zero, and
/// always clears subtract.
pub proof fn lemma_add_flags(
    pre: Cpu,
    mem: Memory,
    src: RegU8,
    post_cpu: Cpu,
    post_mem: Memory,
)
    requires
        add_post(pre, mem, src, false, post_cpu, post_mem),
    ensures
        ({
            let a = pre.a;
            let b = read_u8_val(pre, mem, src);
            &&& post_cpu.a == (a + b) % 256
            &&& post_cpu.spec_flag(Flag::C) == (a + b > 255)
            &&& post_cpu.spec_flag(Flag::H) == ((a & 0x0F) + (b & 0x0F) > 0x0F)
            &&& post_cpu.spec_flag(Flag::Z) == (post_cpu.a == 0)
            &&& !post_cpu.spec_flag(Flag::N)
        }),
{
    let b = read_u8_val(pre, mem, src);
    lemma_wadd8_mod(pre.a, b);
    lemma_wadd8_mod(wadd8(pre.a, b), 0);
}

/// For all 8-bit values `a`, `b`: subtracting `b` from an accumulator
/// holding `a` yields `(a - b) mod 256`, sets carry exactly when `a < b`,
/// sets half-carry exactly when `(a & 0xF) < (b & 0xF)`, tracks zero, and
/// always sets subtract.  The compare form computes the same flags and
/// result while leaving the accumulator alone.
pub proof fn lemma_sub_flags(
    pre: Cpu,
    mem: Memory,
    src: RegU8,
    post_cpu: Cpu,
    post_mem: Memory,
)
    requires
        cmp_post(pre, mem, src, false, post_cpu, post_mem),
    ensures
        ({
            let a = pre.a;
            let b = read_u8_val(pre, mem, src);
            &&& sub_result(pre, mem, src, false) == (a - b) % 256
            &&& post_cpu.spec_flag(Flag::C) == (a < b)
            &&& post_cpu.spec_flag(Flag::H) == ((a & 0x0F) < (b & 0x0F))
            &&& post_cpu.spec_flag(Flag::Z) == (sub_result(pre, mem, src, false) == 0)
            &&& post_cpu.spec_flag(Flag::N)
            &&& post_cpu.a == pre.a
        }),
{
    let b = read_u8_val(pre, mem, src);
    lemma_wsub8_mod(pre.a, b);
    lemma_wsub8_mod(wsub8(pre.a, b), 0);
}

/// Incrementing and then decrementing any general register restores its
/// original value and leaves the carry flag exactly as it was before either
/// instruction; neither instruction touches memory through a register
/// operand.
pub proof fn lemma_inc_dec_round_trip(
    c0: Cpu,
    m0: Memory,
    reg: RegU8,
    c1: Cpu,
    m1: Memory,
    c2: Cpu,
    m2: Memory,
)
    requires
        reg is A || reg is B || reg is C || reg is D || reg is E || reg is H || reg is L,
        inc_post(c0, m0, reg, c1, m1),
        dec_post(c1, m1, reg, c2, m2),
    ensures
        read_u8_val(c2, m2, reg) == read_u8_val(c0, m0, reg),
        c2.spec_flag(Flag::C) == c0.spec_flag(Flag::C),
        c2.pc == c0.pc,
        m1 == m0,
        m2 == m0,
{
}

/// A conditional jump or call consumes its address operand either way.
/// When the condition fails, the program counter has advanced exactly past
/// the instruction's bytes, no cycle surcharge is added, and nothing else
/// changes.  When it holds, the surcharge (4 for a jump, 12 for a call) is
/// added to the pending-cycle accumulator exactly once — as plain addition
/// whenever the 8-bit accumulator cannot wrap, which the scheduler
/// guarantees by clearing it every step.
pub proof fn lemma_conditional_jump_timing(
    pre: Cpu,
    mem: Memory,
    addr: RegU16,
    is_call: bool,
    fl: Flag,
    is_set: bool,
    post_cpu: Cpu,
    post_mem: Memory,
)
    requires
        jump_post(pre, mem, addr, is_call, Some(fl), is_set, post_cpu, post_mem),
    ensures
        !branch_taken(pre, Some(fl), is_set) ==> {
            &&& post_cpu == (Cpu { pc: read_u16_pc(pre, addr), ..pre })
            &&& post_cpu.pending_ticks == pre.pending_ticks
            &&& post_mem == mem
        },
        branch_taken(pre, Some(fl), is_set) ==> post_cpu.pending_ticks == wadd8(
            pre.pending_ticks,
            if is_call {
                12
            } else {
                4
            },
        ),
        branch_taken(pre, Some(fl), is_set) && pre.pending_ticks <= 0xF0
            ==> post_cpu.pending_ticks == pre.pending_ticks + (
        if is_call {
            12int
        } else {
            4int
        }),
{
}

/// A conditional return adds its 12-cycle surcharge exactly once when the
/// condition holds (as plain addition whenever the 8-bit accumulator cannot
/// wrap), and adds nothing while changing nothing when it fails.
pub proof fn lemma_conditional_ret_timing(
    pre: Cpu,
    mem: Memory,
    fl: Flag,
    is_set: bool,
    i_enable: bool,
    post_cpu: Cpu,
    post_mem: Memory,
)
    requires
        ret_post(pre, mem, Some(fl), is_set, i_enable, post_cpu, post_mem),
    ensures
        post_mem == mem,
        !branch_taken(pre, Some(fl), is_set) ==> post_cpu == pre,
        branch_taken(pre, Some(fl), is_set) ==> post_cpu.pending_ticks == wadd8(
            pre.pending_ticks,
            12,
        ),
        branch_taken(pre, Some(fl), is_set) && pre.pending_ticks <= 0xF0
            ==> post_cpu.pending_ticks == pre.pending_ticks + 12,
{
}

/// The branch surcharge of an unconditional control transfer is zero: its
/// cycle cost is taken at face value.
pub proof fn lemma_unconditional_no_surcharge(pre: Cpu, is_set: bool, is_call: bool)
    ensures
        branch_surcharge(pre, None, is_set, is_call) == 0,
{
}

} // verus!
