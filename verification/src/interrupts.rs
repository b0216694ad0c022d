//! The interrupt controller.
//!
//! Two memory-mapped bytes drive it: the enable mask at `0xFFFF` and the
//! pending flags at `0xFF0F`.  When the master-interrupt-enable flag permits
//! dispatch, the single highest-priority pending-and-enabled interrupt (the
//! lowest vector number) is dispatched: its pending bit is cleared, further
//! dispatch is disabled, the current program counter is pushed, and control
//! moves to the fixed vector.  Lower-priority interrupts stay pending for
//! the next check.

use vstd::prelude::*;

use crate::hardware::{high_byte, low_byte, mem_after_push, wadd16, wsub16, Cpu};
use crate::memory::{bank_after, ram_after, write_unsupported, Memory};

verus! {

pub const INTERRUPTS_VBLANK: u8 = 1;
pub const INTERRUPTS_LCDSTAT: u8 = 2;
pub const INTERRUPTS_TIMER: u8 = 4;
pub const INTERRUPTS_SERIAL: u8 = 8;
pub const INTERRUPTS_JOYPAD: u8 = 16;

/// The interrupts that are both enabled and pending: the enable mask anded
/// with the pending flags.
pub open spec fn pending_mask(mem: Memory) -> u8 {
    mem.spec_read(0xFFFF) & mem.spec_read(0xFF0F)
}

/// The pending bit and fixed vector of the highest-priority interrupt in
/// `mask`: video refresh first, then display status, timer, serial, input.
pub open spec fn dispatch_of(mask: u8) -> Option<(u8, u16)> {
    if mask & INTERRUPTS_VBLANK > 0 {
        Some((INTERRUPTS_VBLANK, 0x40))
    } else if mask & INTERRUPTS_LCDSTAT > 0 {
        Some((INTERRUPTS_LCDSTAT, 0x48))
    } else if mask & INTERRUPTS_TIMER > 0 {
        Some((INTERRUPTS_TIMER, 0x50))
    } else if mask & INTERRUPTS_SERIAL > 0 {
        Some((INTERRUPTS_SERIAL, 0x58))
    } else if mask & INTERRUPTS_JOYPAD > 0 {
        Some((INTERRUPTS_JOYPAD, 0x60))
    } else {
        None
    }
}

/// No bit of an empty mask is set.
proof fn lemma_zero_mask()
    by (bit_vector)
    ensures
        0u8 & 1 == 0,
        0u8 & 2 == 0,
        0u8 & 4 == 0,
        0u8 & 8 == 0,
        0u8 & 16 == 0,
{
}

/// The cycle cost a step's interrupt check adds to the scheduler's
/// accounting: a dispatched vector jump costs 12 cycles, no dispatch costs
/// nothing.
pub open spec fn spec_dispatch_cost(cpu: Cpu, mem: Memory) -> u64 {
    if cpu.mie && dispatch_of(pending_mask(mem)) is Some {
        12
    } else {
        0
    }
}

/// Whether the next interrupt check will dispatch a vector jump: the
/// processor permits dispatch and one of the five interrupts is both
/// enabled and pending.
pub fn will_dispatch(cpu: &Cpu, mem: &Memory) -> (r: bool)
    requires
        mem.wf(),
    ensures
        r == (cpu.mie && dispatch_of(pending_mask(*mem)) is Some),
{
    let mask = mem.read(0xFFFF) & mem.read(0xFF0F);
    cpu.get_mie() && (mask & INTERRUPTS_VBLANK > 0 || mask & INTERRUPTS_LCDSTAT > 0 || mask
        & INTERRUPTS_TIMER > 0 || mask & INTERRUPTS_SERIAL > 0 || mask & INTERRUPTS_JOYPAD > 0)
}

/// How a vector jump relates the states before and after: dispatch is
/// disabled, the return address is pushed, and control moves to `vector`.
pub open spec fn vector_jump_post(
    cpu: Cpu,
    mem: Memory,
    vector: u16,
    post_cpu: Cpu,
    post_mem: Memory,
) -> bool {
    &&& post_cpu == (Cpu { mie: false, sp: wsub16(cpu.sp, 2), pc: vector, ..cpu })
    &&& mem_after_push(cpu.sp, mem, cpu.pc, post_mem)
}

/// How one interrupt check relates the states before and after: when the
/// processor permits dispatch and an enabled interrupt is pending, the
/// highest-priority one has its pending bit cleared, the return address is
/// pushed, dispatch is disabled and control moves to its vector; otherwise
/// nothing changes.
#[verifier::opaque]
pub open spec fn interrupt_check_post(cpu: Cpu, mem: Memory, post_cpu: Cpu, post_mem: Memory) -> bool {
    match (if cpu.mie {
        dispatch_of(pending_mask(mem))
    } else {
        None
    }) {
        Some(bv) => {
            let cleared = mem.spec_read(0xFF0F) & !bv.0;
            let sp2 = wsub16(cpu.sp, 2);
            let pc = cpu.pc;
            let ram1 = ram_after(mem.ram@, 0xFF0F, cleared);
            &&& post_cpu == (Cpu { mie: false, sp: sp2, pc: bv.1, ..cpu })
            &&& post_mem.ram@ == ram_after(
                ram_after(ram1, sp2, low_byte(pc)),
                wadd16(sp2, 1),
                high_byte(pc),
            )
            &&& post_mem.cartridge.active_bank == bank_after(
                mem.cartridge.kind,
                bank_after(mem.cartridge.kind, mem.cartridge.active_bank, sp2, low_byte(pc)),
                wadd16(sp2, 1),
                high_byte(pc),
            )
            &&& post_mem.cartridge.unsupported_write == (mem.cartridge.unsupported_write
                || write_unsupported(mem.cartridge.kind, sp2) || write_unsupported(
                mem.cartridge.kind,
                wadd16(sp2, 1),
            ))
            &&& post_mem.cartridge.banks == mem.cartridge.banks
            &&& post_mem.cartridge.kind == mem.cartridge.kind
        },
        None => {
            &&& post_cpu == cpu
            &&& post_mem == mem
        },
    }
}

/// Checks for a dispatchable interrupt and performs at most one vector
/// jump.  Returns whether any interrupt is pending at all, whether or not
/// the processor currently permits dispatch.
pub fn interrupt_check(cpu: &mut Cpu, mem: &mut Memory) -> (r: bool)
    requires
        old(mem).wf(),
    ensures
        final(mem).wf(),
        r == (pending_mask(*old(mem)) != 0),
        interrupt_check_post(*old(cpu), *old(mem), *final(cpu), *final(mem)),
{
    proof {
        reveal(interrupt_check_post);
    }
    if mem.read(0xFFFF) & mem.read(0xFF0F) > 0 {
        if cpu.mie {
            let mask: u8 = mem.read(0xFFFF) & mem.read(0xFF0F);

            if mask & INTERRUPTS_VBLANK > 0 {
                let cleared = mem.read(0xFF0F) & !INTERRUPTS_VBLANK;
                mem.write(0xFF0F, cleared);
                vblank(cpu, mem);
                return true;
            }
            if mask & INTERRUPTS_LCDSTAT > 0 {
                let cleared = mem.read(0xFF0F) & !INTERRUPTS_LCDSTAT;
                mem.write(0xFF0F, cleared);
                lcd_stat(cpu, mem);
                return true;
            }
            if mask & INTERRUPTS_TIMER > 0 {
                let cleared = mem.read(0xFF0F) & !INTERRUPTS_TIMER;
                mem.write(0xFF0F, cleared);
                timer(cpu, mem);
                return true;
            }
            if mask & INTERRUPTS_SERIAL > 0 {
                let cleared = mem.read(0xFF0F) & !INTERRUPTS_SERIAL;
                mem.write(0xFF0F, cleared);
                serial(cpu, mem);
                return true;
            }
            if mask & INTERRUPTS_JOYPAD > 0 {
                let cleared = mem.read(0xFF0F) & !INTERRUPTS_JOYPAD;
                mem.write(0xFF0F, cleared);
                joypad(cpu, mem);
                return true;
            }
        }
        true
    } else {
        proof {
            lemma_zero_mask();
        }
        false
    }
}

/// Vector jump of the video-refresh interrupt; costs 12 extra cycles.
pub fn vblank(cpu: &mut Cpu, mem: &mut Memory)
    requires
        old(mem).wf(),
    ensures
        final(mem).wf(),
        vector_jump_post(*old(cpu), *old(mem), 0x40, *final(cpu), *final(mem)),
{
    cpu.mie = false;
    let pc = cpu.pc;
    cpu.write_u16_to_stack(pc, mem);
    cpu.pc = 0x40;
}

/// Vector jump of the display-status interrupt; costs 12 extra cycles.
pub fn lcd_stat(cpu: &mut Cpu, mem: &mut Memory)
    requires
        old(mem).wf(),
    ensures
        final(mem).wf(),
        vector_jump_post(*old(cpu), *old(mem), 0x48, *final(cpu), *final(mem)),
{
    cpu.mie = false;
    let pc = cpu.pc;
    cpu.write_u16_to_stack(pc, mem);
    cpu.pc = 0x48;
}

/// Vector jump of the timer interrupt; costs 12 extra cycles.
pub fn timer(cpu: &mut Cpu, mem: &mut Memory)
    requires
        old(mem).wf(),
    ensures
        final(mem).wf(),
        vector_jump_post(*old(cpu), *old(mem), 0x50, *final(cpu), *final(mem)),
{
    cpu.mie = false;
    let pc = cpu.pc;
    cpu.write_u16_to_stack(pc, mem);
    cpu.pc = 0x50;
}

/// Vector jump of the serial interrupt; costs 12 extra cycles.
pub fn serial(cpu: &mut Cpu, mem: &mut Memory)
    requires
        old(mem).wf(),
    ensures
        final(mem).wf(),
        vector_jump_post(*old(cpu), *old(mem), 0x58, *final(cpu), *final(mem)),
{
    cpu.mie = false;
    let pc = cpu.pc;
    cpu.write_u16_to_stack(pc, mem);
    cpu.pc = 0x58;
}

/// Vector jump of the input interrupt; costs 12 extra cycles.
pub fn joypad(cpu: &mut Cpu, mem: &mut Memory)
    requires
        old(mem).wf(),
    ensures
        final(mem).wf(),
        vector_jump_post(*old(cpu), *old(mem), 0x60, *final(cpu), *final(mem)),
{
    cpu.mie = false;
    let pc = cpu.pc;
    cpu.write_u16_to_stack(pc, mem);
    cpu.pc = 0x60;
}

} // verus!
