//! The sprite DMA engine.
//!
//! A non-zero byte in the trigger register names a source page; the engine
//! copies the fixed 160-byte block starting at `trigger << 8` into sprite
//! memory at `0xFE00` in one synchronous shot, then clears the trigger.

use vstd::prelude::*;

use crate::memory::{ram_after, read_at, Memory};

verus! {

/// The number of bytes one transfer moves.
pub const DMA_LEN: u16 = 0xA0;

/// The working RAM after the first `i` bytes of a transfer from `src` have
/// landed at `0xFE00`, byte by byte: each step reads the source through the
/// full address map (so a transfer out of sprite memory itself sees its own
/// earlier writes) and stores into sprite memory.
pub open spec fn dma_ram(banks: Seq<Vec<u8>>, active: u8, ram0: Seq<u8>, src: u16, i: int) -> Seq<
    u8,
>
    decreases i,
{
    if i <= 0 {
        ram0
    } else {
        let prev = dma_ram(banks, active, ram0, src, i - 1);
        ram_after(prev, (0xFE00 + (i - 1)) as u16, read_at(banks, active, prev, (src + (i - 1)) as u16))
    }
}

/// A source page stays low enough for the whole block to fit in the address
/// space.
proof fn lemma_page_bound(x: u8)
    by (bit_vector)
    ensures
        (x as u16) << 8 <= 0xFF00,
{
}

/// Performs one pending sprite DMA transfer, if the trigger register holds a
/// source page: the 160-byte block at `trigger << 8` is copied into
/// `0xFE00..0xFEA0` and the trigger register is reset to zero.  A zero
/// trigger leaves everything untouched.
pub fn update_dma(mem: &mut Memory)
    requires
        old(mem).wf(),
    ensures
        final(mem).wf(),
        final(mem).cartridge == old(mem).cartridge,
        ({
            let trigger = old(mem).spec_read(0xFF46);
            if trigger == 0 {
                *final(mem) == *old(mem)
            } else {
                final(mem).ram@ == ram_after(
                    dma_ram(
                        old(mem).cartridge.banks@,
                        old(mem).cartridge.active_bank,
                        old(mem).ram@,
                        (trigger as u16) << 8,
                        DMA_LEN as int,
                    ),
                    0xFF46,
                    0,
                )
            }
        }),
{
    let trigger = mem.read(0xFF46);
    if trigger != 0 {
        proof {
            lemma_page_bound(trigger);
        }
        let source: u16 = (trigger as u16) << 8;
        let dest: u16 = 0xFE00;
        let mut i: u16 = 0;
        while i < DMA_LEN
            invariant
                mem.wf(),
                mem.cartridge == old(mem).cartridge,
                i <= DMA_LEN,
                source == (old(mem).spec_read(0xFF46) as u16) << 8,
                source <= 0xFF00,
                dest == 0xFE00,
                mem.ram@ == dma_ram(
                    old(mem).cartridge.banks@,
                    old(mem).cartridge.active_bank,
                    old(mem).ram@,
                    source,
                    i as int,
                ),
            decreases DMA_LEN - i,
        {
            let byte = mem.read(source + i);
            mem.write(dest + i, byte);
            i = i + 1;
        }
        mem.write(0xFF46, 0);
    }
}

} // verus!
