//! The timer: a free-running divider and an optional programmable counter.
//!
//! Every executed cycle batch advances the divider; each 256-cycle rollover
//! bumps the divider register directly (bypassing the generic write path,
//! which would reset it).  When the control register's enable bit is set,
//! the counter advances too; past the configured period it reloads the
//! counter register from the modulo register on overflow and raises the
//! timer interrupt flag, or simply increments it otherwise.

use vstd::prelude::*;

use crate::hardware::wadd8;
use crate::memory::{ram_after, Memory};

verus! {

/// The timer's internal cycle accounting: cycles toward the next divider
/// bump, the configured period, cycles toward the next counter step, and
/// whether the counter is enabled.
pub struct Timer {
    /// update every 256
    pub divider_ticks: u16,
    pub division: u16,
    /// update every division
    pub timer_ticks: u16,
    pub timer_enb: bool,
}

/// The two low control bits select one of four fixed periods.
pub open spec fn period_of(bits: u8) -> u16 {
    if bits == 0b00 {
        1024
    } else if bits == 0b01 {
        16
    } else if bits == 0b10 {
        64
    } else {
        256
    }
}

/// The two low control bits stay below four.
proof fn lemma_two_bits(x: u8)
    by (bit_vector)
    ensures
        x & 0b0000_0011 < 4,
{
}

/// How one timer update relates the states before and after, in the same
/// three stages as the body: the divider bump, the control-register reload
/// of period and enable bit, and the counter step with its reload-and-flag
/// overflow path.
#[verifier::opaque]
pub open spec fn timer_update_post(
    t: Timer,
    mem: Memory,
    ticks: u8,
    post_t: Timer,
    post_ram: Seq<u8>,
) -> bool {
    let rolled = t.divider_ticks + ticks > 255;
    let ram1 = if rolled {
        mem.ram@.update(0x7F04, wadd8(mem.ram@[0x7F04], 1))
    } else {
        mem.ram@
    };
    let control = mem.spec_read(0xFF07);
    let enabled = control & 0b0000_0100 > 0;
    let division = period_of(control & 0b0000_0011);
    &&& post_t.divider_ticks == if rolled {
        0
    } else {
        (t.divider_ticks + ticks) as u16
    }
    &&& post_t.division == division
    &&& post_t.timer_enb == enabled
    &&& if !enabled {
        &&& post_t.timer_ticks == t.timer_ticks
        &&& post_ram == ram1
    } else if t.timer_ticks + ticks <= division {
        &&& post_t.timer_ticks == (t.timer_ticks + ticks) as u16
        &&& post_ram == ram1
    } else {
        let counter = mem.spec_read(0xFF05);
        &&& post_t.timer_ticks == 0
        &&& post_ram == if counter == 255 {
            // overflow: reload from the modulo register and raise the timer
            // interrupt flag
            ram_after(
                ram_after(ram1, 0xFF05, mem.spec_read(0xFF06)),
                0xFF0F,
                mem.spec_read(0xFF0F) | 0b0000_0100,
            )
        } else {
            ram_after(ram1, 0xFF05, (counter + 1) as u8)
        }
    }
}

impl Timer {
    /// Feeds `ticks` elapsed cycles to the divider and, when enabled, to the
    /// programmable counter.  The contract walks the same three stages as
    /// the body: the divider bump, the control-register reload of period and
    /// enable bit, and the counter step with its reload-and-flag overflow
    /// path.
    pub fn update(&mut self, ticks: u8, mem: &mut Memory)
        requires
            old(mem).wf(),
            old(self).divider_ticks <= 0xFF00,
            old(self).timer_ticks <= 0xFF00,
        ensures
            final(mem).wf(),
            final(mem).cartridge == old(mem).cartridge,
            timer_update_post(*old(self), *old(mem), ticks, *final(self), final(mem).ram@),
            final(self).divider_ticks <= 255,
            final(self).timer_ticks <= 1024 || final(self).timer_ticks == old(self).timer_ticks,
    {
        proof {
            reveal(timer_update_post);
        }
        self.divider_ticks += ticks as u16;

        // Up divider
        if self.divider_ticks > 255 {
            self.divider_ticks = 0;
            // Bypassing the generic write path is essential here: a write to
            // the divider address resets it to zero
            let bumped = mem.ram[0x7F04].wrapping_add(1);
            mem.ram[0x7F04] = bumped;
        }

        // Update the division value
        let bits: u8 = mem.read(0xFF07) & 0b0000_0011;
        proof {
            lemma_two_bits(mem.spec_read(0xFF07));
        }
        match bits {
            0b00 => self.division = 1024,
            0b01 => self.division = 16,
            0b10 => self.division = 64,
            0b11 => self.division = 256,
            _ => {},
        }

        // Update the enable value
        if (mem.read(0xFF07) & 0b0000_0100) > 0 {
            self.timer_enb = true;
        } else {
            self.timer_enb = false;
        }

        // Update the counter
        if self.timer_enb {
            self.timer_ticks += ticks as u16;
            if self.timer_ticks > self.division {
                if mem.read(0xFF05) == 255 {
                    let modulo = mem.read(0xFF06);
                    mem.write(0xFF05, modulo);
                    let flags = mem.read(0xFF0F);
                    mem.write(0xFF0F, flags | 0b0000_0100);
                } else {
                    let counter = mem.read(0xFF05);
                    mem.write(0xFF05, counter + 1);
                }
                self.timer_ticks = 0;
            }
        }
    }
}

} // verus!
