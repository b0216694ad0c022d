//! The button state, packed into the input register.
//!
//! Eight button lines, active-low (0 means pressed).  Which half appears in
//! the input register depends on the select bit the game last wrote there:
//! the direction cross or the four buttons.  Reading the keyboard itself is
//! the host program's business; the core only packs the lines.

use vstd::prelude::*;

use crate::memory::{ram_after, Memory};

verus! {

/// The eight button lines, each 0 (pressed) or 1 (released).
pub struct Controls {
    pub up: u8,
    pub down: u8,
    pub left: u8,
    pub right: u8,
    pub a: u8,
    pub b: u8,
    pub select: u8,
    pub start: u8,
}

/// The byte the input register shows for button state `c`, given its
/// current value `n`: the direction cross when bit 5 of `n` is set, the
/// four buttons otherwise.
pub open spec fn packed_input(c: Controls, n: u8) -> u8 {
    if n & 0b0010_0000 > 0 {
        // cross
        0b1110_0000 | (c.down << 3) | (c.up << 2) | (c.left << 1) | c.right
    } else {
        // buttons
        0b1101_0000 | (c.start << 3) | (c.select << 2) | (c.b << 1) | c.a
    }
}

impl Controls {
    /// Writes the packed button lines into the input register.
    pub fn update_ram(&self, mem: &mut Memory)
        requires
            old(mem).wf(),
        ensures
            final(mem).wf(),
            final(mem).cartridge == old(mem).cartridge,
            final(mem).ram@ == ram_after(
                old(mem).ram@,
                0xFF00,
                packed_input(*self, old(mem).spec_read(0xFF00)),
            ),
    {
        let mut n = mem.read(0xFF00);
        if n & 0b0010_0000 > 0 {
            // cross
            n = 0b1110_0000 | (self.down << 3) | (self.up << 2) | (self.left << 1) | self.right;
        } else {
            // buttons
            n = 0b1101_0000 | (self.start << 3) | (self.select << 2) | (self.b << 1) | self.a;
        }
        mem.write(0xFF00, n);
    }
}

} // verus!
