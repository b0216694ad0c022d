//! A cycle-accurate emulation core for an 8-bit handheld game console.
//!
//! The crate models the processor (registers, flags, instruction decode and
//! execution), the banked 16-bit address space, the interrupt controller,
//! the timer, the sprite DMA engine and the per-frame scheduler.  Every
//! executable function carries a contract that pins down its effect on the
//! machine state; the surrounding program (window, input, ROM loading) lives
//! outside this crate and talks to it through plain values.

use vstd::prelude::*;

pub mod controls;
pub mod dma;
pub mod gpu;
pub mod hardware;
pub mod instructions;
pub mod interrupts;
pub mod laws;
pub mod master;
pub mod memory;
pub mod opcodes;
pub mod timer;

verus! {

/// Host-side settings for one emulation session.  The core itself only ever
/// reads plain values out of it; loading the ROM file at `rom_path` is the
/// caller's business.
pub struct Config {
    pub rom_path: String,
    pub debug: u32,
    pub full_screen: bool,
    pub framerate: u32,
}

} // verus!
