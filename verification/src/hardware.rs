//! The processor's register file and flag register.
//!
//! Eight 8-bit registers pair up into four 16-bit views (the high register
//! holds bits 15..8), next to a 16-bit stack pointer and program counter.
//! The flag byte packs the four condition flags into its upper nibble; all
//! flag traffic goes through `get_flag` / `flag` so that every instruction's
//! flag behaviour is explicit in its contract.

use vstd::prelude::*;

use crate::memory::{bank_after, ram_after, write_unsupported, Memory};

verus! {

/// An 8-bit operand: a general register, the immediate byte behind the
/// program counter, a byte of memory on the high page (`0xFF00 +` an 8-bit
/// operand), or a byte of memory addressed by a 16-bit operand.
#[derive(PartialEq, Eq, Debug)]
pub enum RegU8 {
    A,
    B,
    C,
    D,
    E,
    H,
    L,
    U8,
    RamU8(Box<RegU8>),
    RamU16(RegU16),
}

/// A 16-bit operand: a register pair, the stack pointer, the immediate word
/// behind the program counter, the sign-extended immediate byte, or a word
/// of memory addressed by another 16-bit operand (store destinations only).
#[derive(PartialEq, Eq, Debug)]
pub enum RegU16 {
    AF,
    BC,
    DE,
    HL,
    SP,
    U16,
    I8,
    RamU16(Box<RegU16>),
}

/// `a + b` on 16 bits, wrapping.
pub open spec fn wadd16(a: u16, b: u16) -> u16 {
    if a + b > 0xFFFF {
        (a + b - 0x10000) as u16
    } else {
        (a + b) as u16
    }
}

/// `a - b` on 16 bits, wrapping.
pub open spec fn wsub16(a: u16, b: u16) -> u16 {
    if a - b < 0 {
        (a - b + 0x10000) as u16
    } else {
        (a - b) as u16
    }
}

/// `a + b` on 8 bits, wrapping.
pub open spec fn wadd8(a: u8, b: u8) -> u8 {
    if a + b > 0xFF {
        (a + b - 0x100) as u8
    } else {
        (a + b) as u8
    }
}

/// `a - b` on 8 bits, wrapping.
pub open spec fn wsub8(a: u8, b: u8) -> u8 {
    if a - b < 0 {
        (a - b + 0x100) as u8
    } else {
        (a - b) as u8
    }
}

/// The immediate byte `n`, sign-extended to 16 bits.
pub open spec fn sign_extend(n: u8) -> u16 {
    ((n as i8) as u16)
}

/// The four condition flags, from bit 7 down to bit 4 of the flag byte:
/// zero, subtract, half-carry, carry.
#[derive(Clone, Copy, Debug, PartialEq, Eq)]
pub enum Flag {
    Z,
    N,
    H,
    C,
}

/// All four condition flags unpacked into booleans.
pub struct Flags {
    pub z: bool,
    pub n: bool,
    pub h: bool,
    pub c: bool,
}

/// The bit that `fl` occupies inside the flag byte.
pub open spec fn flag_mask(fl: Flag) -> u8 {
    match fl {
        Flag::Z => 0x80,
        Flag::N => 0x40,
        Flag::H => 0x20,
        Flag::C => 0x10,
    }
}

/// The flag byte `f` with flag `fl` forced to `state`.
pub open spec fn set_flag_byte(f: u8, fl: Flag, state: bool) -> u8 {
    if state {
        f | flag_mask(fl)
    } else {
        f & !flag_mask(fl)
    }
}

/// The 16-bit value whose upper byte is `high` and lower byte is `low`.
pub open spec fn u16_of(high: u8, low: u8) -> u16 {
    ((high as u16) << 8) | (low as u16)
}

/// The upper byte of `nn`.
pub open spec fn high_byte(nn: u16) -> u8 {
    (nn >> 8) as u8
}

/// The lower byte of `nn`.
pub open spec fn low_byte(nn: u16) -> u8 {
    nn as u8
}

/// Splitting a 16-bit value into bytes and recombining them through a
/// register pair gives the value back, for all 65536 values.
pub proof fn lemma_pair_round_trip(nn: u16)
    ensures
        u16_of(high_byte(nn), low_byte(nn)) == nn,
{
    assert((((nn >> 8) as u8 as u16) << 8) | (nn as u8 as u16) == nn) by (bit_vector);
}

/// Recombining two bytes and splitting the result gives the bytes back.
pub proof fn lemma_pair_split(high: u8, low: u8)
    ensures
        high_byte(u16_of(high, low)) == high,
        low_byte(u16_of(high, low)) == low,
{
    assert(((((high as u16) << 8) | (low as u16)) >> 8) as u8 == high) by (bit_vector);
    assert((((high as u16) << 8) | (low as u16)) as u8 == low) by (bit_vector);
}

/// The register file, with the interrupt-enable state and the two pieces of
/// deferred bookkeeping the scheduler consumes: a pending transition of the
/// master-interrupt-enable flag (one-instruction latency of the enable /
/// disable instructions) and the cycle surcharge accumulated by taken
/// branches.
pub struct Cpu {
    pub a: u8,
    pub f: u8,
    pub b: u8,
    pub c: u8,
    pub d: u8,
    pub e: u8,
    pub h: u8,
    pub l: u8,
    pub sp: u16,
    pub pc: u16,
    pub mie: bool,
    pub pending_mie: Option<bool>,
    pub pending_ticks: u8,
    pub is_halted: bool,
}

/// Whether flag `fl` is set in the flag byte `f`.
pub open spec fn flag_of(f: u8, fl: Flag) -> bool {
    f & flag_mask(fl) > 0
}

/// The low nibble of a byte stays below 0x10, and masking with 0xFF changes
/// nothing.
pub proof fn lemma_low_nibble(x: u8)
    by (bit_vector)
    ensures
        x & 0xF < 0x10,
        x & 0xFF == x,
{
}

impl Cpu {
    /// Whether flag `fl` is set in this register file.
    pub open spec fn spec_flag(self, fl: Flag) -> bool {
        flag_of(self.f, fl)
    }

    pub fn get_a(&self) -> (r: u8)
        ensures
            r == self.a,
    {
        self.a
    }

    pub fn get_f(&self) -> (r: u8)
        ensures
            r == self.f,
    {
        self.f
    }

    pub fn get_b(&self) -> (r: u8)
        ensures
            r == self.b,
    {
        self.b
    }

    pub fn get_c(&self) -> (r: u8)
        ensures
            r == self.c,
    {
        self.c
    }

    pub fn get_d(&self) -> (r: u8)
        ensures
            r == self.d,
    {
        self.d
    }

    pub fn get_e(&self) -> (r: u8)
        ensures
            r == self.e,
    {
        self.e
    }

    pub fn get_h(&self) -> (r: u8)
        ensures
            r == self.h,
    {
        self.h
    }

    pub fn get_l(&self) -> (r: u8)
        ensures
            r == self.l,
    {
        self.l
    }

    pub fn get_af(&self) -> (r: u16)
        ensures
            r == u16_of(self.a, self.f),
    {
        Cpu::get_u16(self.a, self.f)
    }

    pub fn get_bc(&self) -> (r: u16)
        ensures
            r == u16_of(self.b, self.c),
    {
        Cpu::get_u16(self.b, self.c)
    }

    pub fn get_de(&self) -> (r: u16)
        ensures
            r == u16_of(self.d, self.e),
    {
        Cpu::get_u16(self.d, self.e)
    }

    pub fn get_hl(&self) -> (r: u16)
        ensures
            r == u16_of(self.h, self.l),
    {
        Cpu::get_u16(self.h, self.l)
    }

    pub fn get_sp(&self) -> (r: u16)
        ensures
            r == self.sp,
    {
        self.sp
    }

    pub fn get_pc(&self) -> (r: u16)
        ensures
            r == self.pc,
    {
        self.pc
    }

    pub fn get_mie(&self) -> (r: bool)
        ensures
            r == self.mie,
    {
        self.mie
    }

    pub(crate) fn get_u16(high: u8, low: u8) -> (r: u16)
        ensures
            r == u16_of(high, low),
    {
        ((high as u16) << 8) | low as u16
    }

    pub fn set_a(&mut self, n: u8)
        ensures
            *final(self) == (Cpu { a: n, ..*old(self) }),
    {
        self.a = n;
    }

    pub fn set_f(&mut self, n: u8)
        ensures
            *final(self) == (Cpu { f: n, ..*old(self) }),
    {
        self.f = n;
    }

    pub fn set_b(&mut self, n: u8)
        ensures
            *final(self) == (Cpu { b: n, ..*old(self) }),
    {
        self.b = n;
    }

    pub fn set_c(&mut self, n: u8)
        ensures
            *final(self) == (Cpu { c: n, ..*old(self) }),
    {
        self.c = n;
    }

    pub fn set_d(&mut self, n: u8)
        ensures
            *final(self) == (Cpu { d: n, ..*old(self) }),
    {
        self.d = n;
    }

    pub fn set_e(&mut self, n: u8)
        ensures
            *final(self) == (Cpu { e: n, ..*old(self) }),
    {
        self.e = n;
    }

    pub fn set_h(&mut self, n: u8)
        ensures
            *final(self) == (Cpu { h: n, ..*old(self) }),
    {
        self.h = n;
    }

    pub fn set_l(&mut self, n: u8)
        ensures
            *final(self) == (Cpu { l: n, ..*old(self) }),
    {
        self.l = n;
    }

    pub fn set_af(&mut self, n: u16)
        ensures
            *final(self) == (Cpu { a: high_byte(n), f: low_byte(n), ..*old(self) }),
    {
        let (high, low) = Cpu::split_u16(n);
        self.a = high;
        self.f = low;
    }

    pub fn set_bc(&mut self, n: u16)
        ensures
            *final(self) == (Cpu { b: high_byte(n), c: low_byte(n), ..*old(self) }),
    {
        let (high, low) = Cpu::split_u16(n);
        self.b = high;
        self.c = low;
    }

    pub fn set_de(&mut self, n: u16)
        ensures
            *final(self) == (Cpu { d: high_byte(n), e: low_byte(n), ..*old(self) }),
    {
        let (high, low) = Cpu::split_u16(n);
        self.d = high;
        self.e = low;
    }

    pub fn set_hl(&mut self, n: u16)
        ensures
            *final(self) == (Cpu { h: high_byte(n), l: low_byte(n), ..*old(self) }),
    {
        let (high, low) = Cpu::split_u16(n);
        self.h = high;
        self.l = low;
    }

    pub fn set_sp(&mut self, n: u16)
        ensures
            *final(self) == (Cpu { sp: n, ..*old(self) }),
    {
        self.sp = n;
    }

    pub fn set_pc(&mut self, n: u16)
        ensures
            *final(self) == (Cpu { pc: n, ..*old(self) }),
    {
        self.pc = n;
    }

    pub fn set_mie(&mut self, b: bool)
        ensures
            *final(self) == (Cpu { mie: b, ..*old(self) }),
    {
        self.mie = b;
    }

    fn split_u16(n: u16) -> (r: (u8, u8))
        ensures
            r.0 == high_byte(n),
            r.1 == low_byte(n),
    {
        ((n >> 8) as u8, n as u8)
    }

    /// Whether flag `fl` is currently set.
    pub fn get_flag(&self, fl: Flag) -> (r: bool)
        ensures
            r == self.spec_flag(fl),
    {
        match fl {
            Flag::Z => self.f & 0b1000_0000 > 0,
            Flag::N => self.f & 0b0100_0000 > 0,
            Flag::H => self.f & 0b0010_0000 > 0,
            Flag::C => self.f & 0b0001_0000 > 0,
        }
    }

    /// Forces flag `fl` to `state`, leaving every other bit of the flag byte
    /// and every register untouched.
    pub fn flag(&mut self, fl: Flag, state: bool)
        ensures
            *final(self) == (Cpu { f: set_flag_byte(old(self).f, fl, state), ..*old(self) }),
            final(self).spec_flag(fl) == state,
            forall|g: Flag|
                flag_mask(g) != flag_mask(fl) ==> final(self).spec_flag(g) == old(
                    self,
                ).spec_flag(g),
            final(self).f & 0x0F == old(self).f & 0x0F,
    {
        let bit: u8 = match fl {
            Flag::Z => 0b1000_0000,
            Flag::N => 0b0100_0000,
            Flag::H => 0b0010_0000,
            Flag::C => 0b0001_0000,
        };

        let f = self.f;
        match state {
            true => {
                proof {
                    assert((f | bit) & bit > 0 && ((bit != 0x80u8) ==> (((f | bit) & 0x80 > 0)
                        <==> (f & 0x80 > 0))) && ((bit != 0x40u8) ==> (((f | bit) & 0x40 > 0) <==> (
                    f & 0x40 > 0))) && ((bit != 0x20u8) ==> (((f | bit) & 0x20 > 0) <==> (f & 0x20
                        > 0))) && ((bit != 0x10u8) ==> (((f | bit) & 0x10 > 0) <==> (f & 0x10 > 0)))
                        && (f | bit) & 0x0F == f & 0x0F) by (bit_vector)
                        requires
                            bit == 0x80u8 || bit == 0x40u8 || bit == 0x20u8 || bit == 0x10u8,
                    ;
                }
                self.f = self.f | bit;
            },
            false => {
                proof {
                    assert(!((f & !bit) & bit > 0) && ((bit != 0x80u8) ==> (((f & !bit) & 0x80 > 0)
                        <==> (f & 0x80 > 0))) && ((bit != 0x40u8) ==> (((f & !bit) & 0x40 > 0) <==>
                    (f & 0x40 > 0))) && ((bit != 0x20u8) ==> (((f & !bit) & 0x20 > 0) <==> (f & 0x20
                        > 0))) && ((bit != 0x10u8) ==> (((f & !bit) & 0x10 > 0) <==> (f & 0x10 > 0)))
                        && (f & !bit) & 0x0F == f & 0x0F) by (bit_vector)
                        requires
                            bit == 0x80u8 || bit == 0x40u8 || bit == 0x20u8 || bit == 0x10u8,
                    ;
                }
                self.f = self.f & !bit;
            },
        }
    }

    /// Sets flag `fl`.
    pub fn set_flag(&mut self, fl: Flag)
        ensures
            *final(self) == (Cpu { f: set_flag_byte(old(self).f, fl, true), ..*old(self) }),
            final(self).spec_flag(fl),
            forall|g: Flag|
                flag_mask(g) != flag_mask(fl) ==> final(self).spec_flag(g) == old(
                    self,
                ).spec_flag(g),
            final(self).f & 0x0F == old(self).f & 0x0F,
    {
        self.flag(fl, true);
    }

    /// Clears flag `fl`.
    pub fn clear_flag(&mut self, fl: Flag)
        ensures
            *final(self) == (Cpu { f: set_flag_byte(old(self).f, fl, false), ..*old(self) }),
            !final(self).spec_flag(fl),
            forall|g: Flag|
                flag_mask(g) != flag_mask(fl) ==> final(self).spec_flag(g) == old(
                    self,
                ).spec_flag(g),
            final(self).f & 0x0F == old(self).f & 0x0F,
    {
        self.flag(fl, false);
    }

    /// All four flags, unpacked.
    pub fn get_flags(&self) -> (r: Flags)
        ensures
            r.z == self.spec_flag(Flag::Z),
            r.n == self.spec_flag(Flag::N),
            r.h == self.spec_flag(Flag::H),
            r.c == self.spec_flag(Flag::C),
    {
        Flags {
            z: self.f & 0b1000_0000 > 0,
            n: self.f & 0b0100_0000 > 0,
            h: self.f & 0b0010_0000 > 0,
            c: self.f & 0b0001_0000 > 0,
        }
    }

    /// Commits a pending master-interrupt-enable transition, if the previous
    /// instruction requested one.
    pub fn update_interrupt_status(&mut self)
        ensures
            *final(self) == match old(self).pending_mie {
                Some(status) => (Cpu { mie: status, pending_mie: None, ..*old(self) }),
                None => *old(self),
            },
    {
        if let Some(new_status) = self.pending_mie {
            self.mie = new_status;
            self.pending_mie = None;
        }
    }

    /// Adds a branch-taken cycle surcharge for the scheduler to collect.
    pub fn add_ticks(&mut self, ticks: u8)
        ensures
            *final(self) == (Cpu {
                pending_ticks: vstd::wrapping::u8_specs::wrapping_add(
                    old(self).pending_ticks,
                    ticks,
                ),
                ..*old(self)
            }),
    {
        self.pending_ticks = self.pending_ticks.wrapping_add(ticks);
    }

    /// The cycle surcharge accumulated so far.
    pub fn get_ticks(&self) -> (r: u8)
        ensures
            r == self.pending_ticks,
    {
        self.pending_ticks
    }

    /// Resets the cycle surcharge at the start of a scheduler step.
    pub fn clear_ticks(&mut self)
        ensures
            *final(self) == (Cpu { pending_ticks: 0, ..*old(self) }),
    {
        self.pending_ticks = 0;
    }
}

/// Whether reading the 8-bit operand `reg` is defined: a word operand used
/// as an address must itself be readable (the nested store-only form is not).
pub open spec fn reg_u8_readable(reg: RegU8) -> bool
    decreases reg,
{
    match reg {
        RegU8::RamU8(r) => reg_u8_readable(*r),
        RegU8::RamU16(rr) => !(rr is RamU16),
        _ => true,
    }
}

/// The value of the 8-bit operand `reg` in state `cpu` / `mem`.
pub open spec fn read_u8_val(cpu: Cpu, mem: Memory, reg: RegU8) -> u8
    decreases reg,
{
    match reg {
        RegU8::A => cpu.a,
        RegU8::B => cpu.b,
        RegU8::C => cpu.c,
        RegU8::D => cpu.d,
        RegU8::E => cpu.e,
        RegU8::H => cpu.h,
        RegU8::L => cpu.l,
        RegU8::U8 => mem.spec_read(cpu.pc),
        RegU8::RamU8(r) => mem.spec_read((0xFF00 + read_u8_val(cpu, mem, *r)) as u16),
        RegU8::RamU16(rr) => mem.spec_read(read_u16_val(cpu, mem, rr)),
    }
}

/// The program counter after the operand bytes of `reg` are consumed.
pub open spec fn read_u8_pc(cpu: Cpu, reg: RegU8) -> u16
    decreases reg,
{
    match reg {
        RegU8::U8 => wadd16(cpu.pc, 1),
        RegU8::RamU8(r) => read_u8_pc(cpu, *r),
        RegU8::RamU16(rr) => read_u16_pc(cpu, rr),
        _ => cpu.pc,
    }
}

/// The value of the 16-bit operand `rr` in state `cpu` / `mem`.  The
/// store-only memory form has no read value.
pub open spec fn read_u16_val(cpu: Cpu, mem: Memory, rr: RegU16) -> u16 {
    match rr {
        RegU16::AF => u16_of(cpu.a, cpu.f),
        RegU16::BC => u16_of(cpu.b, cpu.c),
        RegU16::DE => u16_of(cpu.d, cpu.e),
        RegU16::HL => u16_of(cpu.h, cpu.l),
        RegU16::SP => cpu.sp,
        RegU16::U16 => u16_of(mem.spec_read(wadd16(cpu.pc, 1)), mem.spec_read(cpu.pc)),
        RegU16::I8 => sign_extend(mem.spec_read(cpu.pc)),
        RegU16::RamU16(_) => 0,
    }
}

/// The program counter after the operand bytes of `rr` are consumed.
pub open spec fn read_u16_pc(cpu: Cpu, rr: RegU16) -> u16 {
    match rr {
        RegU16::U16 => wadd16(cpu.pc, 2),
        RegU16::I8 => wadd16(cpu.pc, 1),
        _ => cpu.pc,
    }
}

/// The register file after storing `n` into the 8-bit operand `reg`: either
/// one register changes, or only the program counter moves past the operand
/// bytes that name the memory destination.
pub open spec fn write_u8_cpu(cpu: Cpu, reg: RegU8, n: u8) -> Cpu {
    match reg {
        RegU8::A => Cpu { a: n, ..cpu },
        RegU8::B => Cpu { b: n, ..cpu },
        RegU8::C => Cpu { c: n, ..cpu },
        RegU8::D => Cpu { d: n, ..cpu },
        RegU8::E => Cpu { e: n, ..cpu },
        RegU8::H => Cpu { h: n, ..cpu },
        RegU8::L => Cpu { l: n, ..cpu },
        RegU8::U8 => cpu,
        RegU8::RamU8(r) => Cpu { pc: read_u8_pc(cpu, *r), ..cpu },
        RegU8::RamU16(rr) => Cpu { pc: read_u16_pc(cpu, rr), ..cpu },
    }
}

/// The memory address that storing into the 8-bit operand `reg` hits, if
/// any.
pub open spec fn write_u8_addr(cpu: Cpu, mem: Memory, reg: RegU8) -> Option<u16> {
    match reg {
        RegU8::RamU8(r) => Some((0xFF00 + read_u8_val(cpu, mem, *r)) as u16),
        RegU8::RamU16(rr) => Some(read_u16_val(cpu, mem, rr)),
        _ => None,
    }
}

/// How storing `n` into the 8-bit operand `reg` relates the memory before
/// (`mem`) and after (`post`): one write through [`Memory::write`] for the
/// memory forms, nothing for the register forms.
pub open spec fn mem_after_u8_store(cpu: Cpu, mem: Memory, reg: RegU8, n: u8, post: Memory) -> bool {
    &&& post.cartridge.banks == mem.cartridge.banks
    &&& post.cartridge.kind == mem.cartridge.kind
    &&& match write_u8_addr(cpu, mem, reg) {
        Some(addr) => {
            &&& post.cartridge.active_bank == bank_after(
                mem.cartridge.kind,
                mem.cartridge.active_bank,
                addr,
                n,
            )
            &&& post.cartridge.unsupported_write == (mem.cartridge.unsupported_write
                || write_unsupported(mem.cartridge.kind, addr))
            &&& post.ram@ == ram_after(mem.ram@, addr, n)
        },
        None => post == mem,
    }
}

/// The register file after storing `nn` into the 16-bit operand `rr`: a
/// register pair or the stack pointer changes, or only the program counter
/// moves past the operand bytes that name the memory destination.
pub open spec fn write_u16_cpu(cpu: Cpu, rr: RegU16, nn: u16) -> Cpu {
    match rr {
        RegU16::AF => Cpu { a: high_byte(nn), f: low_byte(nn), ..cpu },
        RegU16::BC => Cpu { b: high_byte(nn), c: low_byte(nn), ..cpu },
        RegU16::DE => Cpu { d: high_byte(nn), e: low_byte(nn), ..cpu },
        RegU16::HL => Cpu { h: high_byte(nn), l: low_byte(nn), ..cpu },
        RegU16::SP => Cpu { sp: nn, ..cpu },
        RegU16::RamU16(b) => Cpu { pc: read_u16_pc(cpu, *b), ..cpu },
        _ => cpu,
    }
}

/// How the memory `mem` relates to `post` after two consecutive writes: of
/// `low` at `addr` and of `high` at the following address.
pub open spec fn mem_after_two_writes(
    mem: Memory,
    addr: u16,
    low: u8,
    high: u8,
    post: Memory,
) -> bool {
    &&& post.cartridge.banks == mem.cartridge.banks
    &&& post.cartridge.kind == mem.cartridge.kind
    &&& post.cartridge.active_bank == bank_after(
        mem.cartridge.kind,
        bank_after(mem.cartridge.kind, mem.cartridge.active_bank, addr, low),
        wadd16(addr, 1),
        high,
    )
    &&& post.cartridge.unsupported_write == (mem.cartridge.unsupported_write
        || write_unsupported(mem.cartridge.kind, addr) || write_unsupported(
        mem.cartridge.kind,
        wadd16(addr, 1),
    ))
    &&& post.ram@ == ram_after(ram_after(mem.ram@, addr, low), wadd16(addr, 1), high)
}

/// How storing `nn` into the 16-bit operand `rr` relates the memory before
/// and after: two writes (low byte first) for the memory form, nothing
/// otherwise.
pub open spec fn mem_after_u16_store(
    cpu: Cpu,
    mem: Memory,
    rr: RegU16,
    nn: u16,
    post: Memory,
) -> bool {
    match rr {
        RegU16::RamU16(b) => mem_after_two_writes(
            mem,
            read_u16_val(cpu, mem, *b),
            low_byte(nn),
            high_byte(nn),
            post,
        ),
        _ => post == mem,
    }
}

/// How pushing `nn` onto a stack whose pointer stood at `sp` relates the
/// memory before and after: the low byte lands at `sp - 2`, the high byte
/// at `sp - 1`.
pub open spec fn mem_after_push(sp: u16, mem: Memory, nn: u16, post: Memory) -> bool {
    mem_after_two_writes(mem, wsub16(sp, 2), low_byte(nn), high_byte(nn), post)
}

impl Cpu {
    /// Reads the byte behind the program counter and steps past it.
    pub(crate) fn get_op(&mut self, mem: &Memory) -> (n: u8)
        requires
            mem.wf(),
        ensures
            n == mem.spec_read(old(self).pc),
            *final(self) == (Cpu { pc: wadd16(old(self).pc, 1), ..*old(self) }),
    {
        let n = mem.read(self.pc);
        self.pc = self.pc.wrapping_add(1);

        n
    }

    /// The value of the 8-bit operand `reg`, consuming any immediate bytes.
    pub fn get_reg_u8(&mut self, mem: &Memory, reg: &RegU8) -> (r: u8)
        requires
            mem.wf(),
            reg_u8_readable(*reg),
        ensures
            r == read_u8_val(*old(self), *mem, *reg),
            *final(self) == (Cpu { pc: read_u8_pc(*old(self), *reg), ..*old(self) }),
        decreases *reg,
    {
        match reg {
            RegU8::A => self.a,
            RegU8::B => self.b,
            RegU8::C => self.c,
            RegU8::D => self.d,
            RegU8::E => self.e,
            RegU8::H => self.h,
            RegU8::L => self.l,
            RegU8::U8 => self.get_op(mem),
            RegU8::RamU8(reg_u8) => mem.read(0xFF00 + (self.get_reg_u8(mem, &**reg_u8) as u16)),
            RegU8::RamU16(reg_u16) => mem.read(self.get_reg_u16(mem, reg_u16)),
        }
    }

    /// The value of the 16-bit operand `rr`, consuming any immediate bytes.
    pub fn get_reg_u16(&mut self, mem: &Memory, rr: &RegU16) -> (r: u16)
        requires
            mem.wf(),
            !(*rr is RamU16),
        ensures
            r == read_u16_val(*old(self), *mem, *rr),
            *final(self) == (Cpu { pc: read_u16_pc(*old(self), *rr), ..*old(self) }),
    {
        match rr {
            RegU16::AF => Cpu::get_u16(self.a, self.f),
            RegU16::BC => Cpu::get_u16(self.b, self.c),
            RegU16::DE => Cpu::get_u16(self.d, self.e),
            RegU16::HL => Cpu::get_u16(self.h, self.l),
            RegU16::SP => self.sp,
            RegU16::U16 => {
                let low = self.get_op(mem);
                let high = self.get_op(mem);
                Cpu::get_u16(high, low)
            },
            // A cast through i8 sign-extends the operand byte into the
            // whole upper byte
            RegU16::I8 => (self.get_op(mem) as i8) as u16,
            RegU16::RamU16(_) => unreached(),
        }
    }

    /// Stores `n` into the 8-bit operand `reg`: into a register, or through
    /// [`Memory::write`] for the memory forms.
    pub fn set_reg_u8(&mut self, mem: &mut Memory, reg: &RegU8, n: u8)
        requires
            old(mem).wf(),
            !(*reg is U8),
            reg_u8_readable(*reg),
        ensures
            final(mem).wf(),
            *final(self) == write_u8_cpu(*old(self), *reg, n),
            mem_after_u8_store(*old(self), *old(mem), *reg, n, *final(mem)),
    {
        match reg {
            RegU8::A => self.a = n,
            RegU8::B => self.b = n,
            RegU8::C => self.c = n,
            RegU8::D => self.d = n,
            RegU8::E => self.e = n,
            RegU8::H => self.h = n,
            RegU8::L => self.l = n,
            RegU8::U8 => unreached(),
            RegU8::RamU8(reg_u8) => {
                let addr_low = self.get_reg_u8(mem, &**reg_u8);
                mem.write(0xFF00 + addr_low as u16, n);
            },
            RegU8::RamU16(reg_u16) => {
                let addr = self.get_reg_u16(mem, reg_u16);
                mem.write(addr, n);
            },
        }
    }

    /// Stores `nn` into the 16-bit operand `rr`: into a register pair, the
    /// stack pointer, or two consecutive bytes of memory (low byte first).
    pub fn set_reg_u16(&mut self, mem: &mut Memory, rr: &RegU16, nn: u16)
        requires
            old(mem).wf(),
            !(*rr is U16),
            !(*rr is I8),
            (*rr matches RegU16::RamU16(b) ==> !(*b is RamU16)),
        ensures
            final(mem).wf(),
            *final(self) == write_u16_cpu(*old(self), *rr, nn),
            mem_after_u16_store(*old(self), *old(mem), *rr, nn, *final(mem)),
    {
        match rr {
            RegU16::AF => {
                let (high, low) = Cpu::split_u16(nn);
                self.a = high;
                self.f = low;
            },
            RegU16::BC => {
                let (high, low) = Cpu::split_u16(nn);
                self.b = high;
                self.c = low;
            },
            RegU16::DE => {
                let (high, low) = Cpu::split_u16(nn);
                self.d = high;
                self.e = low;
            },
            RegU16::HL => {
                let (high, low) = Cpu::split_u16(nn);
                self.h = high;
                self.l = low;
            },
            RegU16::SP => self.sp = nn,
            RegU16::U16 => unreached(),
            RegU16::I8 => unreached(),
            RegU16::RamU16(reg_u16) => {
                let addr = self.get_reg_u16(mem, &**reg_u16);
                mem.write(addr, nn as u8);  // Low
                mem.write(addr.wrapping_add(1), (nn >> 8) as u8);  // High
            },
        }
    }

    /// Pushes `nn` onto the stack: the stack pointer drops by two, then the
    /// low byte lands at the new top and the high byte just above it.
    pub fn write_u16_to_stack(&mut self, nn: u16, mem: &mut Memory)
        requires
            old(mem).wf(),
        ensures
            final(mem).wf(),
            *final(self) == (Cpu { sp: wsub16(old(self).sp, 2), ..*old(self) }),
            mem_after_push(old(self).sp, *old(mem), nn, *final(mem)),
    {
        self.sp = self.sp.wrapping_sub(2);
        mem.write(self.sp, nn as u8);
        mem.write(self.sp.wrapping_add(1), (nn >> 8) as u8);
    }

    /// Pops a 16-bit value off the stack: the low byte comes from the top,
    /// the high byte from just above it, and the stack pointer rises by two.
    pub fn read_u16_from_stack(&mut self, mem: &Memory) -> (r: u16)
        requires
            mem.wf(),
        ensures
            r == u16_of(mem.spec_read(wadd16(old(self).sp, 1)), mem.spec_read(old(self).sp)),
            *final(self) == (Cpu { sp: wadd16(old(self).sp, 2), ..*old(self) }),
    {
        let h: u8 = mem.read(self.sp.wrapping_add(1));
        let l: u8 = mem.read(self.sp);
        let value: u16 = Cpu::get_u16(h, l);

        self.sp = self.sp.wrapping_add(2);
        value
    }
}

} // verus!
