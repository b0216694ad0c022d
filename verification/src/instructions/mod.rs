//! Instruction decode and dispatch.
//!
//! A fetched [`Instruct`] pairs an opcode with a fully-typed operation and
//! its base cycle cost.  Decode is a total, pure function of the opcode and
//! (for the two-byte prefixed family) the follow-up byte: every one of the
//! 256 x 256 combinations yields a valid instruction, the documented unused
//! ranges becoming four-cycle no-ops.  Execution dispatches on the
//! operation's shape to the parameterized semantic functions of
//! [`instruct_fn`].

use vstd::prelude::*;
use vstd::string::StringExecFns;

pub mod instruct_fn;

use crate::hardware::{reg_u8_readable, wadd16, Cpu, Flag, RegU16, RegU8};
use crate::memory::Memory;
use instruct_fn::{
    add_post, add_u16_i8_post, add_u16_post, and_post, bit_post, change_mie_post, cmp_post,
    cpl_post, daa_post, dec_post, dec_u16_post, inc_post, inc_u16_post, jump_post, load_plus_post,
    load_post, load_u16_post, or_post, pop_post, push_post, reset_bit_post, reset_post, ret_post,
    rotate_post, set_bit_post, set_carry_post, sub_post, swap_post, xor_post,
};

verus! {

/// One decoded instruction: the opcode byte it came from, its fully-typed
/// operation, a human-readable mnemonic, and its base cycle cost (the
/// taken-branch surcharge of conditional forms is accounted separately).
pub struct Instruct {
    pub opcode: u8,
    pub inst: InstructType,
    pub desc: String,
    pub ticks: u8,
}

/// The tagged operation of an instruction: one shape per semantic function,
/// parameterized by operand descriptors.
#[derive(PartialEq, Eq, Debug)]
pub enum InstructType {
    /// Source, destination
    Load(RegU8, RegU8),
    /// Source, destination, increase (true) / decrease (false)
    LoadPlus(RegU8, RegU8, bool),
    /// Source, destination
    LoadU16(RegU16, RegU16),
    /// Source (destination is the stack)
    Push(RegU16),
    /// Destination (source is the stack)
    Pop(RegU16),
    /// Source, with carry (true) / without carry (false)
    Add(RegU8, bool),
    /// Source, with carry (true) / without carry (false)
    Sub(RegU8, bool),
    /// Source (destination is A)
    And(RegU8),
    /// Source (destination is A)
    Or(RegU8),
    /// Source (destination is A)
    Xor(RegU8),
    /// Source (compared with A)
    Cmp(RegU8),
    /// Register
    Inc(RegU8),
    /// Register
    Dec(RegU8),
    /// Source (destination is HL)
    AddU16(RegU16),
    /// Destination, immediate signed offset
    AddU16I8(RegU16, RegU16),
    /// Register
    IncU16(RegU16),
    /// Register
    DecU16(RegU16),
    /// (register is A)
    Daa,
    /// (register is A)
    Cpl,
    /// Flip flag (true) / set flag (false)
    SetCarry(bool),
    Nop,
    /// Enable interrupts (true) / disable interrupts (false)
    ChangeMie(bool),
    /// Register, left/right, through carry, update zero, shift/rotate,
    /// keep most-significant bit
    Rotate(RegU8, bool, bool, bool, bool, bool),
    /// Register
    Swap(RegU8),
    /// Register, bit position (0-7)
    Bit(RegU8, u8),
    /// Register, bit position (0-7)
    SetBit(RegU8, u8),
    /// Register, bit position (0-7)
    ResetBit(RegU8, u8),
    /// Address, call / jump, unconditional / flag dependent, taken if set /
    /// if reset
    Jump(RegU16, bool, Option<Flag>, bool),
    /// N-th vector of the first page to jump to (2 means 0x0010)
    Reset(u16),
    /// Unconditional / flag dependent, taken if set / if reset, enable
    /// interrupts / do nothing
    Ret(Option<Flag>, bool, bool),
}

/// The register slot an opcode's low three bits select, 0x06 being the
/// memory byte at HL.
pub open spec fn reg_of(code: u8) -> RegU8 {
    if code == 0x07 {
        RegU8::A
    } else if code == 0x00 {
        RegU8::B
    } else if code == 0x01 {
        RegU8::C
    } else if code == 0x02 {
        RegU8::D
    } else if code == 0x03 {
        RegU8::E
    } else if code == 0x04 {
        RegU8::H
    } else if code == 0x05 {
        RegU8::L
    } else {
        RegU8::RamU16(RegU16::HL)
    }
}

/// The register slot an opcode's low three bits select.
fn reg_code(code: u8) -> (r: RegU8)
    ensures
        r == reg_of(code),
{
    if code == 0x07 {
        RegU8::A
    } else if code == 0x00 {
        RegU8::B
    } else if code == 0x01 {
        RegU8::C
    } else if code == 0x02 {
        RegU8::D
    } else if code == 0x03 {
        RegU8::E
    } else if code == 0x04 {
        RegU8::H
    } else if code == 0x05 {
        RegU8::L
    } else {
        RegU8::RamU16(RegU16::HL)
    }
}

/// The decode table of the primary opcodes 0x00..=0x3F.
pub open spec fn spec_primary_q0(op: u8) -> (InstructType, u8) {
    if op == 0x3E {
        (InstructType::Load(RegU8::U8, RegU8::A), 8)
    } else if op == 0x0A {
        (InstructType::Load(RegU8::RamU16(RegU16::BC), RegU8::A), 8)
    } else if op == 0x1A {
        (InstructType::Load(RegU8::RamU16(RegU16::DE), RegU8::A), 8)
    } else if op == 0x06 {
        (InstructType::Load(RegU8::U8, RegU8::B), 8)
    } else if op == 0x0E {
        (InstructType::Load(RegU8::U8, RegU8::C), 8)
    } else if op == 0x16 {
        (InstructType::Load(RegU8::U8, RegU8::D), 8)
    } else if op == 0x1E {
        (InstructType::Load(RegU8::U8, RegU8::E), 8)
    } else if op == 0x26 {
        (InstructType::Load(RegU8::U8, RegU8::H), 8)
    } else if op == 0x2E {
        (InstructType::Load(RegU8::U8, RegU8::L), 8)
    } else if op == 0x36 {
        (InstructType::Load(RegU8::U8, RegU8::RamU16(RegU16::HL)), 12)
    } else if op == 0x02 {
        (InstructType::Load(RegU8::A, RegU8::RamU16(RegU16::BC)), 8)
    } else if op == 0x12 {
        (InstructType::Load(RegU8::A, RegU8::RamU16(RegU16::DE)), 8)
    } else if op == 0x3A {
        (InstructType::LoadPlus(RegU8::RamU16(RegU16::HL), RegU8::A, false), 8)
    } else if op == 0x32 {
        (InstructType::LoadPlus(RegU8::A, RegU8::RamU16(RegU16::HL), false), 8)
    } else if op == 0x2A {
        (InstructType::LoadPlus(RegU8::RamU16(RegU16::HL), RegU8::A, true), 8)
    } else if op == 0x22 {
        (InstructType::LoadPlus(RegU8::A, RegU8::RamU16(RegU16::HL), true), 8)
    } else if op == 0x01 {
        (InstructType::LoadU16(RegU16::U16, RegU16::BC), 12)
    } else if op == 0x11 {
        (InstructType::LoadU16(RegU16::U16, RegU16::DE), 12)
    } else if op == 0x21 {
        (InstructType::LoadU16(RegU16::U16, RegU16::HL), 12)
    } else if op == 0x31 {
        (InstructType::LoadU16(RegU16::U16, RegU16::SP), 12)
    } else if op == 0x08 {
        (InstructType::LoadU16(RegU16::SP, RegU16::RamU16(Box::new(RegU16::U16))), 20)
    } else if op == 0x3C {
        (InstructType::Inc(RegU8::A), 4)
    } else if op == 0x04 {
        (InstructType::Inc(RegU8::B), 4)
    } else if op == 0x0C {
        (InstructType::Inc(RegU8::C), 4)
    } else if op == 0x14 {
        (InstructType::Inc(RegU8::D), 4)
    } else if op == 0x1C {
        (InstructType::Inc(RegU8::E), 4)
    } else if op == 0x24 {
        (InstructType::Inc(RegU8::H), 4)
    } else if op == 0x2C {
        (InstructType::Inc(RegU8::L), 4)
    } else if op == 0x34 {
        (InstructType::Inc(RegU8::RamU16(RegU16::HL)), 12)
    } else if op == 0x3D {
        (InstructType::Dec(RegU8::A), 4)
    } else if op == 0x05 {
        (InstructType::Dec(RegU8::B), 4)
    } else if op == 0x0D {
        (InstructType::Dec(RegU8::C), 4)
    } else if op == 0x15 {
        (InstructType::Dec(RegU8::D), 4)
    } else if op == 0x1D {
        (InstructType::Dec(RegU8::E), 4)
    } else if op == 0x25 {
        (InstructType::Dec(RegU8::H), 4)
    } else if op == 0x2D {
        (InstructType::Dec(RegU8::L), 4)
    } else if op == 0x35 {
        (InstructType::Dec(RegU8::RamU16(RegU16::HL)), 12)
    } else if op == 0x09 {
        (InstructType::AddU16(RegU16::BC), 8)
    } else if op == 0x19 {
        (InstructType::AddU16(RegU16::DE), 8)
    } else if op == 0x29 {
        (InstructType::AddU16(RegU16::HL), 8)
    } else if op == 0x39 {
        (InstructType::AddU16(RegU16::SP), 8)
    } else if op == 0x03 {
        (InstructType::IncU16(RegU16::BC), 8)
    } else if op == 0x13 {
        (InstructType::IncU16(RegU16::DE), 8)
    } else if op == 0x23 {
        (InstructType::IncU16(RegU16::HL), 8)
    } else if op == 0x33 {
        (InstructType::IncU16(RegU16::SP), 8)
    } else if op == 0x0B {
        (InstructType::DecU16(RegU16::BC), 8)
    } else if op == 0x1B {
        (InstructType::DecU16(RegU16::DE), 8)
    } else if op == 0x2B {
        (InstructType::DecU16(RegU16::HL), 8)
    } else if op == 0x3B {
        (InstructType::DecU16(RegU16::SP), 8)
    } else if op == 0x27 {
        (InstructType::Daa, 4)
    } else if op == 0x2F {
        (InstructType::Cpl, 4)
    } else if op == 0x3F {
        (InstructType::SetCarry(true), 4)
    } else if op == 0x37 {
        (InstructType::SetCarry(false), 4)
    } else if op == 0x00 {
        (InstructType::Nop, 4)
    } else if op == 0x10 {
        // the low-power stop state is not modelled; decode stays total and
        // treats it as a no-op
        (InstructType::Nop, 4)
    } else if op == 0x07 {
        (InstructType::Rotate(RegU8::A, true, false, false, false, false), 4)
    } else if op == 0x17 {
        (InstructType::Rotate(RegU8::A, true, true, false, false, false), 4)
    } else if op == 0x0F {
        (InstructType::Rotate(RegU8::A, false, false, false, false, false), 4)
    } else if op == 0x1F {
        (InstructType::Rotate(RegU8::A, false, true, false, false, false), 4)
    } else if op == 0x18 {
        (InstructType::Jump(RegU16::I8, false, None, false), 12)
    } else if op == 0x20 {
        (InstructType::Jump(RegU16::I8, false, Some(Flag::Z), false), 8)
    } else if op == 0x28 {
        (InstructType::Jump(RegU16::I8, false, Some(Flag::Z), true), 8)
    } else if op == 0x30 {
        (InstructType::Jump(RegU16::I8, false, Some(Flag::C), false), 8)
    } else if op == 0x38 {
        (InstructType::Jump(RegU16::I8, false, Some(Flag::C), true), 8)
    } else {
        // The documented unused opcode slots decode to a no-op
        (InstructType::Nop, 4)
    }
}

/// Decodes one opcode of the same range.
#[verifier::spinoff_prover]
#[verifier::rlimit(60)]
fn decode_primary_q0(op: u8) -> (r: (InstructType, u8))
    ensures
        r == spec_primary_q0(op),
        r.1 >= 4,
        inst_wf(r.0),
{
    proof {
        reveal_with_fuel(reg_u8_readable, 3);
    }
    if op == 0x3E {
        (InstructType::Load(RegU8::U8, RegU8::A), 8)
    } else if op == 0x0A {
        (InstructType::Load(RegU8::RamU16(RegU16::BC), RegU8::A), 8)
    } else if op == 0x1A {
        (InstructType::Load(RegU8::RamU16(RegU16::DE), RegU8::A), 8)
    } else if op == 0x06 {
        (InstructType::Load(RegU8::U8, RegU8::B), 8)
    } else if op == 0x0E {
        (InstructType::Load(RegU8::U8, RegU8::C), 8)
    } else if op == 0x16 {
        (InstructType::Load(RegU8::U8, RegU8::D), 8)
    } else if op == 0x1E {
        (InstructType::Load(RegU8::U8, RegU8::E), 8)
    } else if op == 0x26 {
        (InstructType::Load(RegU8::U8, RegU8::H), 8)
    } else if op == 0x2E {
        (InstructType::Load(RegU8::U8, RegU8::L), 8)
    } else if op == 0x36 {
        (InstructType::Load(RegU8::U8, RegU8::RamU16(RegU16::HL)), 12)
    } else if op == 0x02 {
        (InstructType::Load(RegU8::A, RegU8::RamU16(RegU16::BC)), 8)
    } else if op == 0x12 {
        (InstructType::Load(RegU8::A, RegU8::RamU16(RegU16::DE)), 8)
    } else if op == 0x3A {
        (InstructType::LoadPlus(RegU8::RamU16(RegU16::HL), RegU8::A, false), 8)
    } else if op == 0x32 {
        (InstructType::LoadPlus(RegU8::A, RegU8::RamU16(RegU16::HL), false), 8)
    } else if op == 0x2A {
        (InstructType::LoadPlus(RegU8::RamU16(RegU16::HL), RegU8::A, true), 8)
    } else if op == 0x22 {
        (InstructType::LoadPlus(RegU8::A, RegU8::RamU16(RegU16::HL), true), 8)
    } else if op == 0x01 {
        (InstructType::LoadU16(RegU16::U16, RegU16::BC), 12)
    } else if op == 0x11 {
        (InstructType::LoadU16(RegU16::U16, RegU16::DE), 12)
    } else if op == 0x21 {
        (InstructType::LoadU16(RegU16::U16, RegU16::HL), 12)
    } else if op == 0x31 {
        (InstructType::LoadU16(RegU16::U16, RegU16::SP), 12)
    } else if op == 0x08 {
        (InstructType::LoadU16(RegU16::SP, RegU16::RamU16(Box::new(RegU16::U16))), 20)
    } else if op == 0x3C {
        (InstructType::Inc(RegU8::A), 4)
    } else if op == 0x04 {
        (InstructType::Inc(RegU8::B), 4)
    } else if op == 0x0C {
        (InstructType::Inc(RegU8::C), 4)
    } else if op == 0x14 {
        (InstructType::Inc(RegU8::D), 4)
    } else if op == 0x1C {
        (InstructType::Inc(RegU8::E), 4)
    } else if op == 0x24 {
        (InstructType::Inc(RegU8::H), 4)
    } else if op == 0x2C {
        (InstructType::Inc(RegU8::L), 4)
    } else if op == 0x34 {
        (InstructType::Inc(RegU8::RamU16(RegU16::HL)), 12)
    } else if op == 0x3D {
        (InstructType::Dec(RegU8::A), 4)
    } else if op == 0x05 {
        (InstructType::Dec(RegU8::B), 4)
    } else if op == 0x0D {
        (InstructType::Dec(RegU8::C), 4)
    } else if op == 0x15 {
        (InstructType::Dec(RegU8::D), 4)
    } else if op == 0x1D {
        (InstructType::Dec(RegU8::E), 4)
    } else if op == 0x25 {
        (InstructType::Dec(RegU8::H), 4)
    } else if op == 0x2D {
        (InstructType::Dec(RegU8::L), 4)
    } else if op == 0x35 {
        (InstructType::Dec(RegU8::RamU16(RegU16::HL)), 12)
    } else if op == 0x09 {
        (InstructType::AddU16(RegU16::BC), 8)
    } else if op == 0x19 {
        (InstructType::AddU16(RegU16::DE), 8)
    } else if op == 0x29 {
        (InstructType::AddU16(RegU16::HL), 8)
    } else if op == 0x39 {
        (InstructType::AddU16(RegU16::SP), 8)
    } else if op == 0x03 {
        (InstructType::IncU16(RegU16::BC), 8)
    } else if op == 0x13 {
        (InstructType::IncU16(RegU16::DE), 8)
    } else if op == 0x23 {
        (InstructType::IncU16(RegU16::HL), 8)
    } else if op == 0x33 {
        (InstructType::IncU16(RegU16::SP), 8)
    } else if op == 0x0B {
        (InstructType::DecU16(RegU16::BC), 8)
    } else if op == 0x1B {
        (InstructType::DecU16(RegU16::DE), 8)
    } else if op == 0x2B {
        (InstructType::DecU16(RegU16::HL), 8)
    } else if op == 0x3B {
        (InstructType::DecU16(RegU16::SP), 8)
    } else if op == 0x27 {
        (InstructType::Daa, 4)
    } else if op == 0x2F {
        (InstructType::Cpl, 4)
    } else if op == 0x3F {
        (InstructType::SetCarry(true), 4)
    } else if op == 0x37 {
        (InstructType::SetCarry(false), 4)
    } else if op == 0x00 {
        (InstructType::Nop, 4)
    } else if op == 0x10 {
        // the low-power stop state is not modelled; decode stays total and
        // treats it as a no-op
        (InstructType::Nop, 4)
    } else if op == 0x07 {
        (InstructType::Rotate(RegU8::A, true, false, false, false, false), 4)
    } else if op == 0x17 {
        (InstructType::Rotate(RegU8::A, true, true, false, false, false), 4)
    } else if op == 0x0F {
        (InstructType::Rotate(RegU8::A, false, false, false, false, false), 4)
    } else if op == 0x1F {
        (InstructType::Rotate(RegU8::A, false, true, false, false, false), 4)
    } else if op == 0x18 {
        (InstructType::Jump(RegU16::I8, false, None, false), 12)
    } else if op == 0x20 {
        (InstructType::Jump(RegU16::I8, false, Some(Flag::Z), false), 8)
    } else if op == 0x28 {
        (InstructType::Jump(RegU16::I8, false, Some(Flag::Z), true), 8)
    } else if op == 0x30 {
        (InstructType::Jump(RegU16::I8, false, Some(Flag::C), false), 8)
    } else if op == 0x38 {
        (InstructType::Jump(RegU16::I8, false, Some(Flag::C), true), 8)
    } else {
        // The documented unused opcode slots decode to a no-op
        (InstructType::Nop, 4)
    }
}

/// The decode table of the primary opcodes 0x40..=0x7F.
pub open spec fn spec_primary_q1(op: u8) -> (InstructType, u8) {
    if op == 0x77 {
        (InstructType::Load(RegU8::A, RegU8::RamU16(RegU16::HL)), 8)
    } else if op == 0x70 {
        (InstructType::Load(RegU8::B, RegU8::RamU16(RegU16::HL)), 8)
    } else if op == 0x71 {
        (InstructType::Load(RegU8::C, RegU8::RamU16(RegU16::HL)), 8)
    } else if op == 0x72 {
        (InstructType::Load(RegU8::D, RegU8::RamU16(RegU16::HL)), 8)
    } else if op == 0x73 {
        (InstructType::Load(RegU8::E, RegU8::RamU16(RegU16::HL)), 8)
    } else if op == 0x74 {
        (InstructType::Load(RegU8::H, RegU8::RamU16(RegU16::HL)), 8)
    } else if op == 0x75 {
        (InstructType::Load(RegU8::L, RegU8::RamU16(RegU16::HL)), 8)
    } else if op == 0x76 {
        // the low-power halt state is not modelled; decode stays total and
        // treats it as a no-op
        (InstructType::Nop, 4)
    } else if 0x78 <= op && op <= 0x7F {
        (InstructType::Load(reg_of(op & 0x07), RegU8::A), if op & 0x07 == 0x06 {
            8
        } else {
            4
        })
    } else if 0x40 <= op && op <= 0x47 {
        (InstructType::Load(reg_of(op & 0x07), RegU8::B), if op & 0x07 == 0x06 {
            8
        } else {
            4
        })
    } else if 0x48 <= op && op <= 0x4F {
        (InstructType::Load(reg_of(op & 0x07), RegU8::C), if op & 0x07 == 0x06 {
            8
        } else {
            4
        })
    } else if 0x50 <= op && op <= 0x57 {
        (InstructType::Load(reg_of(op & 0x07), RegU8::D), if op & 0x07 == 0x06 {
            8
        } else {
            4
        })
    } else if 0x58 <= op && op <= 0x5F {
        (InstructType::Load(reg_of(op & 0x07), RegU8::E), if op & 0x07 == 0x06 {
            8
        } else {
            4
        })
    } else if 0x60 <= op && op <= 0x67 {
        (InstructType::Load(reg_of(op & 0x07), RegU8::H), if op & 0x07 == 0x06 {
            8
        } else {
            4
        })
    } else if 0x68 <= op && op <= 0x6F {
        (InstructType::Load(reg_of(op & 0x07), RegU8::L), if op & 0x07 == 0x06 {
            8
        } else {
            4
        })
    } else {
        // The documented unused opcode slots decode to a no-op
        (InstructType::Nop, 4)
    }
}

/// Decodes one opcode of the same range.
#[verifier::spinoff_prover]
#[verifier::rlimit(60)]
fn decode_primary_q1(op: u8) -> (r: (InstructType, u8))
    ensures
        r == spec_primary_q1(op),
        r.1 >= 4,
        inst_wf(r.0),
{
    proof {
        reveal_with_fuel(reg_u8_readable, 3);
    }
    if op == 0x77 {
        (InstructType::Load(RegU8::A, RegU8::RamU16(RegU16::HL)), 8)
    } else if op == 0x70 {
        (InstructType::Load(RegU8::B, RegU8::RamU16(RegU16::HL)), 8)
    } else if op == 0x71 {
        (InstructType::Load(RegU8::C, RegU8::RamU16(RegU16::HL)), 8)
    } else if op == 0x72 {
        (InstructType::Load(RegU8::D, RegU8::RamU16(RegU16::HL)), 8)
    } else if op == 0x73 {
        (InstructType::Load(RegU8::E, RegU8::RamU16(RegU16::HL)), 8)
    } else if op == 0x74 {
        (InstructType::Load(RegU8::H, RegU8::RamU16(RegU16::HL)), 8)
    } else if op == 0x75 {
        (InstructType::Load(RegU8::L, RegU8::RamU16(RegU16::HL)), 8)
    } else if op == 0x76 {
        // the low-power halt state is not modelled; decode stays total and
        // treats it as a no-op
        (InstructType::Nop, 4)
    } else if 0x78 <= op && op <= 0x7F {
        (InstructType::Load(reg_code(op & 0x07), RegU8::A), if op & 0x07 == 0x06 {
            8
        } else {
            4
        })
    } else if 0x40 <= op && op <= 0x47 {
        (InstructType::Load(reg_code(op & 0x07), RegU8::B), if op & 0x07 == 0x06 {
            8
        } else {
            4
        })
    } else if 0x48 <= op && op <= 0x4F {
        (InstructType::Load(reg_code(op & 0x07), RegU8::C), if op & 0x07 == 0x06 {
            8
        } else {
            4
        })
    } else if 0x50 <= op && op <= 0x57 {
        (InstructType::Load(reg_code(op & 0x07), RegU8::D), if op & 0x07 == 0x06 {
            8
        } else {
            4
        })
    } else if 0x58 <= op && op <= 0x5F {
        (InstructType::Load(reg_code(op & 0x07), RegU8::E), if op & 0x07 == 0x06 {
            8
        } else {
            4
        })
    } else if 0x60 <= op && op <= 0x67 {
        (InstructType::Load(reg_code(op & 0x07), RegU8::H), if op & 0x07 == 0x06 {
            8
        } else {
            4
        })
    } else if 0x68 <= op && op <= 0x6F {
        (InstructType::Load(reg_code(op & 0x07), RegU8::L), if op & 0x07 == 0x06 {
            8
        } else {
            4
        })
    } else {
        // The documented unused opcode slots decode to a no-op
        (InstructType::Nop, 4)
    }
}

/// The decode table of the primary opcodes 0x80..=0xBF.
pub open spec fn spec_primary_q2(op: u8) -> (InstructType, u8) {
    if 0x80 <= op && op <= 0x87 {
        (InstructType::Add(reg_of(op & 0x07), false), if op & 0x07 == 0x06 {
            8
        } else {
            4
        })
    } else if 0x88 <= op && op <= 0x8F {
        (InstructType::Add(reg_of(op & 0x07), true), if op & 0x07 == 0x06 {
            8
        } else {
            4
        })
    } else if 0x90 <= op && op <= 0x97 {
        (InstructType::Sub(reg_of(op & 0x07), false), if op & 0x07 == 0x06 {
            8
        } else {
            4
        })
    } else if 0x98 <= op && op <= 0x9F {
        (InstructType::Sub(reg_of(op & 0x07), true), if op & 0x07 == 0x06 {
            8
        } else {
            4
        })
    } else if 0xA0 <= op && op <= 0xA7 {
        (InstructType::And(reg_of(op & 0x07)), if op & 0x07 == 0x06 {
            8
        } else {
            4
        })
    } else if 0xB0 <= op && op <= 0xB7 {
        (InstructType::Or(reg_of(op & 0x07)), if op & 0x07 == 0x06 {
            8
        } else {
            4
        })
    } else if 0xA8 <= op && op <= 0xAF {
        (InstructType::Xor(reg_of(op & 0x07)), if op & 0x07 == 0x06 {
            8
        } else {
            4
        })
    } else if 0xB8 <= op && op <= 0xBF {
        (InstructType::Cmp(reg_of(op & 0x07)), if op & 0x07 == 0x06 {
            8
        } else {
            4
        })
    } else {
        // The documented unused opcode slots decode to a no-op
        (InstructType::Nop, 4)
    }
}

/// Decodes one opcode of the same range.
#[verifier::spinoff_prover]
#[verifier::rlimit(60)]
fn decode_primary_q2(op: u8) -> (r: (InstructType, u8))
    ensures
        r == spec_primary_q2(op),
        r.1 >= 4,
        inst_wf(r.0),
{
    proof {
        reveal_with_fuel(reg_u8_readable, 3);
    }
    if 0x80 <= op && op <= 0x87 {
        (InstructType::Add(reg_code(op & 0x07), false), if op & 0x07 == 0x06 {
            8
        } else {
            4
        })
    } else if 0x88 <= op && op <= 0x8F {
        (InstructType::Add(reg_code(op & 0x07), true), if op & 0x07 == 0x06 {
            8
        } else {
            4
        })
    } else if 0x90 <= op && op <= 0x97 {
        (InstructType::Sub(reg_code(op & 0x07), false), if op & 0x07 == 0x06 {
            8
        } else {
            4
        })
    } else if 0x98 <= op && op <= 0x9F {
        (InstructType::Sub(reg_code(op & 0x07), true), if op & 0x07 == 0x06 {
            8
        } else {
            4
        })
    } else if 0xA0 <= op && op <= 0xA7 {
        (InstructType::And(reg_code(op & 0x07)), if op & 0x07 == 0x06 {
            8
        } else {
            4
        })
    } else if 0xB0 <= op && op <= 0xB7 {
        (InstructType::Or(reg_code(op & 0x07)), if op & 0x07 == 0x06 {
            8
        } else {
            4
        })
    } else if 0xA8 <= op && op <= 0xAF {
        (InstructType::Xor(reg_code(op & 0x07)), if op & 0x07 == 0x06 {
            8
        } else {
            4
        })
    } else if 0xB8 <= op && op <= 0xBF {
        (InstructType::Cmp(reg_code(op & 0x07)), if op & 0x07 == 0x06 {
            8
        } else {
            4
        })
    } else {
        // The documented unused opcode slots decode to a no-op
        (InstructType::Nop, 4)
    }
}

/// The decode table of the primary opcodes 0xC0..=0xFF.
pub open spec fn spec_primary_q3(op: u8) -> (InstructType, u8) {
    if op == 0xFA {
        (InstructType::Load(RegU8::RamU16(RegU16::U16), RegU8::A), 16)
    } else if op == 0xEA {
        (InstructType::Load(RegU8::A, RegU8::RamU16(RegU16::U16)), 16)
    } else if op == 0xF2 {
        (InstructType::Load(RegU8::RamU8(Box::new(RegU8::C)), RegU8::A), 8)
    } else if op == 0xE2 {
        (InstructType::Load(RegU8::A, RegU8::RamU8(Box::new(RegU8::C))), 8)
    } else if op == 0xF0 {
        (InstructType::Load(RegU8::RamU8(Box::new(RegU8::U8)), RegU8::A), 12)
    } else if op == 0xE0 {
        (InstructType::Load(RegU8::A, RegU8::RamU8(Box::new(RegU8::U8))), 12)
    } else if op == 0xF9 {
        (InstructType::LoadU16(RegU16::HL, RegU16::SP), 8)
    } else if op == 0xF8 {
        (InstructType::AddU16I8(RegU16::HL, RegU16::I8), 12)
    } else if op == 0xF5 {
        (InstructType::Push(RegU16::AF), 16)
    } else if op == 0xC5 {
        (InstructType::Push(RegU16::BC), 16)
    } else if op == 0xD5 {
        (InstructType::Push(RegU16::DE), 16)
    } else if op == 0xE5 {
        (InstructType::Push(RegU16::HL), 16)
    } else if op == 0xF1 {
        (InstructType::Pop(RegU16::AF), 12)
    } else if op == 0xC1 {
        (InstructType::Pop(RegU16::BC), 12)
    } else if op == 0xD1 {
        (InstructType::Pop(RegU16::DE), 12)
    } else if op == 0xE1 {
        (InstructType::Pop(RegU16::HL), 12)
    } else if op == 0xC6 {
        (InstructType::Add(RegU8::U8, false), 8)
    } else if op == 0xCE {
        (InstructType::Add(RegU8::U8, true), 8)
    } else if op == 0xD6 {
        (InstructType::Sub(RegU8::U8, false), 8)
    } else if op == 0xDE {
        (InstructType::Sub(RegU8::U8, true), 8)
    } else if op == 0xE6 {
        (InstructType::And(RegU8::U8), 8)
    } else if op == 0xF6 {
        (InstructType::Or(RegU8::U8), 8)
    } else if op == 0xEE {
        (InstructType::Xor(RegU8::U8), 8)
    } else if op == 0xFE {
        (InstructType::Cmp(RegU8::U8), 8)
    } else if op == 0xE8 {
        (InstructType::AddU16I8(RegU16::SP, RegU16::I8), 16)
    } else if op == 0xF3 {
        (InstructType::ChangeMie(false), 4)
    } else if op == 0xFB {
        (InstructType::ChangeMie(true), 4)
    } else if op == 0xC3 {
        (InstructType::Jump(RegU16::U16, false, None, false), 16)
    } else if op == 0xC2 {
        (InstructType::Jump(RegU16::U16, false, Some(Flag::Z), false), 12)
    } else if op == 0xCA {
        (InstructType::Jump(RegU16::U16, false, Some(Flag::Z), true), 12)
    } else if op == 0xD2 {
        (InstructType::Jump(RegU16::U16, false, Some(Flag::C), false), 12)
    } else if op == 0xDA {
        (InstructType::Jump(RegU16::U16, false, Some(Flag::C), true), 12)
    } else if op == 0xE9 {
        (InstructType::Jump(RegU16::HL, false, None, true), 4)
    } else if op == 0xCD {
        (InstructType::Jump(RegU16::U16, true, None, false), 24)
    } else if op == 0xC4 {
        (InstructType::Jump(RegU16::U16, true, Some(Flag::Z), false), 12)
    } else if op == 0xCC {
        (InstructType::Jump(RegU16::U16, true, Some(Flag::Z), true), 12)
    } else if op == 0xD4 {
        (InstructType::Jump(RegU16::U16, true, Some(Flag::C), false), 12)
    } else if op == 0xDC {
        (InstructType::Jump(RegU16::U16, true, Some(Flag::C), true), 12)
    } else if op == 0xC7 {
        (InstructType::Reset(0), 16)
    } else if op == 0xCF {
        (InstructType::Reset(1), 16)
    } else if op == 0xD7 {
        (InstructType::Reset(2), 16)
    } else if op == 0xDF {
        (InstructType::Reset(3), 16)
    } else if op == 0xE7 {
        (InstructType::Reset(4), 16)
    } else if op == 0xEF {
        (InstructType::Reset(5), 16)
    } else if op == 0xF7 {
        (InstructType::Reset(6), 16)
    } else if op == 0xFF {
        (InstructType::Reset(7), 16)
    } else if op == 0xC9 {
        (InstructType::Ret(None, false, false), 16)
    } else if op == 0xC0 {
        (InstructType::Ret(Some(Flag::Z), false, false), 8)
    } else if op == 0xC8 {
        (InstructType::Ret(Some(Flag::Z), true, false), 8)
    } else if op == 0xD0 {
        (InstructType::Ret(Some(Flag::C), false, false), 8)
    } else if op == 0xD8 {
        (InstructType::Ret(Some(Flag::C), true, false), 8)
    } else if op == 0xD9 {
        (InstructType::Ret(None, false, true), 16)
    } else {
        // The documented unused opcode slots decode to a no-op
        (InstructType::Nop, 4)
    }
}

/// Decodes one opcode of the same range.
#[verifier::spinoff_prover]
#[verifier::rlimit(100)]
fn decode_primary_q3(op: u8) -> (r: (InstructType, u8))
    ensures
        r == spec_primary_q3(op),
        r.1 >= 4,
        inst_wf(r.0),
{
    proof {
        reveal_with_fuel(reg_u8_readable, 3);
    }
    if op == 0xFA {
        (InstructType::Load(RegU8::RamU16(RegU16::U16), RegU8::A), 16)
    } else if op == 0xEA {
        (InstructType::Load(RegU8::A, RegU8::RamU16(RegU16::U16)), 16)
    } else if op == 0xF2 {
        (InstructType::Load(RegU8::RamU8(Box::new(RegU8::C)), RegU8::A), 8)
    } else if op == 0xE2 {
        (InstructType::Load(RegU8::A, RegU8::RamU8(Box::new(RegU8::C))), 8)
    } else if op == 0xF0 {
        (InstructType::Load(RegU8::RamU8(Box::new(RegU8::U8)), RegU8::A), 12)
    } else if op == 0xE0 {
        (InstructType::Load(RegU8::A, RegU8::RamU8(Box::new(RegU8::U8))), 12)
    } else if op == 0xF9 {
        (InstructType::LoadU16(RegU16::HL, RegU16::SP), 8)
    } else if op == 0xF8 {
        (InstructType::AddU16I8(RegU16::HL, RegU16::I8), 12)
    } else if op == 0xF5 {
        (InstructType::Push(RegU16::AF), 16)
    } else if op == 0xC5 {
        (InstructType::Push(RegU16::BC), 16)
    } else if op == 0xD5 {
        (InstructType::Push(RegU16::DE), 16)
    } else if op == 0xE5 {
        (InstructType::Push(RegU16::HL), 16)
    } else if op == 0xF1 {
        (InstructType::Pop(RegU16::AF), 12)
    } else if op == 0xC1 {
        (InstructType::Pop(RegU16::BC), 12)
    } else if op == 0xD1 {
        (InstructType::Pop(RegU16::DE), 12)
    } else if op == 0xE1 {
        (InstructType::Pop(RegU16::HL), 12)
    } else if op == 0xC6 {
        (InstructType::Add(RegU8::U8, false), 8)
    } else if op == 0xCE {
        (InstructType::Add(RegU8::U8, true), 8)
    } else if op == 0xD6 {
        (InstructType::Sub(RegU8::U8, false), 8)
    } else if op == 0xDE {
        (InstructType::Sub(RegU8::U8, true), 8)
    } else if op == 0xE6 {
        (InstructType::And(RegU8::U8), 8)
    } else if op == 0xF6 {
        (InstructType::Or(RegU8::U8), 8)
    } else if op == 0xEE {
        (InstructType::Xor(RegU8::U8), 8)
    } else if op == 0xFE {
        (InstructType::Cmp(RegU8::U8), 8)
    } else if op == 0xE8 {
        (InstructType::AddU16I8(RegU16::SP, RegU16::I8), 16)
    } else if op == 0xF3 {
        (InstructType::ChangeMie(false), 4)
    } else if op == 0xFB {
        (InstructType::ChangeMie(true), 4)
    } else if op == 0xC3 {
        (InstructType::Jump(RegU16::U16, false, None, false), 16)
    } else if op == 0xC2 {
        (InstructType::Jump(RegU16::U16, false, Some(Flag::Z), false), 12)
    } else if op == 0xCA {
        (InstructType::Jump(RegU16::U16, false, Some(Flag::Z), true), 12)
    } else if op == 0xD2 {
        (InstructType::Jump(RegU16::U16, false, Some(Flag::C), false), 12)
    } else if op == 0xDA {
        (InstructType::Jump(RegU16::U16, false, Some(Flag::C), true), 12)
    } else if op == 0xE9 {
        (InstructType::Jump(RegU16::HL, false, None, true), 4)
    } else if op == 0xCD {
        (InstructType::Jump(RegU16::U16, true, None, false), 24)
    } else if op == 0xC4 {
        (InstructType::Jump(RegU16::U16, true, Some(Flag::Z), false), 12)
    } else if op == 0xCC {
        (InstructType::Jump(RegU16::U16, true, Some(Flag::Z), true), 12)
    } else if op == 0xD4 {
        (InstructType::Jump(RegU16::U16, true, Some(Flag::C), false), 12)
    } else if op == 0xDC {
        (InstructType::Jump(RegU16::U16, true, Some(Flag::C), true), 12)
    } else if op == 0xC7 {
        (InstructType::Reset(0), 16)
    } else if op == 0xCF {
        (InstructType::Reset(1), 16)
    } else if op == 0xD7 {
        (InstructType::Reset(2), 16)
    } else if op == 0xDF {
        (InstructType::Reset(3), 16)
    } else if op == 0xE7 {
        (InstructType::Reset(4), 16)
    } else if op == 0xEF {
        (InstructType::Reset(5), 16)
    } else if op == 0xF7 {
        (InstructType::Reset(6), 16)
    } else if op == 0xFF {
        (InstructType::Reset(7), 16)
    } else if op == 0xC9 {
        (InstructType::Ret(None, false, false), 16)
    } else if op == 0xC0 {
        (InstructType::Ret(Some(Flag::Z), false, false), 8)
    } else if op == 0xC8 {
        (InstructType::Ret(Some(Flag::Z), true, false), 8)
    } else if op == 0xD0 {
        (InstructType::Ret(Some(Flag::C), false, false), 8)
    } else if op == 0xD8 {
        (InstructType::Ret(Some(Flag::C), true, false), 8)
    } else if op == 0xD9 {
        (InstructType::Ret(None, false, true), 16)
    } else {
        // The documented unused opcode slots decode to a no-op
        (InstructType::Nop, 4)
    }
}

/// The decode table of the 256 prefixed opcodes (rotates, shifts, swaps and the bit
/// test / set / reset families across all register slots).
pub open spec fn spec_prefixed(f: u8) -> (InstructType, u8) {
    if 0x00 <= f && f <= 0x07 {
        (InstructType::Rotate(reg_of(f & 0x07), true, false, true, false, false), if f & 0x07 == 0x06 {
            16
        } else {
            8
        })
    } else if 0x08 <= f && f <= 0x0F {
        (InstructType::Rotate(reg_of(f & 0x07), false, false, true, false, false), if f & 0x07 == 0x06 {
            16
        } else {
            8
        })
    } else if 0x10 <= f && f <= 0x17 {
        (InstructType::Rotate(reg_of(f & 0x07), true, true, true, false, false), if f & 0x07 == 0x06 {
            16
        } else {
            8
        })
    } else if 0x18 <= f && f <= 0x1F {
        (InstructType::Rotate(reg_of(f & 0x07), false, true, true, false, false), if f & 0x07 == 0x06 {
            16
        } else {
            8
        })
    } else if 0x20 <= f && f <= 0x27 {
        (InstructType::Rotate(reg_of(f & 0x07), true, false, true, true, false), if f & 0x07 == 0x06 {
            16
        } else {
            8
        })
    } else if 0x28 <= f && f <= 0x2F {
        (InstructType::Rotate(reg_of(f & 0x07), false, false, true, true, true), if f & 0x07 == 0x06 {
            16
        } else {
            8
        })
    } else if 0x30 <= f && f <= 0x37 {
        (InstructType::Swap(reg_of(f & 0x07)), if f & 0x07 == 0x06 {
            16
        } else {
            8
        })
    } else if 0x38 <= f && f <= 0x3F {
        (InstructType::Rotate(reg_of(f & 0x07), false, false, true, true, false), if f & 0x07 == 0x06 {
            16
        } else {
            8
        })
    } else if 0x40 <= f && f <= 0x47 {
        (InstructType::Bit(reg_of(f & 0x07), 0), if f & 0x07 == 0x06 {
            12
        } else {
            8
        })
    } else if 0x48 <= f && f <= 0x4F {
        (InstructType::Bit(reg_of(f & 0x07), 1), if f & 0x07 == 0x06 {
            12
        } else {
            8
        })
    } else if 0x50 <= f && f <= 0x57 {
        (InstructType::Bit(reg_of(f & 0x07), 2), if f & 0x07 == 0x06 {
            12
        } else {
            8
        })
    } else if 0x58 <= f && f <= 0x5F {
        (InstructType::Bit(reg_of(f & 0x07), 3), if f & 0x07 == 0x06 {
            12
        } else {
            8
        })
    } else if 0x60 <= f && f <= 0x67 {
        (InstructType::Bit(reg_of(f & 0x07), 4), if f & 0x07 == 0x06 {
            12
        } else {
            8
        })
    } else if 0x68 <= f && f <= 0x6F {
        (InstructType::Bit(reg_of(f & 0x07), 5), if f & 0x07 == 0x06 {
            12
        } else {
            8
        })
    } else if 0x70 <= f && f <= 0x77 {
        (InstructType::Bit(reg_of(f & 0x07), 6), if f & 0x07 == 0x06 {
            12
        } else {
            8
        })
    } else if 0x78 <= f && f <= 0x7F {
        (InstructType::Bit(reg_of(f & 0x07), 7), if f & 0x07 == 0x06 {
            12
        } else {
            8
        })
    } else if 0x80 <= f && f <= 0x87 {
        (InstructType::ResetBit(reg_of(f & 0x07), 0), if f & 0x07 == 0x06 {
            16
        } else {
            8
        })
    } else if 0x88 <= f && f <= 0x8F {
        (InstructType::ResetBit(reg_of(f & 0x07), 1), if f & 0x07 == 0x06 {
            16
        } else {
            8
        })
    } else if 0x90 <= f && f <= 0x97 {
        (InstructType::ResetBit(reg_of(f & 0x07), 2), if f & 0x07 == 0x06 {
            16
        } else {
            8
        })
    } else if 0x98 <= f && f <= 0x9F {
        (InstructType::ResetBit(reg_of(f & 0x07), 3), if f & 0x07 == 0x06 {
            16
        } else {
            8
        })
    } else if 0xA0 <= f && f <= 0xA7 {
        (InstructType::ResetBit(reg_of(f & 0x07), 4), if f & 0x07 == 0x06 {
            16
        } else {
            8
        })
    } else if 0xA8 <= f && f <= 0xAF {
        (InstructType::ResetBit(reg_of(f & 0x07), 5), if f & 0x07 == 0x06 {
            16
        } else {
            8
        })
    } else if 0xB0 <= f && f <= 0xB7 {
        (InstructType::ResetBit(reg_of(f & 0x07), 6), if f & 0x07 == 0x06 {
            16
        } else {
            8
        })
    } else if 0xB8 <= f && f <= 0xBF {
        (InstructType::ResetBit(reg_of(f & 0x07), 7), if f & 0x07 == 0x06 {
            16
        } else {
            8
        })
    } else if 0xC0 <= f && f <= 0xC7 {
        (InstructType::SetBit(reg_of(f & 0x07), 0), if f & 0x07 == 0x06 {
            16
        } else {
            8
        })
    } else if 0xC8 <= f && f <= 0xCF {
        (InstructType::SetBit(reg_of(f & 0x07), 1), if f & 0x07 == 0x06 {
            16
        } else {
            8
        })
    } else if 0xD0 <= f && f <= 0xD7 {
        (InstructType::SetBit(reg_of(f & 0x07), 2), if f & 0x07 == 0x06 {
            16
        } else {
            8
        })
    } else if 0xD8 <= f && f <= 0xDF {
        (InstructType::SetBit(reg_of(f & 0x07), 3), if f & 0x07 == 0x06 {
            16
        } else {
            8
        })
    } else if 0xE0 <= f && f <= 0xE7 {
        (InstructType::SetBit(reg_of(f & 0x07), 4), if f & 0x07 == 0x06 {
            16
        } else {
            8
        })
    } else if 0xE8 <= f && f <= 0xEF {
        (InstructType::SetBit(reg_of(f & 0x07), 5), if f & 0x07 == 0x06 {
            16
        } else {
            8
        })
    } else if 0xF0 <= f && f <= 0xF7 {
        (InstructType::SetBit(reg_of(f & 0x07), 6), if f & 0x07 == 0x06 {
            16
        } else {
            8
        })
    } else if 0xF8 <= f && f <= 0xFF {
        (InstructType::SetBit(reg_of(f & 0x07), 7), if f & 0x07 == 0x06 {
            16
        } else {
            8
        })
    } else {
        // The documented unused opcode slots decode to a no-op
        (InstructType::Nop, 4)
    }
}

/// Decodes one opcode of the same range.
#[verifier::spinoff_prover]
#[verifier::rlimit(60)]
fn decode_prefixed(f: u8) -> (r: (InstructType, u8))
    ensures
        r == spec_prefixed(f),
        r.1 >= 4,
        inst_wf(r.0),
{
    if 0x00 <= f && f <= 0x07 {
        (InstructType::Rotate(reg_code(f & 0x07), true, false, true, false, false), if f & 0x07 == 0x06 {
            16
        } else {
            8
        })
    } else if 0x08 <= f && f <= 0x0F {
        (InstructType::Rotate(reg_code(f & 0x07), false, false, true, false, false), if f & 0x07 == 0x06 {
            16
        } else {
            8
        })
    } else if 0x10 <= f && f <= 0x17 {
        (InstructType::Rotate(reg_code(f & 0x07), true, true, true, false, false), if f & 0x07 == 0x06 {
            16
        } else {
            8
        })
    } else if 0x18 <= f && f <= 0x1F {
        (InstructType::Rotate(reg_code(f & 0x07), false, true, true, false, false), if f & 0x07 == 0x06 {
            16
        } else {
            8
        })
    } else if 0x20 <= f && f <= 0x27 {
        (InstructType::Rotate(reg_code(f & 0x07), true, false, true, true, false), if f & 0x07 == 0x06 {
            16
        } else {
            8
        })
    } else if 0x28 <= f && f <= 0x2F {
        (InstructType::Rotate(reg_code(f & 0x07), false, false, true, true, true), if f & 0x07 == 0x06 {
            16
        } else {
            8
        })
    } else if 0x30 <= f && f <= 0x37 {
        (InstructType::Swap(reg_code(f & 0x07)), if f & 0x07 == 0x06 {
            16
        } else {
            8
        })
    } else if 0x38 <= f && f <= 0x3F {
        (InstructType::Rotate(reg_code(f & 0x07), false, false, true, true, false), if f & 0x07 == 0x06 {
            16
        } else {
            8
        })
    } else if 0x40 <= f && f <= 0x47 {
        (InstructType::Bit(reg_code(f & 0x07), 0), if f & 0x07 == 0x06 {
            12
        } else {
            8
        })
    } else if 0x48 <= f && f <= 0x4F {
        (InstructType::Bit(reg_code(f & 0x07), 1), if f & 0x07 == 0x06 {
            12
        } else {
            8
        })
    } else if 0x50 <= f && f <= 0x57 {
        (InstructType::Bit(reg_code(f & 0x07), 2), if f & 0x07 == 0x06 {
            12
        } else {
            8
        })
    } else if 0x58 <= f && f <= 0x5F {
        (InstructType::Bit(reg_code(f & 0x07), 3), if f & 0x07 == 0x06 {
            12
        } else {
            8
        })
    } else if 0x60 <= f && f <= 0x67 {
        (InstructType::Bit(reg_code(f & 0x07), 4), if f & 0x07 == 0x06 {
            12
        } else {
            8
        })
    } else if 0x68 <= f && f <= 0x6F {
        (InstructType::Bit(reg_code(f & 0x07), 5), if f & 0x07 == 0x06 {
            12
        } else {
            8
        })
    } else if 0x70 <= f && f <= 0x77 {
        (InstructType::Bit(reg_code(f & 0x07), 6), if f & 0x07 == 0x06 {
            12
        } else {
            8
        })
    } else if 0x78 <= f && f <= 0x7F {
        (InstructType::Bit(reg_code(f & 0x07), 7), if f & 0x07 == 0x06 {
            12
        } else {
            8
        })
    } else if 0x80 <= f && f <= 0x87 {
        (InstructType::ResetBit(reg_code(f & 0x07), 0), if f & 0x07 == 0x06 {
            16
        } else {
            8
        })
    } else if 0x88 <= f && f <= 0x8F {
        (InstructType::ResetBit(reg_code(f & 0x07), 1), if f & 0x07 == 0x06 {
            16
        } else {
            8
        })
    } else if 0x90 <= f && f <= 0x97 {
        (InstructType::ResetBit(reg_code(f & 0x07), 2), if f & 0x07 == 0x06 {
            16
        } else {
            8
        })
    } else if 0x98 <= f && f <= 0x9F {
        (InstructType::ResetBit(reg_code(f & 0x07), 3), if f & 0x07 == 0x06 {
            16
        } else {
            8
        })
    } else if 0xA0 <= f && f <= 0xA7 {
        (InstructType::ResetBit(reg_code(f & 0x07), 4), if f & 0x07 == 0x06 {
            16
        } else {
            8
        })
    } else if 0xA8 <= f && f <= 0xAF {
        (InstructType::ResetBit(reg_code(f & 0x07), 5), if f & 0x07 == 0x06 {
            16
        } else {
            8
        })
    } else if 0xB0 <= f && f <= 0xB7 {
        (InstructType::ResetBit(reg_code(f & 0x07), 6), if f & 0x07 == 0x06 {
            16
        } else {
            8
        })
    } else if 0xB8 <= f && f <= 0xBF {
        (InstructType::ResetBit(reg_code(f & 0x07), 7), if f & 0x07 == 0x06 {
            16
        } else {
            8
        })
    } else if 0xC0 <= f && f <= 0xC7 {
        (InstructType::SetBit(reg_code(f & 0x07), 0), if f & 0x07 == 0x06 {
            16
        } else {
            8
        })
    } else if 0xC8 <= f && f <= 0xCF {
        (InstructType::SetBit(reg_code(f & 0x07), 1), if f & 0x07 == 0x06 {
            16
        } else {
            8
        })
    } else if 0xD0 <= f && f <= 0xD7 {
        (InstructType::SetBit(reg_code(f & 0x07), 2), if f & 0x07 == 0x06 {
            16
        } else {
            8
        })
    } else if 0xD8 <= f && f <= 0xDF {
        (InstructType::SetBit(reg_code(f & 0x07), 3), if f & 0x07 == 0x06 {
            16
        } else {
            8
        })
    } else if 0xE0 <= f && f <= 0xE7 {
        (InstructType::SetBit(reg_code(f & 0x07), 4), if f & 0x07 == 0x06 {
            16
        } else {
            8
        })
    } else if 0xE8 <= f && f <= 0xEF {
        (InstructType::SetBit(reg_code(f & 0x07), 5), if f & 0x07 == 0x06 {
            16
        } else {
            8
        })
    } else if 0xF0 <= f && f <= 0xF7 {
        (InstructType::SetBit(reg_code(f & 0x07), 6), if f & 0x07 == 0x06 {
            16
        } else {
            8
        })
    } else if 0xF8 <= f && f <= 0xFF {
        (InstructType::SetBit(reg_code(f & 0x07), 7), if f & 0x07 == 0x06 {
            16
        } else {
            8
        })
    } else {
        // The documented unused opcode slots decode to a no-op
        (InstructType::Nop, 4)
    }
}

/// The decode table of the 256 primary opcodes: the operation and its base
/// cycle cost.
pub open spec fn spec_primary(op: u8) -> (InstructType, u8) {
    if op <= 0x3F {
        spec_primary_q0(op)
    } else if op <= 0x7F {
        spec_primary_q1(op)
    } else if op <= 0xBF {
        spec_primary_q2(op)
    } else {
        spec_primary_q3(op)
    }
}

/// Decodes a primary opcode.
fn decode_primary(op: u8) -> (r: (InstructType, u8))
    ensures
        r == spec_primary(op),
        r.1 >= 4,
        inst_wf(r.0),
{
    if op <= 0x3F {
        decode_primary_q0(op)
    } else if op <= 0x7F {
        decode_primary_q1(op)
    } else if op <= 0xBF {
        decode_primary_q2(op)
    } else {
        decode_primary_q3(op)
    }
}

/// The complete decode map: 0xCB selects the prefixed table over the
/// follow-up byte, every other opcode the primary table.
pub open spec fn spec_fetch(op: u8, follow: u8) -> (InstructType, u8) {
    if op == 0xCB {
        spec_prefixed(follow)
    } else {
        spec_primary(op)
    }
}

/// The operand constraints that every decoded instruction satisfies, and
/// that execution relies on: operands are readable, store destinations are
/// storable, bit positions stay below 8, restart vectors below 8.
pub open spec fn inst_wf(inst: InstructType) -> bool {
    match inst {
        InstructType::Load(src, dest) => reg_u8_readable(src) && reg_u8_readable(dest) && !(
        dest is U8),
        InstructType::LoadPlus(src, dest, _) => reg_u8_readable(src) && reg_u8_readable(dest) && !(
        dest is U8),
        InstructType::LoadU16(src, dest) => !(src is RamU16) && !(dest is U16) && !(dest is I8) && (
        dest matches RegU16::RamU16(b) ==> !(*b is RamU16)),
        InstructType::Push(src) => !(src is RamU16),
        InstructType::Pop(dest) => !(dest is U16) && !(dest is I8) && (
        dest matches RegU16::RamU16(b) ==> !(*b is RamU16)),
        InstructType::Add(src, _) => reg_u8_readable(src),
        InstructType::Sub(src, _) => reg_u8_readable(src),
        InstructType::And(src) => reg_u8_readable(src),
        InstructType::Or(src) => reg_u8_readable(src),
        InstructType::Xor(src) => reg_u8_readable(src),
        InstructType::Cmp(src) => reg_u8_readable(src),
        InstructType::Inc(reg) => reg_u8_readable(reg) && !(reg is U8),
        InstructType::Dec(reg) => reg_u8_readable(reg) && !(reg is U8),
        InstructType::AddU16(src) => !(src is RamU16),
        InstructType::AddU16I8(dest, offset) => (dest is HL || dest is SP) && !(offset is RamU16),
        InstructType::IncU16(rr) => !(rr is RamU16) && !(rr is U16) && !(rr is I8),
        InstructType::DecU16(rr) => !(rr is RamU16) && !(rr is U16) && !(rr is I8),
        InstructType::Daa => true,
        InstructType::Cpl => true,
        InstructType::SetCarry(_) => true,
        InstructType::Nop => true,
        InstructType::ChangeMie(_) => true,
        InstructType::Rotate(reg, _, _, _, _, _) => reg_u8_readable(reg) && !(reg is U8),
        InstructType::Swap(reg) => reg_u8_readable(reg) && !(reg is U8),
        InstructType::Bit(reg, bit_pos) => reg_u8_readable(reg) && bit_pos < 8,
        InstructType::SetBit(reg, bit_pos) => reg_u8_readable(reg) && !(reg is U8) && bit_pos < 8,
        InstructType::ResetBit(reg, bit_pos) => reg_u8_readable(reg) && !(reg is U8) && bit_pos
            < 8,
        InstructType::Jump(addr, _, _, _) => !(addr is RamU16),
        InstructType::Reset(nth_byte) => nth_byte <= 7,
        InstructType::Ret(_, _, _) => true,
    }
}



/// The mnemonic of an operation shape.
pub open spec fn spec_mnemonic(inst: InstructType) -> Seq<char> {
    match inst {
        InstructType::Load(_, _) => "LD"@,
        InstructType::LoadPlus(_, _, inc) => if inc {
            "LDI"@
        } else {
            "LDD"@
        },
        InstructType::LoadU16(_, _) => "LD16"@,
        InstructType::Push(_) => "PUSH"@,
        InstructType::Pop(_) => "POP"@,
        InstructType::Add(_, carry) => if carry {
            "ADC"@
        } else {
            "ADD"@
        },
        InstructType::Sub(_, carry) => if carry {
            "SBC"@
        } else {
            "SUB"@
        },
        InstructType::And(_) => "AND"@,
        InstructType::Or(_) => "OR"@,
        InstructType::Xor(_) => "XOR"@,
        InstructType::Cmp(_) => "CP"@,
        InstructType::Inc(_) => "INC"@,
        InstructType::Dec(_) => "DEC"@,
        InstructType::AddU16(_) => "ADD HL"@,
        InstructType::AddU16I8(_, _) => "ADD SP"@,
        InstructType::IncU16(_) => "INC16"@,
        InstructType::DecU16(_) => "DEC16"@,
        InstructType::Daa => "DAA"@,
        InstructType::Cpl => "CPL"@,
        InstructType::SetCarry(flip) => if flip {
            "CCF"@
        } else {
            "SCF"@
        },
        InstructType::Nop => "NOP"@,
        InstructType::ChangeMie(enable) => if enable {
            "EI"@
        } else {
            "DI"@
        },
        InstructType::Rotate(_, _, _, _, _, _) => "ROT"@,
        InstructType::Swap(_) => "SWAP"@,
        InstructType::Bit(_, _) => "BIT"@,
        InstructType::SetBit(_, _) => "SET"@,
        InstructType::ResetBit(_, _) => "RES"@,
        InstructType::Jump(_, is_call, _, _) => if is_call {
            "CALL"@
        } else {
            "JP"@
        },
        InstructType::Reset(_) => "RST"@,
        InstructType::Ret(_, _, _) => "RET"@,
    }
}

/// The mnemonic of an operation shape.
fn describe(inst: &InstructType) -> (r: &'static str)
    ensures
        r@ == spec_mnemonic(*inst),
{
    match inst {
        InstructType::Load(_, _) => "LD",
        InstructType::LoadPlus(_, _, inc) => if *inc {
            "LDI"
        } else {
            "LDD"
        },
        InstructType::LoadU16(_, _) => "LD16",
        InstructType::Push(_) => "PUSH",
        InstructType::Pop(_) => "POP",
        InstructType::Add(_, carry) => if *carry {
            "ADC"
        } else {
            "ADD"
        },
        InstructType::Sub(_, carry) => if *carry {
            "SBC"
        } else {
            "SUB"
        },
        InstructType::And(_) => "AND",
        InstructType::Or(_) => "OR",
        InstructType::Xor(_) => "XOR",
        InstructType::Cmp(_) => "CP",
        InstructType::Inc(_) => "INC",
        InstructType::Dec(_) => "DEC",
        InstructType::AddU16(_) => "ADD HL",
        InstructType::AddU16I8(_, _) => "ADD SP",
        InstructType::IncU16(_) => "INC16",
        InstructType::DecU16(_) => "DEC16",
        InstructType::Daa => "DAA",
        InstructType::Cpl => "CPL",
        InstructType::SetCarry(flip) => if *flip {
            "CCF"
        } else {
            "SCF"
        },
        InstructType::Nop => "NOP",
        InstructType::ChangeMie(enable) => if *enable {
            "EI"
        } else {
            "DI"
        },
        InstructType::Rotate(_, _, _, _, _, _) => "ROT",
        InstructType::Swap(_) => "SWAP",
        InstructType::Bit(_, _) => "BIT",
        InstructType::SetBit(_, _) => "SET",
        InstructType::ResetBit(_, _) => "RES",
        InstructType::Jump(_, is_call, _, _) => if *is_call {
            "CALL"
        } else {
            "JP"
        },
        InstructType::Reset(_) => "RST",
        InstructType::Ret(_, _, _) => "RET",
    }
}

impl Instruct {
    /// Pure decode of one instruction.  For the prefixed family the program
    /// counter is advanced by one inside decode, because the follow-up
    /// opcode byte is consumed before any operand byte; no other state is
    /// touched, and every opcode / follow-up combination yields an
    /// instruction with a positive cycle cost.
    pub fn fetch(cpu: &mut Cpu, opcode: u8, followup_byte: u8) -> (r: Instruct)
        ensures
            r.opcode == opcode,
            (r.inst, r.ticks) == spec_fetch(opcode, followup_byte),
            r.desc@ == spec_mnemonic(r.inst),
            r.ticks >= 4,
            inst_wf(r.inst),
            *final(cpu) == if opcode == 0xCB {
                (Cpu { pc: wadd16(old(cpu).pc, 1), ..*old(cpu) })
            } else {
                *old(cpu)
            },
    {
        let (inst, ticks) = if opcode == 0xCB {
            // Step past the extra opcode byte: prefixed operands are read
            // after it, and timing depends on this order being observable
            cpu.pc = cpu.pc.wrapping_add(1);
            decode_prefixed(followup_byte)
        } else {
            decode_primary(opcode)
        };
        let desc = String::from_str(describe(&inst));
        Instruct { opcode, inst, desc, ticks }
    }
}

/// What executing the operation `inst` does to the machine state, variant
/// by variant, in terms of the semantic functions' own postconditions.
#[verifier::opaque]
pub open spec fn exec_post(
    inst: InstructType,
    cpu: Cpu,
    mem: Memory,
    post_cpu: Cpu,
    post_mem: Memory,
) -> bool {
    match inst {
        InstructType::Load(src, dest) => load_post(cpu, mem, src, dest, post_cpu, post_mem),
        InstructType::LoadPlus(src, dest, inc) => load_plus_post(
            cpu,
            mem,
            src,
            dest,
            inc,
            post_cpu,
            post_mem,
        ),
        InstructType::LoadU16(src, dest) => load_u16_post(cpu, mem, src, dest, post_cpu, post_mem),
        InstructType::Push(src) => push_post(cpu, mem, src, post_cpu, post_mem),
        InstructType::Pop(dest) => pop_post(cpu, mem, dest, post_cpu, post_mem),
        InstructType::Add(src, carry) => add_post(cpu, mem, src, carry, post_cpu, post_mem),
        InstructType::Sub(src, carry) => sub_post(cpu, mem, src, carry, post_cpu, post_mem),
        InstructType::And(src) => and_post(cpu, mem, src, post_cpu, post_mem),
        InstructType::Or(src) => or_post(cpu, mem, src, post_cpu, post_mem),
        InstructType::Xor(src) => xor_post(cpu, mem, src, post_cpu, post_mem),
        InstructType::Cmp(src) => cmp_post(cpu, mem, src, false, post_cpu, post_mem),
        InstructType::Inc(reg) => inc_post(cpu, mem, reg, post_cpu, post_mem),
        InstructType::Dec(reg) => dec_post(cpu, mem, reg, post_cpu, post_mem),
        InstructType::AddU16(src) => add_u16_post(cpu, mem, src, post_cpu, post_mem),
        InstructType::AddU16I8(dest, offset) => add_u16_i8_post(
            cpu,
            mem,
            dest,
            offset,
            post_cpu,
            post_mem,
        ),
        InstructType::IncU16(rr) => inc_u16_post(cpu, mem, rr, post_cpu, post_mem),
        InstructType::DecU16(rr) => dec_u16_post(cpu, mem, rr, post_cpu, post_mem),
        InstructType::Daa => daa_post(cpu, post_cpu, post_mem, mem),
        InstructType::Cpl => cpl_post(cpu, post_cpu, post_mem, mem),
        InstructType::SetCarry(flip) => set_carry_post(cpu, flip, post_cpu, post_mem, mem),
        InstructType::Nop => post_cpu == cpu && post_mem == mem,
        InstructType::ChangeMie(enable) => change_mie_post(cpu, enable, post_cpu, post_mem, mem),
        InstructType::Rotate(reg, left, through_carry, update_z, shift, keep_msb) => rotate_post(
            cpu,
            mem,
            reg,
            left,
            through_carry,
            update_z,
            shift,
            keep_msb,
            post_cpu,
            post_mem,
        ),
        InstructType::Swap(reg) => swap_post(cpu, mem, reg, post_cpu, post_mem),
        InstructType::Bit(reg, bit_pos) => bit_post(cpu, mem, reg, bit_pos, post_cpu, post_mem),
        InstructType::SetBit(reg, bit_pos) => set_bit_post(
            cpu,
            mem,
            reg,
            bit_pos,
            post_cpu,
            post_mem,
        ),
        InstructType::ResetBit(reg, bit_pos) => reset_bit_post(
            cpu,
            mem,
            reg,
            bit_pos,
            post_cpu,
            post_mem,
        ),
        InstructType::Jump(addr, is_call, flag, is_set) => jump_post(
            cpu,
            mem,
            addr,
            is_call,
            flag,
            is_set,
            post_cpu,
            post_mem,
        ),
        InstructType::Reset(nth_byte) => reset_post(cpu, mem, nth_byte, post_cpu, post_mem),
        InstructType::Ret(flag, is_set, i_enable) => ret_post(
            cpu,
            mem,
            flag,
            is_set,
            i_enable,
            post_cpu,
            post_mem,
        ),
    }
}

impl InstructType {
    /// Applies the operation to the registers and the address space.
    pub fn exec(&self, cpu: &mut Cpu, mem: &mut Memory)
        requires
            old(mem).wf(),
            inst_wf(*self),
        ensures
            final(mem).wf(),
            exec_post(*self, *old(cpu), *old(mem), *final(cpu), *final(mem)),
    {
        proof {
            reveal(exec_post);
        }
        match self {
            InstructType::Load(src, dest) => instruct_fn::load(cpu, mem, src, dest),
            InstructType::LoadPlus(src, dest, inc) => instruct_fn::load_plus(
                cpu,
                mem,
                src,
                dest,
                *inc,
            ),
            InstructType::LoadU16(src, dest) => instruct_fn::load_u16(cpu, mem, src, dest),
            InstructType::Push(src) => instruct_fn::push(cpu, mem, src),
            InstructType::Pop(dest) => instruct_fn::pop(cpu, mem, dest),
            InstructType::Add(src, carry) => instruct_fn::add(cpu, mem, src, *carry),
            InstructType::Sub(src, carry) => instruct_fn::sub(cpu, mem, src, *carry),
            InstructType::And(src) => instruct_fn::and(cpu, mem, src),
            InstructType::Or(src) => instruct_fn::or(cpu, mem, src),
            InstructType::Xor(src) => instruct_fn::xor(cpu, mem, src),
            InstructType::Cmp(src) => {
                let _ = instruct_fn::cmp(cpu, mem, src, false);
            },
            InstructType::Inc(reg) => instruct_fn::inc(cpu, mem, reg),
            InstructType::Dec(reg) => instruct_fn::dec(cpu, mem, reg),
            InstructType::AddU16(src) => instruct_fn::add_u16(cpu, mem, src),
            InstructType::AddU16I8(dest, offset) => instruct_fn::add_u16_i8(cpu, mem, dest, offset),
            InstructType::IncU16(rr) => instruct_fn::inc_u16(cpu, mem, rr),
            InstructType::DecU16(rr) => instruct_fn::dec_u16(cpu, mem, rr),
            InstructType::Daa => instruct_fn::daa(cpu, mem),
            InstructType::Cpl => instruct_fn::cpl(cpu, mem),
            InstructType::SetCarry(flip) => instruct_fn::set_carry(cpu, mem, *flip),
            InstructType::Nop => {},
            InstructType::ChangeMie(enable) => instruct_fn::change_mie(cpu, mem, *enable),
            InstructType::Rotate(reg, left, through_carry, update_z, shift, keep_msb) => {
                instruct_fn::rotate(
                    cpu,
                    mem,
                    reg,
                    *left,
                    *through_carry,
                    *update_z,
                    *shift,
                    *keep_msb,
                );
            },
            InstructType::Swap(reg) => instruct_fn::swap(cpu, mem, reg),
            InstructType::Bit(reg, bit_pos) => instruct_fn::bit(cpu, mem, reg, *bit_pos),
            InstructType::SetBit(reg, bit_pos) => instruct_fn::set_bit(cpu, mem, reg, *bit_pos),
            InstructType::ResetBit(reg, bit_pos) => instruct_fn::reset_bit(cpu, mem, reg, *bit_pos),
            InstructType::Jump(addr, is_call, flag, is_set) => instruct_fn::jump(
                cpu,
                mem,
                addr,
                *is_call,
                *flag,
                *is_set,
            ),
            InstructType::Reset(nth_byte) => instruct_fn::reset(cpu, mem, *nth_byte),
            InstructType::Ret(flag, is_set, i_enable) => instruct_fn::ret(
                cpu,
                mem,
                *flag,
                *is_set,
                *i_enable,
            ),
        }
    }
}

} // verus!
