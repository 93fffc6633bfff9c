//! Opcode tables and per-instruction semantics.
//!
//! Two fixed 256-entry tables map an opcode byte to an execution routine:
//! the primary table, and an extended table reached through the escape
//! opcode 0xCB. Here the tables are total functions from the opcode byte to
//! an instruction, and each instruction's exact effect on the machine —
//! operand fetches, register and memory writes, flag updates, and its
//! declared cycle cost — is a specification function the execution engine
//! is proved against.

use crate::bits::{spec_as_i8, spec_hi, spec_lo, spec_rel_target, spec_word, spec_wrap_sub16};
use crate::cpu::{spec_set_flag, Reg8, FLAG_H, FLAG_N, FLAG_Z};
use crate::machine::{Fault, Machine};
use crate::memory::{spec_mem_read, spec_mem_write};
use vstd::prelude::*;

verus! {

/// The escape opcode that selects the extended table.
pub const ESCAPE_OPCODE: u8 = 0xCB;

/// No instruction consumes more cycles than this.
pub const MAX_INSTR_CYCLES: u64 = 12;

/// A condition guarding a conditional jump.
#[derive(Clone, Copy, Debug, PartialEq, Eq, Structural)]
pub enum Cond {
    /// Unconditional.
    Always,
    /// Zero flag clear.
    NotZero,
    /// Zero flag set.
    Zero,
    /// Carry flag clear.
    NotCarry,
    /// Carry flag set.
    Carry,
}

/// An instruction of the primary table, decoded from its opcode byte.
/// Operand bytes are not part of this value: each routine fetches its own
/// operands through the engine's fetch primitive.
#[derive(Clone, Copy, Debug, PartialEq, Eq, Structural)]
pub enum Instr {
    /// Load a fetched immediate byte into a register; no flags affected.
    LdRN(Reg8),
    /// Copy one register into another; no flags affected.
    LdRR(Reg8, Reg8),
    /// Load the byte at the HL pair's address into a register.
    LdRHl(Reg8),
    /// Store A at the HL pair's address.
    LdHlA,
    /// Store A at the HL pair's address, then decrement HL by 1.
    LdHlDecA,
    /// Store A at address 0xFF00 + C.
    LdIoCA,
    /// Clear A by xoring it with itself.
    XorA,
    /// Increment a register by 1 modulo 256, updating Z, N and H.
    IncR(Reg8),
    /// Relative jump by a fetched signed offset, when the condition holds.
    Jr(Cond),
    /// Load a fetched 16-bit immediate (low byte first) into HL.
    LdHlNn,
    /// Load a fetched 16-bit immediate (low byte first) into SP.
    LdSpNn,
}

/// An instruction of the extended table.
#[derive(Clone, Copy, Debug, PartialEq, Eq, Structural)]
pub enum InstrExt {
    /// Test bit 7 of H: Z gets the bit's negation, N is cleared, H is set,
    /// C is untouched.
    Bit7H,
}

/// The primary opcode table: the routine registered for each opcode byte,
/// or nothing. The escape byte 0xCB has no entry here; the engine switches
/// tables on it before looking anything up.
pub open spec fn spec_decode_primary(op: u8) -> Option<Instr> {
    match op {
        0x06u8 => Some(Instr::LdRN(Reg8::B)),
        0x0E => Some(Instr::LdRN(Reg8::C)),
        0x16 => Some(Instr::LdRN(Reg8::D)),
        0x1E => Some(Instr::LdRN(Reg8::E)),
        0x26 => Some(Instr::LdRN(Reg8::H)),
        0x2E => Some(Instr::LdRN(Reg8::L)),
        0x7F => Some(Instr::LdRR(Reg8::A, Reg8::A)),
        0x78 => Some(Instr::LdRR(Reg8::A, Reg8::B)),
        0x79 => Some(Instr::LdRR(Reg8::A, Reg8::C)),
        0x7A => Some(Instr::LdRR(Reg8::A, Reg8::D)),
        0x7B => Some(Instr::LdRR(Reg8::A, Reg8::E)),
        0x7C => Some(Instr::LdRR(Reg8::A, Reg8::H)),
        0x7D => Some(Instr::LdRR(Reg8::A, Reg8::L)),
        0x7E => Some(Instr::LdRHl(Reg8::A)),
        0x40 => Some(Instr::LdRR(Reg8::B, Reg8::B)),
        0x41 => Some(Instr::LdRR(Reg8::B, Reg8::C)),
        0x42 => Some(Instr::LdRR(Reg8::B, Reg8::D)),
        0x43 => Some(Instr::LdRR(Reg8::B, Reg8::E)),
        0x44 => Some(Instr::LdRR(Reg8::B, Reg8::H)),
        0x45 => Some(Instr::LdRR(Reg8::B, Reg8::L)),
        0x46 => Some(Instr::LdRHl(Reg8::B)),
        0x18 => Some(Instr::Jr(Cond::Always)),
        0x20 => Some(Instr::Jr(Cond::NotZero)),
        0x28 => Some(Instr::Jr(Cond::Zero)),
        0x30 => Some(Instr::Jr(Cond::NotCarry)),
        0x38 => Some(Instr::Jr(Cond::Carry)),
        0x21 => Some(Instr::LdHlNn),
        0x31 => Some(Instr::LdSpNn),
        0x77 => Some(Instr::LdHlA),
        0x32 => Some(Instr::LdHlDecA),
        0xE2 => Some(Instr::LdIoCA),
        0xAF => Some(Instr::XorA),
        0x3C => Some(Instr::IncR(Reg8::A)),
        0x04 => Some(Instr::IncR(Reg8::B)),
        0x0C => Some(Instr::IncR(Reg8::C)),
        0x14 => Some(Instr::IncR(Reg8::D)),
        0x1C => Some(Instr::IncR(Reg8::E)),
        0x24 => Some(Instr::IncR(Reg8::H)),
        0x2C => Some(Instr::IncR(Reg8::L)),
        _ => None,
    }
}

/// The extended opcode table, reached through the escape opcode.
pub open spec fn spec_decode_extended(op: u8) -> Option<InstrExt> {
    match op {
        0x7Cu8 => Some(InstrExt::Bit7H),
        _ => None,
    }
}

/// Looks an opcode byte up in the primary table.
pub fn decode_primary(op: u8) -> (r: Option<Instr>)
    ensures
        r == spec_decode_primary(op),
{
    match op {
        0x06u8 => Some(Instr::LdRN(Reg8::B)),
        0x0E => Some(Instr::LdRN(Reg8::C)),
        0x16 => Some(Instr::LdRN(Reg8::D)),
        0x1E => Some(Instr::LdRN(Reg8::E)),
        0x26 => Some(Instr::LdRN(Reg8::H)),
        0x2E => Some(Instr::LdRN(Reg8::L)),
        0x7F => Some(Instr::LdRR(Reg8::A, Reg8::A)),
        0x78 => Some(Instr::LdRR(Reg8::A, Reg8::B)),
        0x79 => Some(Instr::LdRR(Reg8::A, Reg8::C)),
        0x7A => Some(Instr::LdRR(Reg8::A, Reg8::D)),
        0x7B => Some(Instr::LdRR(Reg8::A, Reg8::E)),
        0x7C => Some(Instr::LdRR(Reg8::A, Reg8::H)),
        0x7D => Some(Instr::LdRR(Reg8::A, Reg8::L)),
        0x7E => Some(Instr::LdRHl(Reg8::A)),
        0x40 => Some(Instr::LdRR(Reg8::B, Reg8::B)),
        0x41 => Some(Instr::LdRR(Reg8::B, Reg8::C)),
        0x42 => Some(Instr::LdRR(Reg8::B, Reg8::D)),
        0x43 => Some(Instr::LdRR(Reg8::B, Reg8::E)),
        0x44 => Some(Instr::LdRR(Reg8::B, Reg8::H)),
        0x45 => Some(Instr::LdRR(Reg8::B, Reg8::L)),
        0x46 => Some(Instr::LdRHl(Reg8::B)),
        0x18 => Some(Instr::Jr(Cond::Always)),
        0x20 => Some(Instr::Jr(Cond::NotZero)),
        0x28 => Some(Instr::Jr(Cond::Zero)),
        0x30 => Some(Instr::Jr(Cond::NotCarry)),
        0x38 => Some(Instr::Jr(Cond::Carry)),
        0x21 => Some(Instr::LdHlNn),
        0x31 => Some(Instr::LdSpNn),
        0x77 => Some(Instr::LdHlA),
        0x32 => Some(Instr::LdHlDecA),
        0xE2 => Some(Instr::LdIoCA),
        0xAF => Some(Instr::XorA),
        0x3C => Some(Instr::IncR(Reg8::A)),
        0x04 => Some(Instr::IncR(Reg8::B)),
        0x0C => Some(Instr::IncR(Reg8::C)),
        0x14 => Some(Instr::IncR(Reg8::D)),
        0x1C => Some(Instr::IncR(Reg8::E)),
        0x24 => Some(Instr::IncR(Reg8::H)),
        0x2C => Some(Instr::IncR(Reg8::L)),
        _ => None,
    }
}

/// Looks an opcode byte up in the extended table.
pub fn decode_extended(op: u8) -> (r: Option<InstrExt>)
    ensures
        r == spec_decode_extended(op),
{
    match op {
        0x7Cu8 => Some(InstrExt::Bit7H),
        _ => None,
    }
}

/// The debug shadow cleared and pointed at the next instruction, as the
/// start of a fetch does it.
pub open spec fn spec_begin_instr(m: Machine) -> Machine {
    Machine { code: Seq::empty(), op_addr: m.i, ..m }
}

/// One operand-fetch step: the byte at the instruction pointer, with the
/// pointer advanced by 1 (wrapping) and the byte appended to the debug
/// shadow. A fetch from an unanswered address faults and changes nothing.
pub open spec fn spec_fetch(m: Machine) -> Result<(Machine, u8), Fault> {
    match spec_mem_read(m, m.i) {
        Ok(v) => Ok(
            (
                Machine {
                    i: if m.i == 0xFFFF {
                        0
                    } else {
                        (m.i + 1) as u16
                    },
                    code: m.code.push(v),
                    ..m
                },
                v,
            ),
        ),
        Err(f) => Err(f),
    }
}

/// The flags register after an increment of `from` to `to`: Z iff the
/// result is zero, N cleared, H iff the low nibble of the original was 0xF;
/// C untouched.
pub open spec fn spec_inc_flags(f: u8, from: u8, to: u8) -> u8 {
    spec_set_flag(spec_set_flag(spec_set_flag(f, FLAG_Z, to == 0), FLAG_N, false), FLAG_H, from & 0xF == 0xF)
}

/// Whether a jump condition holds of the machine's flags.
pub open spec fn spec_cond_holds(m: Machine, cond: Cond) -> bool {
    match cond {
        Cond::Always => true,
        Cond::NotZero => !m.flag_z(),
        Cond::Zero => m.flag_z(),
        Cond::NotCarry => !m.flag_c(),
        Cond::Carry => m.flag_c(),
    }
}

/// The exact effect of one primary-table instruction, starting from the
/// machine state just after its opcode byte was fetched: the machine left
/// behind, and the instruction's declared cycle cost, or the fault that
/// stopped it.
pub open spec fn spec_exec_instr(m: Machine, instr: Instr) -> (Machine, Result<u64, Fault>) {
    match instr {
        Instr::LdRN(r) => match spec_fetch(m) {
            Ok((m1, n)) => (m1.with_reg8(r, n), Ok(8)),
            Err(f) => (m, Err(f)),
        },
        Instr::LdRR(dst, src) => (m.with_reg8(dst, m.reg8(src)), Ok(4)),
        Instr::LdRHl(r) => match spec_mem_read(m, m.hl()) {
            Ok(v) => (m.with_reg8(r, v), Ok(8)),
            Err(f) => (m, Err(f)),
        },
        Instr::LdHlA => match spec_mem_write(m, m.hl(), m.a) {
            Ok(m1) => (m1, Ok(8)),
            Err(f) => (m, Err(f)),
        },
        Instr::LdHlDecA => match spec_mem_write(m, m.hl(), m.a) {
            Ok(m1) => (
                (Machine {
                    h: spec_hi(spec_wrap_sub16(m.hl(), 1)),
                    l: spec_lo(spec_wrap_sub16(m.hl(), 1)),
                    ..m1
                }),
                Ok(8),
            ),
            Err(f) => (m, Err(f)),
        },
        Instr::LdIoCA => match spec_mem_write(m, (0xFF00 + m.c) as u16, m.a) {
            Ok(m1) => (m1, Ok(8)),
            Err(f) => (m, Err(f)),
        },
        Instr::XorA => ((Machine { a: 0, ..m }), Ok(4)),
        Instr::IncR(r) => {
            let from = m.reg8(r);
            let to = if from == 0xFF {
                0u8
            } else {
                (from + 1) as u8
            };
            ((Machine { f: spec_inc_flags(m.f, from, to), ..m.with_reg8(r, to) }), Ok(4))
        },
        Instr::Jr(cond) => match spec_fetch(m) {
            Ok((m1, nb)) => if spec_cond_holds(m1, cond) {
                ((Machine { i: spec_rel_target(m1.i, spec_as_i8(nb)), ..m1 }), Ok(12))
            } else {
                (m1, Ok(8))
            },
            Err(f) => (m, Err(f)),
        },
        Instr::LdHlNn => match spec_fetch(m) {
            Ok((m1, lo)) => match spec_fetch(m1) {
                Ok((m2, hi)) => ((Machine { h: hi, l: lo, ..m2 }), Ok(12)),
                Err(f) => (m1, Err(f)),
            },
            Err(f) => (m, Err(f)),
        },
        Instr::LdSpNn => match spec_fetch(m) {
            Ok((m1, lo)) => match spec_fetch(m1) {
                Ok((m2, hi)) => ((Machine { sp: spec_word(hi, lo), ..m2 }), Ok(12)),
                Err(f) => (m1, Err(f)),
            },
            Err(f) => (m, Err(f)),
        },
    }
}

/// The exact effect of one extended-table instruction, starting from the
/// machine state just after its second opcode byte was fetched.
pub open spec fn spec_exec_extended(m: Machine, instr: InstrExt) -> (Machine, Result<u64, Fault>) {
    match instr {
        InstrExt::Bit7H => {
            let z = !crate::bits::spec_bit(m.h, 7);
            let f1 = spec_set_flag(spec_set_flag(spec_set_flag(m.f, FLAG_Z, z), FLAG_N, false), FLAG_H, true);
            ((Machine { f: f1, ..m }), Ok(8))
        },
    }
}

/// One full dispatch step: clear the debug shadow, fetch the opcode byte
/// (and one more through the escape opcode), run the routine the table
/// holds for it, and accrue the declared cycle cost. Yields the machine
/// left behind — also on a fault, which stops the step where it happened —
/// and the cycle cost or the fault.
pub open spec fn spec_tick(m: Machine) -> (Machine, Result<u64, Fault>) {
    let mb = spec_begin_instr(m);
    match spec_fetch(mb) {
        Err(f) => (mb, Err(f)),
        Ok((m1, op)) => {
            let stepped = if op == ESCAPE_OPCODE {
                match spec_fetch(m1) {
                    Err(f) => (m1, Err(f)),
                    Ok((m1x, op2)) => match spec_decode_extended(op2) {
                        Some(x) => spec_exec_extended(m1x, x),
                        None => (
                            m1x,
                            Err(Fault::UnknownExtendedOpcode { opcode: op2, addr: mb.op_addr }),
                        ),
                    },
                }
            } else {
                match spec_decode_primary(op) {
                    Some(instr) => spec_exec_instr(m1, instr),
                    None => (m1, Err(Fault::UnknownOpcode { opcode: op, addr: mb.op_addr })),
                }
            };
            match stepped.1 {
                Ok(cycles) => ((Machine { t: (stepped.0.t + cycles) as u64, ..stepped.0 }), Ok(cycles)),
                Err(f) => (stepped.0, Err(f)),
            }
        },
    }
}

} // verus!
