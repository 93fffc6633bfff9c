//! Register file and flags codec, and the CPU's interface.
//!
//! Byte-level get/set for the eight named registers and the two pointers,
//! pair-level get/set for AF/BC/DE/HL computed by bit packing, and accessors
//! for the four condition flags packed into the top bits of F. Setting one
//! flag never perturbs the other three; all of these are total functions.
//! The [`CPU`] trait is the interface the execution engine presents: the
//! dispatch protocol, operand fetches, jumps, the stack, and the pair and
//! flag accessors, each with its exact contract.

use crate::bits::{spec_as_i8, spec_hi, spec_lo, spec_rel_target, spec_word, u8s_to_u16};
use crate::exec::{spec_stack_pop, spec_stack_push, Execution};
use crate::isa::{spec_begin_instr, spec_fetch, spec_tick, MAX_INSTR_CYCLES};
use crate::machine::{Fault, GameBoy, Machine};
use vstd::prelude::*;

verus! {

/// Bit of F holding the carry flag.
pub const FLAG_C: u8 = 0x10;

/// Bit of F holding the half-carry flag.
pub const FLAG_H: u8 = 0x20;

/// Bit of F holding the subtract/negate flag.
pub const FLAG_N: u8 = 0x40;

/// Bit of F holding the zero flag.
pub const FLAG_Z: u8 = 0x80;

/// A name of one of the eight-bit general registers.
#[derive(Clone, Copy, Debug, PartialEq, Eq, Structural)]
pub enum Reg8 {
    A,
    B,
    C,
    D,
    E,
    H,
    L,
}

/// `f` with the flag bits under `mask` forced to `value` and every other
/// bit kept.
pub open spec fn spec_set_flag(f: u8, mask: u8, value: bool) -> u8 {
    if value {
        f | mask
    } else {
        f & !mask
    }
}

impl Machine {
    /// The named eight-bit register.
    pub open spec fn reg8(self, r: Reg8) -> u8 {
        match r {
            Reg8::A => self.a,
            Reg8::B => self.b,
            Reg8::C => self.c,
            Reg8::D => self.d,
            Reg8::E => self.e,
            Reg8::H => self.h,
            Reg8::L => self.l,
        }
    }

    /// The machine with the named eight-bit register replaced.
    pub open spec fn with_reg8(self, r: Reg8, v: u8) -> Machine {
        match r {
            Reg8::A => Machine { a: v, ..self },
            Reg8::B => Machine { b: v, ..self },
            Reg8::C => Machine { c: v, ..self },
            Reg8::D => Machine { d: v, ..self },
            Reg8::E => Machine { e: v, ..self },
            Reg8::H => Machine { h: v, ..self },
            Reg8::L => Machine { l: v, ..self },
        }
    }

    /// The AF pair: A high, F low.
    pub open spec fn af(self) -> u16 {
        spec_word(self.a, self.f)
    }

    /// The BC pair: B high, C low.
    pub open spec fn bc(self) -> u16 {
        spec_word(self.b, self.c)
    }

    /// The DE pair: D high, E low.
    pub open spec fn de(self) -> u16 {
        spec_word(self.d, self.e)
    }

    /// The HL pair: H high, L low.
    pub open spec fn hl(self) -> u16 {
        spec_word(self.h, self.l)
    }

    /// The zero flag: bit 7 of F.
    pub open spec fn flag_z(self) -> bool {
        self.f & FLAG_Z == FLAG_Z
    }

    /// The subtract/negate flag: bit 6 of F.
    pub open spec fn flag_n(self) -> bool {
        self.f & FLAG_N == FLAG_N
    }

    /// The half-carry flag: bit 5 of F.
    pub open spec fn flag_h(self) -> bool {
        self.f & FLAG_H == FLAG_H
    }

    /// The carry flag: bit 4 of F.
    pub open spec fn flag_c(self) -> bool {
        self.f & FLAG_C == FLAG_C
    }
}

/// The execution engine's interface: the dispatch protocol, operand
/// fetches, jumps, the stack, and the pair and flag accessors.
pub trait CPU: View<V = Machine> + Sized {
    /// One full dispatch step: fetch, decode (switching tables on the
    /// escape opcode), execute, and accrue the declared cycle cost. The
    /// cycle counter never decreases.
    fn tick(&mut self) -> (r: Result<Execution, Fault>)
        requires
            old(self)@.wf(),
            old(self)@.t + MAX_INSTR_CYCLES <= u64::MAX,
        ensures
            final(self)@.wf(),
            final(self)@ == spec_tick(old(self)@).0,
            match spec_tick(old(self)@).1 {
                Ok(c) => r matches Ok(e) && e.cycles == c && (match crate::trace::spec_disasm(
                    spec_tick(old(self)@).0.code,
                ) {
                    Some(t) => e.disasm matches Some(s) && s@ == t,
                    None => e.disasm is None,
                }) && (e.trace matches Some(s) && s@ == crate::trace::spec_reg_summary(
                    spec_tick(old(self)@).0,
                )),
                Err(f) => r matches Err(g) && g == f,
            },
            final(self)@.t >= old(self)@.t,
    ;

    /// Starts a new instruction: clears the debug shadow, records the
    /// opcode's address, and fetches the opcode byte.
    fn read_instruction(&mut self) -> (r: Result<u8, Fault>)
        requires
            old(self)@.wf(),
        ensures
            final(self)@.wf(),
            match spec_fetch(spec_begin_instr(old(self)@)) {
                Ok((m2, v)) => r == Ok::<u8, Fault>(v) && final(self)@ == m2,
                Err(f) => r == Err::<u8, Fault>(f) && final(self)@ == spec_begin_instr(
                    old(self)@,
                ),
            },
    ;

    /// Fetches one operand byte at the instruction pointer, appends it to
    /// the debug shadow, and advances the pointer by 1, wrapping.
    fn read_immediate_u8(&mut self) -> (r: Result<u8, Fault>)
        requires
            old(self)@.wf(),
        ensures
            final(self)@.wf(),
            match spec_fetch(old(self)@) {
                Ok((m2, v)) => r == Ok::<u8, Fault>(v) && final(self)@ == m2,
                Err(f) => r == Err::<u8, Fault>(f) && final(self)@ == old(self)@,
            },
    ;

    /// Fetches one operand byte and reinterprets it as a signed offset.
    fn read_immediate_i8(&mut self) -> (r: Result<i8, Fault>)
        requires
            old(self)@.wf(),
        ensures
            final(self)@.wf(),
            match spec_fetch(old(self)@) {
                Ok((m2, v)) => r == Ok::<i8, Fault>(spec_as_i8(v)) && final(self)@ == m2,
                Err(f) => r == Err::<i8, Fault>(f) && final(self)@ == old(self)@,
            },
    ;

    /// Fetches a 16-bit immediate, low byte first.
    fn read_immediate_u16(&mut self) -> (r: Result<u16, Fault>)
        requires
            old(self)@.wf(),
        ensures
            final(self)@.wf(),
            match spec_fetch(old(self)@) {
                Err(f) => r == Err::<u16, Fault>(f) && final(self)@ == old(self)@,
                Ok((m1, lo)) => match spec_fetch(m1) {
                    Err(f) => r == Err::<u16, Fault>(f) && final(self)@ == m1,
                    Ok((m2, hi)) => r == Ok::<u16, Fault>(spec_word(hi, lo)) && final(self)@
                        == m2,
                },
            },
    ;

    /// Sets the instruction pointer to an absolute address.
    fn absolute_jump(&mut self, nn: u16)
        ensures
            final(self)@ == (Machine { i: nn, ..old(self)@ }),
    ;

    /// Moves the instruction pointer by a signed offset, wrapping modulo
    /// 65536.
    fn relative_jump(&mut self, n: i8)
        ensures
            final(self)@ == (Machine { i: spec_rel_target(old(self)@.i, n), ..old(self)@ }),
    ;

    /// Pushes a 16-bit value: low byte at SP, high byte at SP-1, then SP
    /// drops by 2, wrapping at the edges of the address space.
    fn stack_push(&mut self, value: u16) -> (r: Result<(), Fault>)
        requires
            old(self)@.wf(),
        ensures
            final(self)@.wf(),
            final(self)@ == spec_stack_push(old(self)@, value).0,
            r == spec_stack_push(old(self)@, value).1,
    ;

    /// Pops a 16-bit value: low byte at SP, high byte at SP+1, then SP
    /// rises by 2, wrapping at the edges of the address space.
    fn stack_pop(&mut self) -> (r: Result<u16, Fault>)
        requires
            old(self)@.wf(),
        ensures
            final(self)@.wf(),
            final(self)@ == spec_stack_pop(old(self)@).0,
            r == spec_stack_pop(old(self)@).1,
    ;

    /// Reads the BC pair.
    fn bc(&self) -> (v: u16)
        ensures
            v == self@.bc(),
    ;

    /// Writes the BC pair: the high byte goes to B, the low byte to C.
    fn set_bc(&mut self, value: u16)
        ensures
            final(self)@ == (Machine { b: spec_hi(value), c: spec_lo(value), ..old(self)@ }),
            final(self)@.bc() == value,
    ;

    /// Reads the HL pair.
    fn hl(&self) -> (v: u16)
        ensures
            v == self@.hl(),
    ;

    /// Writes the HL pair: the high byte goes to H, the low byte to L.
    fn set_hl(&mut self, value: u16)
        ensures
            final(self)@ == (Machine { h: spec_hi(value), l: spec_lo(value), ..old(self)@ }),
            final(self)@.hl() == value,
    ;

    /// Reads the AF pair.
    fn af(&self) -> (v: u16)
        ensures
            v == self@.af(),
    ;

    /// Writes the AF pair: the high byte goes to A, the low byte to F.
    fn set_af(&mut self, value: u16)
        ensures
            final(self)@ == (Machine { a: spec_hi(value), f: spec_lo(value), ..old(self)@ }),
            final(self)@.af() == value,
    ;

    /// Reads the DE pair.
    fn de(&self) -> (v: u16)
        ensures
            v == self@.de(),
    ;

    /// Writes the DE pair: the high byte goes to D, the low byte to E.
    fn set_de(&mut self, value: u16)
        ensures
            final(self)@ == (Machine { d: spec_hi(value), e: spec_lo(value), ..old(self)@ }),
            final(self)@.de() == value,
    ;

    /// Reads the carry flag.
    fn c_flag(&self) -> (v: bool)
        ensures
            v == self@.flag_c(),
    ;

    /// Writes the carry flag, keeping the other three flags.
    fn set_c_flag(&mut self, value: bool)
        ensures
            final(self)@ == (Machine {
                f: spec_set_flag(old(self)@.f, FLAG_C, value),
                ..old(self)@
            }),
            final(self)@.flag_c() == value,
            final(self)@.flag_z() == old(self)@.flag_z(),
            final(self)@.flag_n() == old(self)@.flag_n(),
            final(self)@.flag_h() == old(self)@.flag_h(),
    ;

    /// Reads the half-carry flag.
    fn h_flag(&self) -> (v: bool)
        ensures
            v == self@.flag_h(),
    ;

    /// Writes the half-carry flag, keeping the other three flags.
    fn set_h_flag(&mut self, value: bool)
        ensures
            final(self)@ == (Machine {
                f: spec_set_flag(old(self)@.f, FLAG_H, value),
                ..old(self)@
            }),
            final(self)@.flag_h() == value,
            final(self)@.flag_z() == old(self)@.flag_z(),
            final(self)@.flag_n() == old(self)@.flag_n(),
            final(self)@.flag_c() == old(self)@.flag_c(),
    ;

    /// Reads the subtract/negate flag.
    fn n_flag(&self) -> (v: bool)
        ensures
            v == self@.flag_n(),
    ;

    /// Writes the subtract/negate flag, keeping the other three flags.
    fn set_n_flag(&mut self, value: bool)
        ensures
            final(self)@ == (Machine {
                f: spec_set_flag(old(self)@.f, FLAG_N, value),
                ..old(self)@
            }),
            final(self)@.flag_n() == value,
            final(self)@.flag_z() == old(self)@.flag_z(),
            final(self)@.flag_h() == old(self)@.flag_h(),
            final(self)@.flag_c() == old(self)@.flag_c(),
    ;

    /// Reads the zero flag.
    fn z_flag(&self) -> (v: bool)
        ensures
            v == self@.flag_z(),
    ;

    /// Writes the zero flag, keeping the other three flags.
    fn set_z_flag(&mut self, value: bool)
        ensures
            final(self)@ == (Machine {
                f: spec_set_flag(old(self)@.f, FLAG_Z, value),
                ..old(self)@
            }),
            final(self)@.flag_z() == value,
            final(self)@.flag_n() == old(self)@.flag_n(),
            final(self)@.flag_h() == old(self)@.flag_h(),
            final(self)@.flag_c() == old(self)@.flag_c(),
    ;
}

impl GameBoy {
    /// Reads the named eight-bit register.
    pub fn reg8(&self, r: Reg8) -> (v: u8)
        ensures
            v == self@.reg8(r),
    {
        match r {
            Reg8::A => self.cpu.a,
            Reg8::B => self.cpu.b,
            Reg8::C => self.cpu.c,
            Reg8::D => self.cpu.d,
            Reg8::E => self.cpu.e,
            Reg8::H => self.cpu.h,
            Reg8::L => self.cpu.l,
        }
    }

    /// Writes the named eight-bit register.
    pub fn set_reg8(&mut self, r: Reg8, v: u8)
        ensures
            final(self)@ == old(self)@.with_reg8(r, v),
    {
        match r {
            Reg8::A => self.cpu.a = v,
            Reg8::B => self.cpu.b = v,
            Reg8::C => self.cpu.c = v,
            Reg8::D => self.cpu.d = v,
            Reg8::E => self.cpu.e = v,
            Reg8::H => self.cpu.h = v,
            Reg8::L => self.cpu.l = v,
        }
    }

    /// Reads the cycle counter.
    pub fn t(&self) -> (v: u64)
        ensures
            v == self@.t,
    {
        self.cpu.t
    }

    /// Reads the instruction pointer: the position of the next byte to
    /// fetch.
    pub fn i(&self) -> (v: u16)
        ensures
            v == self@.i,
    {
        self.cpu.i
    }

    /// Reads register A.
    pub fn a(&self) -> (v: u8)
        ensures
            v == self@.a,
    {
        self.cpu.a
    }

    /// Writes register A.
    pub fn set_a(&mut self, value: u8)
        ensures
            final(self)@ == (Machine { a: value, ..old(self)@ }),
    {
        self.cpu.a = value;
    }

    /// Reads the flags register F.
    pub fn flags(&self) -> (v: u8)
        ensures
            v == self@.f,
    {
        self.cpu.f
    }

    /// Writes the flags register F whole.
    pub fn set_flags(&mut self, value: u8)
        ensures
            final(self)@ == (Machine { f: value, ..old(self)@ }),
    {
        self.cpu.f = value;
    }

    /// Reads register B.
    pub fn b(&self) -> (v: u8)
        ensures
            v == self@.b,
    {
        self.cpu.b
    }

    /// Writes register B.
    pub fn set_b(&mut self, value: u8)
        ensures
            final(self)@ == (Machine { b: value, ..old(self)@ }),
    {
        self.cpu.b = value;
    }

    /// Reads register C.
    pub fn c(&self) -> (v: u8)
        ensures
            v == self@.c,
    {
        self.cpu.c
    }

    /// Writes register C.
    pub fn set_c(&mut self, value: u8)
        ensures
            final(self)@ == (Machine { c: value, ..old(self)@ }),
    {
        self.cpu.c = value;
    }

    /// Reads register D.
    pub fn d(&self) -> (v: u8)
        ensures
            v == self@.d,
    {
        self.cpu.d
    }

    /// Writes register D.
    pub fn set_d(&mut self, value: u8)
        ensures
            final(self)@ == (Machine { d: value, ..old(self)@ }),
    {
        self.cpu.d = value;
    }

    /// Reads register E.
    pub fn e(&self) -> (v: u8)
        ensures
            v == self@.e,
    {
        self.cpu.e
    }

    /// Writes register E.
    pub fn set_e(&mut self, value: u8)
        ensures
            final(self)@ == (Machine { e: value, ..old(self)@ }),
    {
        self.cpu.e = value;
    }

    /// Reads register H.
    pub fn h(&self) -> (v: u8)
        ensures
            v == self@.h,
    {
        self.cpu.h
    }

    /// Writes register H.
    pub fn set_h(&mut self, value: u8)
        ensures
            final(self)@ == (Machine { h: value, ..old(self)@ }),
    {
        self.cpu.h = value;
    }

    /// Reads register L.
    pub fn l(&self) -> (v: u8)
        ensures
            v == self@.l,
    {
        self.cpu.l
    }

    /// Writes register L.
    pub fn set_l(&mut self, value: u8)
        ensures
            final(self)@ == (Machine { l: value, ..old(self)@ }),
    {
        self.cpu.l = value;
    }

    /// Writes H and L from two separate bytes.
    pub fn set_h_l(&mut self, h: u8, l: u8)
        ensures
            final(self)@ == (Machine { h: h, l: l, ..old(self)@ }),
            final(self)@.hl() == spec_word(h, l),
    {
        self.cpu.h = h;
        self.cpu.l = l;
    }

    /// Reads the stack pointer.
    pub fn sp(&self) -> (v: u16)
        ensures
            v == self@.sp,
    {
        self.cpu.sp
    }

    /// Writes the stack pointer.
    pub fn set_sp(&mut self, value: u16)
        ensures
            final(self)@ == (Machine { sp: value, ..old(self)@ }),
    {
        self.cpu.sp = value;
    }

    /// Writes the stack pointer from its low and high byte.
    pub fn set_s_p(&mut self, s: u8, p: u8)
        ensures
            final(self)@ == (Machine { sp: spec_word(p, s), ..old(self)@ }),
    {
        self.cpu.sp = u8s_to_u16(s, p);
    }

    /// Reads the program counter register.
    pub fn pc(&self) -> (v: u16)
        ensures
            v == self@.pc,
    {
        self.cpu.pc
    }

    /// Writes the program counter register.
    pub fn set_pc(&mut self, value: u16)
        ensures
            final(self)@ == (Machine { pc: value, ..old(self)@ }),
    {
        self.cpu.pc = value;
    }

    /// Writes the program counter register from its low and high byte.
    pub fn set_p_c(&mut self, p: u8, c: u8)
        ensures
            final(self)@ == (Machine { pc: spec_word(c, p), ..old(self)@ }),
    {
        self.cpu.pc = u8s_to_u16(p, c);
    }
}

} // verus!
