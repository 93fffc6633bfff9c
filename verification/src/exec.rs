//! The execution engine: fetch, dispatch, stack, and the tick protocol.
//!
//! One tick fetches an opcode byte at the instruction pointer (one more
//! through the escape opcode), runs the routine registered for it, and
//! accrues the routine's declared cycle cost. Every step is proved equal to
//! the specification step [`crate::isa::spec_tick`]; a fault stops the step
//! exactly where it happened and is returned, never swallowed. This module
//! implements the [`CPU`] interface for the emulator instance.

use crate::bits::{
    i8_from_u8, lemma_word_roundtrip, spec_hi, spec_lo, spec_word, spec_wrap_add16,
    spec_wrap_sub16, u16_to_u8s, u8s_to_u16, u8_get_bit,
};
use crate::cpu::{spec_set_flag, CPU, FLAG_C, FLAG_H, FLAG_N, FLAG_Z};
use crate::isa::{
    decode_extended, decode_primary, spec_exec_extended, spec_exec_instr, Cond, Instr, InstrExt,
    ESCAPE_OPCODE, MAX_INSTR_CYCLES,
};
use crate::machine::{Fault, GameBoy, Machine};
use crate::memory::MemoryController;
use vstd::prelude::*;

verus! {

/// What one executed instruction reports back: the number of cycles it
/// consumed (conditional instructions consume different counts taken and
/// not taken), an optional disassembly line, and an optional human-readable
/// effect summary. Both strings are diagnostics only; neither affects
/// emulated state.
#[derive(Debug)]
pub struct Execution {
    /// The declared cycle cost this instruction consumed.
    pub cycles: u64,
    /// Disassembly of the instruction, when available.
    pub disasm: Option<String>,
    /// Human-readable effect summary, when available.
    pub trace: Option<String>,
}

/// The machine and the result after a stack push: the low byte goes to the
/// address under SP, the high byte one below it, then SP drops by 2. A
/// fault stops the push where it happened.
pub open spec fn spec_stack_push(m: Machine, value: u16) -> (Machine, Result<(), Fault>) {
    match crate::memory::spec_mem_write(m, m.sp, spec_lo(value)) {
        Err(f) => (m, Err(f)),
        Ok(m1) => match crate::memory::spec_mem_write(m1, spec_wrap_sub16(m.sp, 1), spec_hi(value)) {
            Err(f) => (m1, Err(f)),
            Ok(m2) => ((Machine { sp: spec_wrap_sub16(m.sp, 2), ..m2 }), Ok(())),
        },
    }
}

/// The machine and the result after a stack pop: the low byte comes from
/// the address under SP, the high byte one above it, then SP rises by 2.
pub open spec fn spec_stack_pop(m: Machine) -> (Machine, Result<u16, Fault>) {
    match crate::memory::spec_mem_read(m, m.sp) {
        Err(f) => (m, Err(f)),
        Ok(lo) => match crate::memory::spec_mem_read(m, spec_wrap_add16(m.sp, 1)) {
            Err(f) => (m, Err(f)),
            Ok(hi) => ((Machine { sp: spec_wrap_add16(m.sp, 2), ..m }), Ok(spec_word(hi, lo))),
        },
    }
}

impl CPU for GameBoy {
    fn tick(&mut self) -> (r: Result<Execution, Fault>) {
        let opcode = match self.read_instruction() {
            Ok(v) => v,
            Err(f) => {
                return Err(f);
            },
        };
        let result = if opcode == ESCAPE_OPCODE {
            let opcode_2 = match self.read_immediate_u8() {
                Ok(v) => v,
                Err(f) => {
                    return Err(f);
                },
            };
            match decode_extended(opcode_2) {
                Some(x) => self.exec_extended(x),
                None => Err(
                    Fault::UnknownExtendedOpcode {
                        opcode: opcode_2,
                        addr: self.cpu.debug_current_op_addr,
                    },
                ),
            }
        } else {
            match decode_primary(opcode) {
                Some(instr) => self.exec_instr(instr),
                None => Err(Fault::UnknownOpcode { opcode, addr: self.cpu.debug_current_op_addr }),
            }
        };
        let cycles = match result {
            Ok(c) => c,
            Err(f) => {
                return Err(f);
            },
        };
        self.cpu.t = self.cpu.t + cycles;
        let disasm = crate::trace::disassemble(&self.cpu.debug_current_code);
        let summary = self.reg_summary();
        Ok(Execution { cycles, disasm, trace: Some(summary) })
    }

    fn read_instruction(&mut self) -> (r: Result<u8, Fault>) {
        self.cpu.debug_current_code.clear();
        self.cpu.debug_current_op_addr = self.cpu.i;
        self.read_immediate_u8()
    }

    fn read_immediate_u8(&mut self) -> (r: Result<u8, Fault>) {
        let i = self.cpu.i;
        let value = match self.mem(i) {
            Ok(v) => v,
            Err(f) => {
                return Err(f);
            },
        };
        self.cpu.debug_current_code.push(value);
        self.cpu.i = i.wrapping_add(1);
        Ok(value)
    }

    fn read_immediate_i8(&mut self) -> (r: Result<i8, Fault>) {
        match self.read_immediate_u8() {
            Ok(v) => Ok(i8_from_u8(v)),
            Err(f) => Err(f),
        }
    }

    fn read_immediate_u16(&mut self) -> (r: Result<u16, Fault>) {
        let n1 = match self.read_immediate_u8() {
            Ok(v) => v,
            Err(f) => {
                return Err(f);
            },
        };
        let n2 = match self.read_immediate_u8() {
            Ok(v) => v,
            Err(f) => {
                return Err(f);
            },
        };
        Ok(u8s_to_u16(n1, n2))
    }

    fn absolute_jump(&mut self, nn: u16) {
        self.cpu.i = nn;
    }

    fn relative_jump(&mut self, n: i8) {
        let t: i32 = self.cpu.i as i32 + n as i32;
        let target: u16 = if t < 0 {
            (t + 0x10000) as u16
        } else if t > 0xFFFF {
            (t - 0x10000) as u16
        } else {
            t as u16
        };
        self.cpu.i = target;
    }

    fn stack_push(&mut self, value: u16) -> (r: Result<(), Fault>) {
        let sp0 = self.cpu.sp;
        let (value_low, value_high) = u16_to_u8s(value);
        match self.set_mem(sp0, value_low) {
            Ok(u) => u,
            Err(f) => {
                return Err(f);
            },
        }
        match self.set_mem(sp0.wrapping_sub(1), value_high) {
            Ok(u) => u,
            Err(f) => {
                return Err(f);
            },
        }
        self.cpu.sp = sp0.wrapping_sub(2);
        Ok(())
    }

    fn stack_pop(&mut self) -> (r: Result<u16, Fault>) {
        let sp0 = self.cpu.sp;
        let value_low = match self.mem(sp0) {
            Ok(v) => v,
            Err(f) => {
                return Err(f);
            },
        };
        let value_high = match self.mem(sp0.wrapping_add(1)) {
            Ok(v) => v,
            Err(f) => {
                return Err(f);
            },
        };
        let value = u8s_to_u16(value_low, value_high);
        self.cpu.sp = sp0.wrapping_add(2);
        Ok(value)
    }

    fn bc(&self) -> (v: u16) {
        u8s_to_u16(self.cpu.c, self.cpu.b)
    }

    fn set_bc(&mut self, value: u16) {
        proof {
            lemma_word_roundtrip(value);
        }
        let (c, b) = u16_to_u8s(value);
        self.cpu.b = b;
        self.cpu.c = c;
    }

    fn hl(&self) -> (v: u16) {
        u8s_to_u16(self.cpu.l, self.cpu.h)
    }

    fn set_hl(&mut self, value: u16) {
        proof {
            lemma_word_roundtrip(value);
        }
        let (l, h) = u16_to_u8s(value);
        self.cpu.h = h;
        self.cpu.l = l;
    }

    fn af(&self) -> (v: u16) {
        u8s_to_u16(self.cpu.f, self.cpu.a)
    }

    fn set_af(&mut self, value: u16) {
        proof {
            lemma_word_roundtrip(value);
        }
        let (f, a) = u16_to_u8s(value);
        self.cpu.a = a;
        self.cpu.f = f;
    }

    fn de(&self) -> (v: u16) {
        u8s_to_u16(self.cpu.e, self.cpu.d)
    }

    fn set_de(&mut self, value: u16) {
        proof {
            lemma_word_roundtrip(value);
        }
        let (e, d) = u16_to_u8s(value);
        self.cpu.d = d;
        self.cpu.e = e;
    }

    fn c_flag(&self) -> (v: bool) {
        (self.cpu.f & FLAG_C) == FLAG_C
    }

    fn set_c_flag(&mut self, value: bool) {
        proof {
            let f0 = old(self)@.f;
            assert((spec_set_flag(f0, 0x10, value) & 0x10 == 0x10) == value && (spec_set_flag(
                f0,
                0x10,
                value,
            ) & 0x80 == 0x80) == (f0 & 0x80 == 0x80) && (spec_set_flag(f0, 0x10, value) & 0x40
                == 0x40) == (f0 & 0x40 == 0x40) && (spec_set_flag(f0, 0x10, value) & 0x20 == 0x20)
                == (f0 & 0x20 == 0x20)) by (bit_vector);
        }
        if value {
            self.cpu.f |= FLAG_C;
        } else {
            self.cpu.f &= !FLAG_C;
        }
    }

    fn h_flag(&self) -> (v: bool) {
        (self.cpu.f & FLAG_H) == FLAG_H
    }

    fn set_h_flag(&mut self, value: bool) {
        proof {
            let f0 = old(self)@.f;
            assert((spec_set_flag(f0, 0x20, value) & 0x20 == 0x20) == value && (spec_set_flag(
                f0,
                0x20,
                value,
            ) & 0x80 == 0x80) == (f0 & 0x80 == 0x80) && (spec_set_flag(f0, 0x20, value) & 0x40
                == 0x40) == (f0 & 0x40 == 0x40) && (spec_set_flag(f0, 0x20, value) & 0x10 == 0x10)
                == (f0 & 0x10 == 0x10)) by (bit_vector);
        }
        if value {
            self.cpu.f |= FLAG_H;
        } else {
            self.cpu.f &= !FLAG_H;
        }
    }

    fn n_flag(&self) -> (v: bool) {
        (self.cpu.f & FLAG_N) == FLAG_N
    }

    fn set_n_flag(&mut self, value: bool) {
        proof {
            let f0 = old(self)@.f;
            assert((spec_set_flag(f0, 0x40, value) & 0x40 == 0x40) == value && (spec_set_flag(
                f0,
                0x40,
                value,
            ) & 0x80 == 0x80) == (f0 & 0x80 == 0x80) && (spec_set_flag(f0, 0x40, value) & 0x20
                == 0x20) == (f0 & 0x20 == 0x20) && (spec_set_flag(f0, 0x40, value) & 0x10 == 0x10)
                == (f0 & 0x10 == 0x10)) by (bit_vector);
        }
        if value {
            self.cpu.f |= FLAG_N;
        } else {
            self.cpu.f &= !FLAG_N;
        }
    }

    fn z_flag(&self) -> (v: bool) {
        (self.cpu.f & FLAG_Z) == FLAG_Z
    }

    fn set_z_flag(&mut self, value: bool) {
        proof {
            let f0 = old(self)@.f;
            assert((spec_set_flag(f0, 0x80, value) & 0x80 == 0x80) == value && (spec_set_flag(
                f0,
                0x80,
                value,
            ) & 0x40 == 0x40) == (f0 & 0x40 == 0x40) && (spec_set_flag(f0, 0x80, value) & 0x20
                == 0x20) == (f0 & 0x20 == 0x20) && (spec_set_flag(f0, 0x80, value) & 0x10 == 0x10)
                == (f0 & 0x10 == 0x10)) by (bit_vector);
        }
        if value {
            self.cpu.f |= FLAG_Z;
        } else {
            self.cpu.f &= !FLAG_Z;
        }
    }
}

impl GameBoy {
    /// Runs one primary-table instruction, starting just after its opcode
    /// byte was fetched. Returns the declared cycle cost.
    pub fn exec_instr(&mut self, instr: Instr) -> (r: Result<u64, Fault>)
        requires
            old(self)@.wf(),
        ensures
            final(self)@.wf(),
            final(self)@ == spec_exec_instr(old(self)@, instr).0,
            r == spec_exec_instr(old(self)@, instr).1,
            r matches Ok(c) ==> c <= MAX_INSTR_CYCLES,
    {
        match instr {
            Instr::LdRN(reg) => {
                let n = match self.read_immediate_u8() {
                    Ok(v) => v,
                    Err(f) => {
                        return Err(f);
                    },
                };
                self.set_reg8(reg, n);
                Ok(8)
            },
            Instr::LdRR(dst, src) => {
                let v = self.reg8(src);
                self.set_reg8(dst, v);
                Ok(4)
            },
            Instr::LdRHl(reg) => {
                let hl = self.hl();
                let v = match self.mem(hl) {
                    Ok(v) => v,
                    Err(f) => {
                        return Err(f);
                    },
                };
                self.set_reg8(reg, v);
                Ok(8)
            },
            Instr::LdHlA => {
                let hl = self.hl();
                let a = self.a();
                match self.set_mem(hl, a) {
                    Ok(u) => u,
                    Err(f) => {
                        return Err(f);
                    },
                }
                Ok(8)
            },
            Instr::LdHlDecA => {
                let hl = self.hl();
                let a = self.a();
                match self.set_mem(hl, a) {
                    Ok(u) => u,
                    Err(f) => {
                        return Err(f);
                    },
                }
                self.set_hl(hl.wrapping_sub(1));
                Ok(8)
            },
            Instr::LdIoCA => {
                let a = self.a();
                let address = 0xFF00 + (self.c() as u16);
                match self.set_mem(address, a) {
                    Ok(u) => u,
                    Err(f) => {
                        return Err(f);
                    },
                }
                Ok(8)
            },
            Instr::XorA => {
                self.set_a(0);
                Ok(4)
            },
            Instr::IncR(reg) => {
                let from = self.reg8(reg);
                let to = from.wrapping_add(1);
                self.set_reg8(reg, to);
                self.set_z_flag(to == 0);
                self.set_n_flag(false);
                self.set_h_flag(from & 0xF == 0xF);
                Ok(4)
            },
            Instr::Jr(cond) => {
                let n = match self.read_immediate_i8() {
                    Ok(v) => v,
                    Err(f) => {
                        return Err(f);
                    },
                };
                let taken = match cond {
                    Cond::Always => true,
                    Cond::NotZero => !self.z_flag(),
                    Cond::Zero => self.z_flag(),
                    Cond::NotCarry => !self.c_flag(),
                    Cond::Carry => self.c_flag(),
                };
                if taken {
                    self.relative_jump(n);
                    Ok(12)
                } else {
                    Ok(8)
                }
            },
            Instr::LdHlNn => {
                let lo = match self.read_immediate_u8() {
                    Ok(v) => v,
                    Err(f) => {
                        return Err(f);
                    },
                };
                let hi = match self.read_immediate_u8() {
                    Ok(v) => v,
                    Err(f) => {
                        return Err(f);
                    },
                };
                self.set_h_l(hi, lo);
                Ok(12)
            },
            Instr::LdSpNn => {
                let lo = match self.read_immediate_u8() {
                    Ok(v) => v,
                    Err(f) => {
                        return Err(f);
                    },
                };
                let hi = match self.read_immediate_u8() {
                    Ok(v) => v,
                    Err(f) => {
                        return Err(f);
                    },
                };
                self.set_s_p(lo, hi);
                Ok(12)
            },
        }
    }

    /// Runs one extended-table instruction, starting just after its second
    /// opcode byte was fetched.
    pub fn exec_extended(&mut self, instr: InstrExt) -> (r: Result<u64, Fault>)
        requires
            old(self)@.wf(),
        ensures
            final(self)@.wf(),
            final(self)@ == spec_exec_extended(old(self)@, instr).0,
            r == spec_exec_extended(old(self)@, instr).1,
            r matches Ok(c) ==> c <= MAX_INSTR_CYCLES,
    {
        match instr {
            InstrExt::Bit7H => {
                let result = !u8_get_bit(self.h(), 7);
                self.set_z_flag(result);
                self.set_n_flag(false);
                self.set_h_flag(true);
                Ok(8)
            },
        }
    }
}

} // verus!
