//! Trace rendering: one human-readable line per executed instruction.
//!
//! Pure string building over the engine's outputs — the disassembly, the
//! opcode's address, the cycle counter, and the raw bytes consumed. Nothing
//! here mutates emulated state; the consumer prints the line or drops it.

use crate::bits::{spec_hi, spec_lo, spec_word, u16_to_u8s, u8s_to_u16};
use crate::cpu::Reg8;
use crate::isa::{spec_decode_primary, Cond, Instr};
use crate::cpu::CPU;
use crate::machine::{GameBoy, Machine};
use vstd::prelude::*;
use vstd::string::{StrSliceExecFns, StringExecFns};

verus! {

/// The character standing for one hex digit value (lower case); values
/// ten to fifteen map to 'a' through 'f'.
pub open spec fn spec_hex_digit(n: u8) -> char {
    if n == 0 {
        '0'
    } else if n == 1 {
        '1'
    } else if n == 2 {
        '2'
    } else if n == 3 {
        '3'
    } else if n == 4 {
        '4'
    } else if n == 5 {
        '5'
    } else if n == 6 {
        '6'
    } else if n == 7 {
        '7'
    } else if n == 8 {
        '8'
    } else if n == 9 {
        '9'
    } else if n == 10 {
        'a'
    } else if n == 11 {
        'b'
    } else if n == 12 {
        'c'
    } else if n == 13 {
        'd'
    } else if n == 14 {
        'e'
    } else {
        'f'
    }
}

/// Two hex digits of one byte.
pub open spec fn spec_hex2(b: u8) -> Seq<char> {
    seq![spec_hex_digit(b >> 4), spec_hex_digit(b & 0xF)]
}

/// Four hex digits of one word.
pub open spec fn spec_hex4(w: u16) -> Seq<char> {
    spec_hex2(spec_hi(w)) + spec_hex2(spec_lo(w))
}

/// The hex digits of a byte sequence, two per byte, joined.
pub open spec fn spec_hex_bytes(s: Seq<u8>) -> Seq<char>
    decreases s.len(),
{
    if s.len() == 0 {
        Seq::empty()
    } else {
        spec_hex_bytes(s.drop_last()) + spec_hex2(s.last())
    }
}

/// The decimal digits of a number, most significant first, no sign and no
/// leading zeros (a single zero for 0).
pub open spec fn spec_dec(n: u64) -> Seq<char>
    decreases n,
{
    if n < 10 {
        seq![spec_hex_digit(n as u8)]
    } else {
        spec_dec(n / 10).push(spec_hex_digit((n % 10) as u8))
    }
}

/// `s` padded on the right with spaces to `width`, as a left-aligned
/// column; longer text is kept whole.
pub open spec fn spec_pad_right(s: Seq<char>, width: int) -> Seq<char> {
    if s.len() >= width {
        s
    } else {
        s + Seq::new((width - s.len()) as nat, |j: int| ' ')
    }
}

/// `s` padded on the left with spaces to `width`, as a right-aligned
/// column; longer text is kept whole.
pub open spec fn spec_pad_left(s: Seq<char>, width: int) -> Seq<char> {
    if s.len() >= width {
        s
    } else {
        Seq::new((width - s.len()) as nat, |j: int| ' ') + s
    }
}

/// The printed name of an eight-bit register.
pub open spec fn spec_reg_name(r: Reg8) -> Seq<char> {
    match r {
        Reg8::A => "A"@,
        Reg8::B => "B"@,
        Reg8::C => "C"@,
        Reg8::D => "D"@,
        Reg8::E => "E"@,
        Reg8::H => "H"@,
        Reg8::L => "L"@,
    }
}

/// One hex digit as a one-character string slice.
pub fn hex_digit(n: u8) -> (r: &'static str)
    ensures
        r@ == seq![spec_hex_digit(n)],
{
    proof {
        reveal_strlit("0");
        reveal_strlit("1");
        reveal_strlit("2");
        reveal_strlit("3");
        reveal_strlit("4");
        reveal_strlit("5");
        reveal_strlit("6");
        reveal_strlit("7");
        reveal_strlit("8");
        reveal_strlit("9");
        reveal_strlit("a");
        reveal_strlit("b");
        reveal_strlit("c");
        reveal_strlit("d");
        reveal_strlit("e");
        reveal_strlit("f");
    }
    if n == 0 {
        "0"
    } else if n == 1 {
        "1"
    } else if n == 2 {
        "2"
    } else if n == 3 {
        "3"
    } else if n == 4 {
        "4"
    } else if n == 5 {
        "5"
    } else if n == 6 {
        "6"
    } else if n == 7 {
        "7"
    } else if n == 8 {
        "8"
    } else if n == 9 {
        "9"
    } else if n == 10 {
        "a"
    } else if n == 11 {
        "b"
    } else if n == 12 {
        "c"
    } else if n == 13 {
        "d"
    } else if n == 14 {
        "e"
    } else {
        "f"
    }
}

/// Appends the two hex digits of a byte.
pub fn push_hex2(s: &mut String, b: u8)
    ensures
        final(s)@ == old(s)@ + spec_hex2(b),
{
    s.append(hex_digit(b >> 4));
    s.append(hex_digit(b & 0xF));
    proof {
        assert(s@ =~= old(s)@ + spec_hex2(b));
    }
}

/// Appends the four hex digits of a word.
pub fn push_hex4(s: &mut String, w: u16)
    ensures
        final(s)@ == old(s)@ + spec_hex4(w),
{
    let (lo, hi) = u16_to_u8s(w);
    push_hex2(s, hi);
    push_hex2(s, lo);
    proof {
        assert(s@ =~= old(s)@ + spec_hex4(w));
    }
}

/// Appends the hex digits of every byte of `code`, two per byte.
pub fn push_hex_bytes(s: &mut String, code: &Vec<u8>)
    ensures
        final(s)@ == old(s)@ + spec_hex_bytes(code@),
{
    let mut j: usize = 0;
    while j < code.len()
        invariant
            j <= code.len(),
            s@ == old(s)@ + spec_hex_bytes(code@.take(j as int)),
        decreases code.len() - j,
    {
        push_hex2(s, code[j]);
        proof {
            assert(code@.take(j + 1).drop_last() =~= code@.take(j as int));
            assert(code@.take(j + 1).last() == code@[j as int]);
            assert(s@ =~= old(s)@ + spec_hex_bytes(code@.take(j + 1)));
        }
        j = j + 1;
    }
    proof {
        assert(code@.take(code@.len() as int) =~= code@);
    }
}

/// Appends the decimal digits of a number.
pub fn push_dec(s: &mut String, n: u64)
    ensures
        final(s)@ == old(s)@ + spec_dec(n),
    decreases n,
{
    if n < 10 {
        s.append(hex_digit(n as u8));
    } else {
        push_dec(s, n / 10);
        s.append(hex_digit((n % 10) as u8));
        proof {
            assert(s@ =~= old(s)@ + spec_dec(n));
        }
    }
}

/// Pads `s` on the right with spaces to `width`.
pub fn pad_right(s: &mut String, width: usize)
    ensures
        final(s)@ == spec_pad_right(old(s)@, width as int),
{
    let mut n = s.as_str().unicode_len();
    while n < width
        invariant
            n == s@.len(),
            s@ == old(s)@ + Seq::new((n - old(s)@.len()) as nat, |j: int| ' '),
            old(s)@.len() <= n,
            n <= width || n == old(s)@.len(),
        decreases width - n,
    {
        s.append(" ");
        n = n + 1;
        proof {
            reveal_strlit(" ");
            assert(s@ =~= old(s)@ + Seq::new((n - old(s)@.len()) as nat, |j: int| ' '));
        }
    }
    proof {
        assert(s@ =~= spec_pad_right(old(s)@, width as int));
    }
}

/// The decimal digits of a number, left-padded with spaces to `width`.
pub fn dec_padded(n: u64, width: usize) -> (r: String)
    ensures
        r@ == spec_pad_left(spec_dec(n), width as int),
{
    let mut digits = String::new();
    push_dec(&mut digits, n);
    let mut s = String::new();
    let mut k = digits.as_str().unicode_len();
    while k < width
        invariant
            k == s@.len() + spec_dec(n).len(),
            digits@ == spec_dec(n),
            s@ == Seq::new(s@.len(), |j: int| ' '),
            k <= width || s@.len() == 0,
        decreases width - k,
    {
        s.append(" ");
        k = k + 1;
        proof {
            reveal_strlit(" ");
            assert(s@ =~= Seq::new(s@.len(), |j: int| ' '));
        }
    }
    s.append(digits.as_str());
    proof {
        assert(s@ =~= spec_pad_left(spec_dec(n), width as int));
    }
    s
}

/// The printed name of an eight-bit register.
pub fn reg_name(r: Reg8) -> (s: &'static str)
    ensures
        s@ == spec_reg_name(r),
{
    match r {
        Reg8::A => "A",
        Reg8::B => "B",
        Reg8::C => "C",
        Reg8::D => "D",
        Reg8::E => "E",
        Reg8::H => "H",
        Reg8::L => "L",
    }
}

/// The disassembly of one instruction's raw bytes — the opcode byte (two
/// through the escape opcode) followed by the operand bytes it fetched —
/// or nothing when the bytes name no registered routine or are cut short.
pub open spec fn spec_disasm(code: Seq<u8>) -> Option<Seq<char>> {
    if code.len() == 0 {
        None
    } else if code[0] == 0xCB {
        if code.len() == 2 && code[1] == 0x7C {
            Some("BIT 7, H"@)
        } else {
            None
        }
    } else {
        match spec_decode_primary(code[0]) {
            None => None,
            Some(instr) => match instr {
                Instr::LdRN(r) => if code.len() == 2 {
                    Some("LD "@ + spec_reg_name(r) + ", $"@ + spec_hex2(code[1]))
                } else {
                    None
                },
                Instr::LdRR(d, s) => if code.len() == 1 {
                    Some("LD "@ + spec_reg_name(d) + ", "@ + spec_reg_name(s))
                } else {
                    None
                },
                Instr::LdRHl(r) => if code.len() == 1 {
                    Some("LD "@ + spec_reg_name(r) + ", (HL)"@)
                } else {
                    None
                },
                Instr::LdHlA => if code.len() == 1 {
                    Some("LD (HL), A"@)
                } else {
                    None
                },
                Instr::LdHlDecA => if code.len() == 1 {
                    Some("LD (HL-), A"@)
                } else {
                    None
                },
                Instr::LdIoCA => if code.len() == 1 {
                    Some("LD ($FF00+C), A"@)
                } else {
                    None
                },
                Instr::XorA => if code.len() == 1 {
                    Some("XOR A"@)
                } else {
                    None
                },
                Instr::IncR(r) => if code.len() == 1 {
                    Some("INC "@ + spec_reg_name(r))
                } else {
                    None
                },
                Instr::Jr(cond) => if code.len() == 2 {
                    Some(spec_jr_text(cond) + spec_dec_i8(code[1]))
                } else {
                    None
                },
                Instr::LdHlNn => if code.len() == 3 {
                    Some("LD HL, $"@ + spec_hex4(spec_word(code[2], code[1])))
                } else {
                    None
                },
                Instr::LdSpNn => if code.len() == 3 {
                    Some("LD SP, $"@ + spec_hex4(spec_word(code[2], code[1])))
                } else {
                    None
                },
            },
        }
    }
}

/// The mnemonic and condition text of a relative jump.
pub open spec fn spec_jr_text(cond: Cond) -> Seq<char> {
    match cond {
        Cond::Always => "JR "@,
        Cond::NotZero => "JR NZ, "@,
        Cond::Zero => "JR Z, "@,
        Cond::NotCarry => "JR NC, "@,
        Cond::Carry => "JR C, "@,
    }
}

/// The signed decimal reading of an offset byte.
pub open spec fn spec_dec_i8(v: u8) -> Seq<char> {
    if v < 0x80 {
        spec_dec(v as u64)
    } else {
        "-"@ + spec_dec((0x100 - v) as u64)
    }
}

/// Appends the signed decimal reading of an offset byte.
pub fn push_dec_i8(s: &mut String, v: u8)
    ensures
        final(s)@ == old(s)@ + spec_dec_i8(v),
{
    if v < 0x80 {
        push_dec(s, v as u64);
    } else {
        s.append("-");
        push_dec(s, (0x100 - v as u64) as u64);
        proof {
            assert(s@ =~= old(s)@ + spec_dec_i8(v));
        }
    }
}

/// Disassembles the raw bytes of one executed instruction.
pub fn disassemble(code: &Vec<u8>) -> (r: Option<String>)
    ensures
        match spec_disasm(code@) {
            Some(t) => r matches Some(s) && s@ == t,
            None => r is None,
        },
{
    if code.len() == 0 {
        return None;
    }
    let op = code[0];
    if op == 0xCB {
        if code.len() == 2 && code[1] == 0x7C {
            return Some(String::from_str("BIT 7, H"));
        }
        return None;
    }
    let instr = match crate::isa::decode_primary(op) {
        Some(instr) => instr,
        None => {
            return None;
        },
    };
    match instr {
        Instr::LdRN(r) => {
            if code.len() == 2 {
                let mut s = String::from_str("LD ");
                s.append(reg_name(r));
                s.append(", $");
                push_hex2(&mut s, code[1]);
                proof {
                    assert(s@ =~= spec_disasm(code@)->Some_0);
                }
                Some(s)
            } else {
                None
            }
        },
        Instr::LdRR(d, src) => {
            if code.len() == 1 {
                let mut s = String::from_str("LD ");
                s.append(reg_name(d));
                s.append(", ");
                s.append(reg_name(src));
                proof {
                    assert(s@ =~= spec_disasm(code@)->Some_0);
                }
                Some(s)
            } else {
                None
            }
        },
        Instr::LdRHl(r) => {
            if code.len() == 1 {
                let mut s = String::from_str("LD ");
                s.append(reg_name(r));
                s.append(", (HL)");
                proof {
                    assert(s@ =~= spec_disasm(code@)->Some_0);
                }
                Some(s)
            } else {
                None
            }
        },
        Instr::LdHlA => {
            if code.len() == 1 {
                Some(String::from_str("LD (HL), A"))
            } else {
                None
            }
        },
        Instr::LdHlDecA => {
            if code.len() == 1 {
                Some(String::from_str("LD (HL-), A"))
            } else {
                None
            }
        },
        Instr::LdIoCA => {
            if code.len() == 1 {
                Some(String::from_str("LD ($FF00+C), A"))
            } else {
                None
            }
        },
        Instr::XorA => {
            if code.len() == 1 {
                Some(String::from_str("XOR A"))
            } else {
                None
            }
        },
        Instr::IncR(r) => {
            if code.len() == 1 {
                let mut s = String::from_str("INC ");
                s.append(reg_name(r));
                proof {
                    assert(s@ =~= spec_disasm(code@)->Some_0);
                }
                Some(s)
            } else {
                None
            }
        },
        Instr::Jr(cond) => {
            if code.len() == 2 {
                let mut s = match cond {
                    Cond::Always => String::from_str("JR "),
                    Cond::NotZero => String::from_str("JR NZ, "),
                    Cond::Zero => String::from_str("JR Z, "),
                    Cond::NotCarry => String::from_str("JR NC, "),
                    Cond::Carry => String::from_str("JR C, "),
                };
                push_dec_i8(&mut s, code[1]);
                proof {
                    assert(s@ =~= spec_disasm(code@)->Some_0);
                }
                Some(s)
            } else {
                None
            }
        },
        Instr::LdHlNn => {
            if code.len() == 3 {
                let mut s = String::from_str("LD HL, $");
                push_hex4(&mut s, u8s_to_u16(code[1], code[2]));
                proof {
                    assert(s@ =~= spec_disasm(code@)->Some_0);
                }
                Some(s)
            } else {
                None
            }
        },
        Instr::LdSpNn => {
            if code.len() == 3 {
                let mut s = String::from_str("LD SP, $");
                push_hex4(&mut s, u8s_to_u16(code[1], code[2]));
                proof {
                    assert(s@ =~= spec_disasm(code@)->Some_0);
                }
                Some(s)
            } else {
                None
            }
        },
    }
}

/// A post-state register summary: the four pairs and the stack pointer.
pub open spec fn spec_reg_summary(m: Machine) -> Seq<char> {
    "AF = $"@ + spec_hex4(m.af()) + ", BC = $"@ + spec_hex4(m.bc()) + ", DE = $"@ + spec_hex4(
        m.de(),
    ) + ", HL = $"@ + spec_hex4(m.hl()) + ", SP = $"@ + spec_hex4(m.sp)
}

/// One trace line: the disassembly padded as a column, the opcode's
/// address, the cycle counter, the raw bytes consumed, and an optional
/// effect summary. Absent optional fields are simply omitted.
pub open spec fn spec_render_line(
    disasm: Option<Seq<char>>,
    addr: u16,
    t: u64,
    code: Seq<u8>,
    info: Option<Seq<char>>,
) -> Seq<char> {
    spec_pad_right(
        match disasm {
            Some(d) => d,
            None => Seq::empty(),
        },
        32,
    ) + " ; $"@ + spec_hex4(addr) + " ; "@ + spec_pad_left(spec_dec(t), 6) + " ; $"@
        + spec_pad_right(spec_hex_bytes(code), 8) + (match info {
        Some(x) => " ; "@ + x,
        None => Seq::<char>::empty(),
    })
}

impl GameBoy {
    /// Renders the post-state register summary.
    pub fn reg_summary(&self) -> (r: String)
        ensures
            r@ == spec_reg_summary(self@),
    {
        let mut s = String::from_str("AF = $");
        push_hex4(&mut s, self.af());
        s.append(", BC = $");
        push_hex4(&mut s, self.bc());
        s.append(", DE = $");
        push_hex4(&mut s, self.de());
        s.append(", HL = $");
        push_hex4(&mut s, self.hl());
        s.append(", SP = $");
        push_hex4(&mut s, self.sp());
        proof {
            assert(s@ =~= spec_reg_summary(self@));
        }
        s
    }

    /// Renders one trace line for the instruction just executed, from the
    /// debug shadow and the cycle counter. Does not mutate any state.
    pub fn render_log(&self, disasm: &Option<String>, info: &Option<String>) -> (r: String)
        ensures
            r@ == spec_render_line(
                match disasm {
                    Some(d) => Some(d@),
                    None => None,
                },
                self@.op_addr,
                self@.t,
                self@.code,
                match info {
                    Some(x) => Some(x@),
                    None => None,
                },
            ),
    {
        let mut s = match disasm {
            Some(d) => d.clone(),
            None => String::new(),
        };
        pad_right(&mut s, 32);
        s.append(" ; $");
        push_hex4(&mut s, self.cpu.debug_current_op_addr);
        s.append(" ; ");
        let t_col = dec_padded(self.cpu.t, 6);
        s.append(t_col.as_str());
        s.append(" ; $");
        let mut codecol = String::new();
        push_hex_bytes(&mut codecol, &self.cpu.debug_current_code);
        pad_right(&mut codecol, 8);
        s.append(codecol.as_str());
        match info {
            Some(x) => {
                s.append(" ; ");
                s.append(x.as_str());
            },
            None => (),
        }
        proof {
            assert(s@ =~= spec_render_line(
                match disasm {
                    Some(d) => Some(d@),
                    None => None,
                },
                self@.op_addr,
                self@.t,
                self@.code,
                match info {
                    Some(x) => Some(x@),
                    None => None,
                },
            ));
        }
        s
    }
}

} // verus!
