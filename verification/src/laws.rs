//! Laws of the core, stated once and proved for every machine.
//!
//! Each proof function here records a property a consumer may rely on:
//! increment semantics, decoder round-trips, the derived overlay-disable
//! register, pair packing, and relative-jump arithmetic.

use crate::bits::{spec_as_i8, spec_rel_target, spec_word};
use crate::cpu::Reg8;
use crate::isa::{spec_cond_holds, spec_exec_instr, spec_fetch, Cond, Instr};
use crate::machine::{Fault, Machine};
use crate::memory::{spec_mem_read, spec_mem_write};
use vstd::prelude::*;

verus! {

/// An 8-bit register increment yields (original + 1) mod 256, sets the
/// zero flag iff the result is 0, always clears the subtract flag, sets
/// the half-carry flag iff the low nibble of the original was 0xF, and
/// leaves the carry flag untouched. It costs 4 cycles and never faults.
pub proof fn lemma_increment(m: Machine, r: Reg8)
    ensures
        ({
            let (m2, res) = spec_exec_instr(m, Instr::IncR(r));
            &&& res == Ok::<u64, Fault>(4u64)
            &&& m2.reg8(r) == ((m.reg8(r) + 1) % 0x100) as u8
            &&& m2.flag_z() == (m2.reg8(r) == 0)
            &&& !m2.flag_n()
            &&& m2.flag_h() == (m.reg8(r) & 0xF == 0xF)
            &&& m2.flag_c() == m.flag_c()
        }),
{
    let f0 = m.f;
    let from = m.reg8(r);
    let to = if from == 0xFF {
        0u8
    } else {
        (from + 1) as u8
    };
    let z = to == 0;
    let hc = from & 0xF == 0xF;
    assert((crate::isa::spec_inc_flags(f0, from, to) & 0x80 == 0x80) == z
        && (crate::isa::spec_inc_flags(f0, from, to) & 0x40 == 0x40) == false
        && (crate::isa::spec_inc_flags(f0, from, to) & 0x20 == 0x20) == hc
        && (crate::isa::spec_inc_flags(f0, from, to) & 0x10 == 0x10) == (f0 & 0x10 == 0x10))
        by (bit_vector)
        requires
            z == (to == 0) && hc == (from & 0xF == 0xF),
    ;
}

/// A byte write followed by a read of the same address within the same
/// backing-store range returns exactly the written byte — except the
/// overlay-disable register, whose read value is derived, not stored: it
/// reads 0 after the (necessarily value-1) write that unmaps the overlay.
pub proof fn lemma_write_read_roundtrip(m: Machine, addr: u16, value: u8)
    requires
        m.wf(),
    ensures
        match spec_mem_write(m, addr, value) {
            Ok(m2) => spec_mem_read(m2, addr) == Ok::<u8, Fault>(
                if addr == 0xFF50 {
                    0u8
                } else {
                    value
                },
            ),
            Err(_) => true,
        },
{
}

/// The boot overlay answers reads of its range while it is mapped; once
/// unmapped the range falls through to the cartridge ROM. Writing 1 to the
/// overlay-disable register unmaps the overlay and changes nothing else;
/// writing any other value is a fault.
pub proof fn lemma_boot_overlay(m: Machine, addr: u16)
    requires
        m.wf(),
        addr <= 0x00FF,
    ensures
        m.boot_mapped ==> spec_mem_read(m, addr) == Ok::<u8, Fault>(m.boot[addr as int]),
        !m.boot_mapped && (addr as int) < m.rom.len() ==> spec_mem_read(m, addr) == Ok::<
            u8,
            Fault,
        >(m.rom[addr as int]),
        spec_mem_write(m, 0xFF50, 1) == Ok::<Machine, Fault>(
            (Machine { boot_mapped: false, ..m }),
        ),
        forall|v: u8|
            v != 1 ==> spec_mem_write(m, 0xFF50, v) == Err::<Machine, Fault>(
                Fault::BootDisable { value: v },
            ),
{
}

/// Packing a high and a low byte is exactly the shift-and-or a pair
/// register performs: the word reads back as (hi << 8) | lo, and splitting
/// it recovers both bytes.
pub proof fn lemma_pair_packing(hi: u8, lo: u8)
    ensures
        spec_word(hi, lo) == ((hi as u16) << 8) | (lo as u16),
        crate::bits::spec_hi(spec_word(hi, lo)) == hi,
        crate::bits::spec_lo(spec_word(hi, lo)) == lo,
{
    assert((((hi as u16) << 8) | (lo as u16)) == hi * 0x100 + lo) by (bit_vector);
    crate::bits::lemma_byte_roundtrip(hi, lo);
}

/// A 16-bit word survives a split/pack round trip.
pub proof fn lemma_pair_roundtrip(x: u16)
    ensures
        spec_word(crate::bits::spec_hi(x), crate::bits::spec_lo(x)) == x,
{
    crate::bits::lemma_word_roundtrip(x);
}

/// The relative-jump target is the pointer plus the signed offset, wrapping
/// modulo 65536.
pub proof fn lemma_rel_target_is_mod(i: u16, n: i8)
    ensures
        spec_rel_target(i, n) == (i + n + 0x10000) % 0x10000,
{
}

/// A relative jump moves the pointer just past the offset byte — call that
/// position P — to P plus the signed offset, wrapping modulo 65536, when
/// its condition holds; when the condition fails, the pointer stays at P.
/// The fetch of the offset byte itself is the only other change.
pub proof fn lemma_relative_jump(m: Machine, cond: Cond)
    ensures
        match spec_fetch(m) {
            Ok((m1, nb)) => {
                let (m2, res) = spec_exec_instr(m, Instr::Jr(cond));
                &&& spec_cond_holds(m1, cond) ==> m2 == (Machine {
                    i: spec_rel_target(m1.i, spec_as_i8(nb)),
                    ..m1
                }) && res == Ok::<u64, Fault>(12u64)
                &&& !spec_cond_holds(m1, cond) ==> m2 == m1 && res == Ok::<u64, Fault>(8u64)
            },
            Err(f) => spec_exec_instr(m, Instr::Jr(cond)) == (m, Err::<u64, Fault>(f)),
        },
{
}

} // verus!
