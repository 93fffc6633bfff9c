//! Core of an 8-bit handheld game console emulator: the register file and
//! flags codec, the memory address decoder with its boot overlay, the opcode
//! dispatch engine with per-instruction semantics and cycle accounting, and
//! the rendering of one trace line per executed instruction.
//!
//! The whole machine state is modelled by a ghost record; every mutating
//! operation states in its contract exactly which machine it leaves behind.
//! Fatal conditions (an address no backing store answers, an opcode with no
//! routine, an ill-formed write to the overlay-disable register) are reported
//! as fault values, never swallowed.

pub mod audio;
pub mod bits;
pub mod cpu;
pub mod exec;
pub mod isa;
pub mod laws;
pub mod machine;
pub mod memory;
pub mod trace;
pub mod video;
