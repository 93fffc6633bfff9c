//! The emulator instance and its ghost model.
//!
//! [`GameBoy`] owns every piece of mutable state: the register file, the
//! byte stores behind the address decoder, and the video/audio register
//! windows the decoder delegates to. Its view is the ghost record
//! [`Machine`], over which every contract in this crate is stated.

use crate::audio::AudioData;
use crate::video::VideoData;
use vstd::prelude::*;

verus! {

/// A fatal condition. Execution stops at the first of these; the caller
/// decides whether to abort the process or surface a diagnostic. Each
/// variant identifies the offending address or opcode precisely enough to
/// reproduce it.
#[derive(Clone, Copy, Debug, PartialEq, Eq, Structural)]
pub enum Fault {
    /// A read of an address that no backing store answers.
    UnmappedRead { addr: u16 },
    /// A write to an address that no backing store answers.
    UnmappedWrite { addr: u16, value: u8 },
    /// A write to the overlay-disable register with a value other than 1,
    /// which the hardware register does not define.
    BootDisable { value: u8 },
    /// An opcode byte with no routine in the primary table.
    UnknownOpcode { opcode: u8, addr: u16 },
    /// An opcode byte with no routine in the extended table.
    UnknownExtendedOpcode { opcode: u8, addr: u16 },
}

/// The mathematical model of the whole machine: registers, cycle counter,
/// debug shadow state, and every byte store the address decoder can reach.
#[verifier::ext_equal]
pub ghost struct Machine {
    /// Cycle counter: the accrued declared cost of every executed instruction.
    pub t: u64,
    /// Instruction pointer: the position of the next byte to fetch.
    pub i: u16,
    /// Accumulator register A.
    pub a: u8,
    /// Flags register F; its top four bits are the Z/N/H/C flags.
    pub f: u8,
    pub b: u8,
    pub c: u8,
    pub d: u8,
    pub e: u8,
    pub h: u8,
    pub l: u8,
    /// Stack pointer.
    pub sp: u16,
    /// Program counter register (separate storage; the fetch path uses `i`).
    pub pc: u16,
    /// Debug shadow: the raw bytes of the instruction being decoded.
    pub code: Seq<u8>,
    /// Debug shadow: the address of the opcode being decoded.
    pub op_addr: u16,
    /// Boot overlay image, 256 bytes.
    pub boot: Seq<u8>,
    /// Cartridge ROM image.
    pub rom: Seq<u8>,
    /// Whether the boot overlay still shadows the start of the ROM.
    pub boot_mapped: bool,
    /// Work RAM, 8 KiB.
    pub wram: Seq<u8>,
    /// High RAM / stack scratch, 128 bytes.
    pub hram: Seq<u8>,
    /// Video memory window, 8 KiB, delegated to the video collaborator.
    pub vram: Seq<u8>,
    /// LCD control register.
    pub lcdc: u8,
    /// LCD scroll-Y register.
    pub scy: u8,
    /// LCD scroll-X register.
    pub scx: u8,
    /// LCD current-scanline register.
    pub ly: u8,
    /// LCD background palette register.
    pub bgp: u8,
    /// Audio register window, 23 bytes, delegated to the audio collaborator.
    pub audio: Seq<u8>,
}

impl Machine {
    /// Well-formedness: every fixed-size byte store has its declared size.
    pub open spec fn wf(self) -> bool {
        &&& self.boot.len() == 0x100
        &&& self.wram.len() == 0x2000
        &&& self.hram.len() == 0x80
        &&& self.vram.len() == 0x2000
        &&& self.audio.len() == 0x17
    }
}

/// The register file: the 8-bit registers, the two 16-bit pointers, the
/// cycle counter, and the debug shadow of the instruction being decoded.
pub struct CPUData {
    /// Clock ticks accrued so far.
    pub t: u64,
    /// Instruction pointer.
    pub i: u16,
    /// A accumulator register.
    pub a: u8,
    /// F flags register.
    pub f: u8,
    /// B and C registers, the BC pair.
    pub b: u8,
    pub c: u8,
    /// D and E registers, the DE pair.
    pub d: u8,
    pub e: u8,
    /// H and L registers, the HL pair.
    pub h: u8,
    pub l: u8,
    /// SP stack pointer register.
    pub sp: u16,
    /// PC program counter register.
    pub pc: u16,
    /// State only used for logging/debugging.
    pub debug_current_code: Vec<u8>,
    pub debug_current_op_addr: u16,
}

impl CPUData {
    /// A zeroed register file with an empty debug shadow.
    pub fn new() -> (r: CPUData)
        ensures
            r.t == 0,
            r.i == 0,
            r.a == 0,
            r.f == 0,
            r.b == 0,
            r.c == 0,
            r.d == 0,
            r.e == 0,
            r.h == 0,
            r.l == 0,
            r.sp == 0,
            r.pc == 0,
            r.debug_current_code@ == Seq::<u8>::empty(),
            r.debug_current_op_addr == 0,
    {
        CPUData {
            t: 0,
            i: 0,
            a: 0,
            f: 0,
            b: 0,
            c: 0,
            d: 0,
            e: 0,
            h: 0,
            l: 0,
            sp: 0,
            pc: 0,
            debug_current_code: Vec::new(),
            debug_current_op_addr: 0,
        }
    }
}

/// The byte stores the address decoder owns itself: work RAM, high RAM,
/// the boot overlay, the cartridge ROM image, and the overlay latch.
pub struct MemoryData {
    /// Work RAM, 8 KiB.
    pub wram: Vec<u8>,
    /// High RAM / stack scratch, 128 bytes.
    pub stack_ram: Vec<u8>,
    /// Boot overlay image, 256 bytes.
    pub boot_rom: Vec<u8>,
    /// Cartridge ROM image, supplied by the loader at startup.
    pub game_rom: Vec<u8>,
    /// Whether the overlay still shadows the start of the ROM.
    pub boot_rom_mapped: bool,
}

/// One emulator instance, owning all state exclusively.
pub struct GameBoy {
    pub cpu: CPUData,
    pub mem: MemoryData,
    pub video: VideoData,
    pub audio: AudioData,
}

/// The machine as it stands at startup: registers zeroed, cycle counter 0,
/// zeroed RAM and peripheral windows, the boot overlay mapped over the
/// given cartridge ROM image.
pub open spec fn spec_initial_machine(rom: Seq<u8>) -> Machine {
    Machine {
        t: 0,
        i: 0,
        a: 0,
        f: 0,
        b: 0,
        c: 0,
        d: 0,
        e: 0,
        h: 0,
        l: 0,
        sp: 0,
        pc: 0,
        code: Seq::empty(),
        op_addr: 0,
        boot: crate::memory::boot_image(),
        rom: rom,
        boot_mapped: true,
        wram: Seq::new(0x2000, |j: int| 0u8),
        hram: Seq::new(0x80, |j: int| 0u8),
        vram: Seq::new(0x2000, |j: int| 0u8),
        lcdc: 0,
        scy: 0,
        scx: 0,
        ly: 0,
        bgp: 0,
        audio: Seq::new(0x17, |j: int| 0u8),
    }
}

impl GameBoy {
    /// A fresh emulator instance over the given cartridge ROM image.
    pub fn new(game_rom: Vec<u8>) -> (r: GameBoy)
        ensures
            r@ == spec_initial_machine(game_rom@),
            r@.wf(),
    {
        GameBoy {
            cpu: CPUData::new(),
            mem: MemoryData::new(game_rom),
            video: VideoData::new(),
            audio: AudioData::new(),
        }
    }

    /// Checks well-formedness at run time, for callers outside the proof.
    pub fn check_wf(&self) -> (r: bool)
        ensures
            r == self@.wf(),
    {
        self.mem.boot_rom.len() == 0x100 && self.mem.wram.len() == 0x2000
            && self.mem.stack_ram.len() == 0x80 && self.video.vram.len() == 0x2000
            && self.audio.regs.len() == 0x17
    }
}

impl View for GameBoy {
    type V = Machine;

    open spec fn view(&self) -> Machine {
        Machine {
            t: self.cpu.t,
            i: self.cpu.i,
            a: self.cpu.a,
            f: self.cpu.f,
            b: self.cpu.b,
            c: self.cpu.c,
            d: self.cpu.d,
            e: self.cpu.e,
            h: self.cpu.h,
            l: self.cpu.l,
            sp: self.cpu.sp,
            pc: self.cpu.pc,
            code: self.cpu.debug_current_code@,
            op_addr: self.cpu.debug_current_op_addr,
            boot: self.mem.boot_rom@,
            rom: self.mem.game_rom@,
            boot_mapped: self.mem.boot_rom_mapped,
            wram: self.mem.wram@,
            hram: self.mem.stack_ram@,
            vram: self.video.vram@,
            lcdc: self.video.lcdc,
            scy: self.video.scy,
            scx: self.video.scx,
            ly: self.video.ly,
            bgp: self.video.bgp,
            audio: self.audio.regs@,
        }
    }
}

} // verus!
