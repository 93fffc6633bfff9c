//! The memory address decoder and its backing stores.
//!
//! A 16-bit byte-addressable space is multiplexed by range into: the boot
//! overlay (while mapped) or cartridge ROM, work RAM, high RAM, and the
//! delegated video/audio windows. Exactly one backing store answers each
//! covered address; any other address is a fatal decode fault, never a
//! silent no-op. The overlay-disable register at 0xFF50 is derived, not
//! stored: it reads 1 while the overlay is mapped and 0 afterwards, accepts
//! only a write of 1, and unmapping is irreversible.

use crate::machine::{Fault, GameBoy, Machine, MemoryData};
use vstd::string::StringExecFns;
use vstd::prelude::*;

verus! {

/// The byte the decoder answers for a read of `addr`, or the fault that
/// stops execution.
pub open spec fn spec_mem_read(m: Machine, addr: u16) -> Result<u8, Fault> {
    if m.boot_mapped && addr <= 0x00FF {
        Ok(m.boot[addr as int])
    } else if addr <= 0x7FFF {
        if (addr as int) < m.rom.len() {
            Ok(m.rom[addr as int])
        } else {
            Err(Fault::UnmappedRead { addr })
        }
    } else if 0x8000 <= addr && addr <= 0x9FFF {
        Ok(m.vram[addr - 0x8000])
    } else if 0xC000 <= addr && addr <= 0xDFFF {
        Ok(m.wram[addr - 0xC000])
    } else if 0xFF80 <= addr && addr <= 0xFFFE {
        Ok(m.hram[addr - 0xFF80])
    } else if 0xFF10 <= addr && addr <= 0xFF26 {
        Ok(m.audio[addr - 0xFF10])
    } else if addr == 0xFF40 {
        Ok(m.lcdc)
    } else if addr == 0xFF42 {
        Ok(m.scy)
    } else if addr == 0xFF43 {
        Ok(m.scx)
    } else if addr == 0xFF44 {
        Ok(m.ly)
    } else if addr == 0xFF47 {
        Ok(m.bgp)
    } else if addr == 0xFF50 {
        Ok(
            if m.boot_mapped {
                1
            } else {
                0
            },
        )
    } else {
        Err(Fault::UnmappedRead { addr })
    }
}

/// The machine a write of `value` to `addr` leaves behind, or the fault
/// that stops execution (in which case nothing changes).
pub open spec fn spec_mem_write(m: Machine, addr: u16, value: u8) -> Result<Machine, Fault> {
    if 0x8000 <= addr && addr <= 0x9FFF {
        Ok(Machine { vram: m.vram.update(addr - 0x8000, value), ..m })
    } else if 0xC000 <= addr && addr <= 0xDFFF {
        Ok(Machine { wram: m.wram.update(addr - 0xC000, value), ..m })
    } else if 0xFF80 <= addr && addr <= 0xFFFE {
        Ok(Machine { hram: m.hram.update(addr - 0xFF80, value), ..m })
    } else if 0xFF10 <= addr && addr <= 0xFF26 {
        Ok(Machine { audio: m.audio.update(addr - 0xFF10, value), ..m })
    } else if addr == 0xFF40 {
        Ok(Machine { lcdc: value, ..m })
    } else if addr == 0xFF42 {
        Ok(Machine { scy: value, ..m })
    } else if addr == 0xFF43 {
        Ok(Machine { scx: value, ..m })
    } else if addr == 0xFF44 {
        Ok(Machine { ly: value, ..m })
    } else if addr == 0xFF47 {
        Ok(Machine { bgp: value, ..m })
    } else if addr == 0xFF50 {
        if value == 0x01 {
            Ok(Machine { boot_mapped: false, ..m })
        } else {
            Err(Fault::BootDisable { value })
        }
    } else {
        Err(Fault::UnmappedWrite { addr, value })
    }
}

impl MemoryData {
    /// Fresh decoder-owned stores: zeroed RAM, the boot overlay mapped over
    /// the given cartridge ROM image.
    pub fn new(game_rom: Vec<u8>) -> (r: MemoryData)
        ensures
            r.wram@ == Seq::new(0x2000, |j: int| 0u8),
            r.stack_ram@ == Seq::new(0x80, |j: int| 0u8),
            r.boot_rom@ == boot_image(),
            r.game_rom@ == game_rom@,
            r.boot_rom_mapped == true,
    {
        MemoryData {
            wram: vec![0u8; 0x2000],
            stack_ram: vec![0u8; 0x80],
            game_rom,
            boot_rom_mapped: true,
            boot_rom: load_boot_rom(),
        }
    }
}

/// The address decoder's interface: byte reads and writes over the whole
/// 16-bit space, total over the declared ranges and fatal outside them.
pub trait MemoryController: View<V = Machine> + Sized {
    /// Decodes `addr` and reads one byte from the store that answers it.
    fn mem(&self, addr: u16) -> (r: Result<u8, Fault>)
        requires
            self@.wf(),
        ensures
            r == spec_mem_read(self@, addr),
    ;

    /// Decodes `addr` and writes one byte to the store that answers it.
    /// On a fault nothing is changed.
    fn set_mem(&mut self, addr: u16, value: u8) -> (r: Result<(), Fault>)
        requires
            old(self)@.wf(),
        ensures
            final(self)@.wf(),
            match spec_mem_write(old(self)@, addr, value) {
                Ok(m2) => r is Ok && final(self)@ == m2,
                Err(f) => r == Err::<(), Fault>(f) && final(self)@ == old(self)@,
            },
    ;
}

impl MemoryController for GameBoy {
    fn mem(&self, addr: u16) -> (r: Result<u8, Fault>) {
        if self.mem.boot_rom_mapped && addr <= 0x00FF {
            // boot overlay, until unmapped to expose the first ROM bytes
            Ok(self.mem.boot_rom[addr as usize])
        } else if addr <= 0x7FFF {
            // first page of the cartridge ROM image
            if (addr as usize) < self.mem.game_rom.len() {
                Ok(self.mem.game_rom[addr as usize])
            } else {
                Err(Fault::UnmappedRead { addr })
            }
        } else if 0x8000 <= addr && addr <= 0x9FFF {
            let i: usize = (addr - 0x8000) as usize;
            Ok(self.vram(i))
        } else if 0xC000 <= addr && addr <= 0xDFFF {
            let i: usize = (addr - 0xC000) as usize;
            Ok(self.mem.wram[i])
        } else if 0xFF80 <= addr && addr <= 0xFFFE {
            let i: usize = (addr - 0xFF80) as usize;
            Ok(self.mem.stack_ram[i])
        } else if 0xFF10 <= addr && addr <= 0xFF26 {
            let i: usize = (addr - 0xFF10) as usize;
            Ok(self.audio_register(i))
        } else if addr == 0xFF40 {
            Ok(self.lcdc())
        } else if addr == 0xFF42 {
            Ok(self.scy())
        } else if addr == 0xFF43 {
            Ok(self.scx())
        } else if addr == 0xFF44 {
            Ok(self.ly())
        } else if addr == 0xFF47 {
            Ok(self.bgp())
        } else if addr == 0xFF50 {
            // derived, not stored: whether the overlay is still mapped
            if self.mem.boot_rom_mapped {
                Ok(0x01)
            } else {
                Ok(0x00)
            }
        } else {
            Err(Fault::UnmappedRead { addr })
        }
    }

    fn set_mem(&mut self, addr: u16, value: u8) -> (r: Result<(), Fault>) {
        if 0x8000 <= addr && addr <= 0x9FFF {
            let i: usize = (addr - 0x8000) as usize;
            self.set_vram(i, value);
            Ok(())
        } else if 0xC000 <= addr && addr <= 0xDFFF {
            let i: usize = (addr - 0xC000) as usize;
            self.mem.wram[i] = value;
            Ok(())
        } else if 0xFF80 <= addr && addr <= 0xFFFE {
            let i: usize = (addr - 0xFF80) as usize;
            self.mem.stack_ram[i] = value;
            Ok(())
        } else if 0xFF10 <= addr && addr <= 0xFF26 {
            let i: usize = (addr - 0xFF10) as usize;
            self.set_audio_register(i, value);
            Ok(())
        } else if addr == 0xFF40 {
            self.set_lcdc(value);
            Ok(())
        } else if addr == 0xFF42 {
            self.set_scy(value);
            Ok(())
        } else if addr == 0xFF43 {
            self.set_scx(value);
            Ok(())
        } else if addr == 0xFF44 {
            self.set_ly(value);
            Ok(())
        } else if addr == 0xFF47 {
            self.set_bgp(value);
            Ok(())
        } else if addr == 0xFF50 {
            // the hardware register defines no write value but 1
            if value != 0x01 {
                Err(Fault::BootDisable { value })
            } else {
                self.mem.boot_rom_mapped = false;
                Ok(())
            }
        } else {
            Err(Fault::UnmappedWrite { addr, value })
        }
    }
}

/// The boot overlay image: the fixed 256 bytes that shadow the start of
/// the cartridge ROM until the overlay is unmapped.
pub open spec fn boot_image() -> Seq<u8> {
    seq![
        0x31u8, 0xFE, 0xFF, 0xAF, 0x21, 0xFF, 0x9F, 0x32, 0xCB, 0x7C, 0x20, 0xFB,
        0x21, 0x26, 0xFF, 0x0E, 0x11, 0x3E, 0x80, 0x32, 0xE2, 0x0C, 0x3E, 0xF3,
        0xE2, 0x32, 0x3E, 0x77, 0x77, 0x3E, 0xFC, 0xE0, 0x47, 0x11, 0x04, 0x01,
        0x21, 0x10, 0x80, 0x1A, 0xCD, 0x95, 0x00, 0xCD, 0x96, 0x00, 0x13, 0x7B,
        0xFE, 0x34, 0x20, 0xF3, 0x11, 0xD8, 0x00, 0x06, 0x08, 0x1A, 0x13, 0x22,
        0x23, 0x05, 0x20, 0xF9, 0x3E, 0x19, 0xEA, 0x10, 0x99, 0x21, 0x2F, 0x99,
        0x0E, 0x0C, 0x3D, 0x28, 0x08, 0x32, 0x0D, 0x20, 0xF9, 0x2E, 0x0F, 0x18,
        0xF3, 0x67, 0x3E, 0x64, 0x57, 0xE0, 0x42, 0x3E, 0x91, 0xE0, 0x40, 0x04,
        0x1E, 0x02, 0x0E, 0x0C, 0xF0, 0x44, 0xFE, 0x90, 0x20, 0xFA, 0x0D, 0x20,
        0xF7, 0x1D, 0x20, 0xF2, 0x0E, 0x13, 0x24, 0x7C, 0x1E, 0x83, 0xFE, 0x62,
        0x28, 0x06, 0x1E, 0xC1, 0xFE, 0x64, 0x20, 0x06, 0x7B, 0xE2, 0x0C, 0x3E,
        0x87, 0xE2, 0xF0, 0x42, 0x90, 0xE0, 0x42, 0x15, 0x20, 0xD2, 0x05, 0x20,
        0x4F, 0x16, 0x20, 0x18, 0xCB, 0x4F, 0x06, 0x04, 0xC5, 0xCB, 0x11, 0x17,
        0xC1, 0xCB, 0x11, 0x17, 0x05, 0x20, 0xF5, 0x22, 0x23, 0x22, 0x23, 0xC9,
        0xCE, 0xED, 0x66, 0x66, 0xCC, 0x0D, 0x00, 0x0B, 0x03, 0x73, 0x00, 0x83,
        0x00, 0x0C, 0x00, 0x0D, 0x00, 0x08, 0x11, 0x1F, 0x88, 0x89, 0x00, 0x0E,
        0xDC, 0xCC, 0x6E, 0xE6, 0xDD, 0xDD, 0xD9, 0x99, 0xBB, 0xBB, 0x67, 0x63,
        0x6E, 0x0E, 0xEC, 0xCC, 0xDD, 0xDC, 0x99, 0x9F, 0xBB, 0xB9, 0x33, 0x3E,
        0x3C, 0x42, 0xB9, 0xA5, 0xB9, 0xA5, 0x42, 0x3C, 0x21, 0x04, 0x01, 0x11,
        0xA8, 0x00, 0x1A, 0x13, 0xBE, 0x20, 0xFE, 0x23, 0x7D, 0xFE, 0x34, 0x20,
        0xF5, 0x06, 0x19, 0x78, 0x86, 0x23, 0x05, 0x20, 0xFB, 0x86, 0x20, 0xFE,
        0x3E, 0x01, 0xE0, 0x50,
    ]
}

/// The bundled cartridge ROM fragment the demo program runs: the first
/// 256 bytes of one well-known cartridge.
pub open spec fn game_image() -> Seq<u8> {
    seq![
        0xFFu8, 0x00, 0x00, 0x00, 0x00, 0x00, 0x00, 0x00, 0xFF, 0x00, 0x00, 0x00,
        0x00, 0x00, 0x00, 0x00, 0xFF, 0x00, 0x00, 0x00, 0x00, 0x00, 0x00, 0x00,
        0xFF, 0x00, 0x00, 0x00, 0x00, 0x00, 0x00, 0x00, 0xFF, 0x00, 0x00, 0x00,
        0x00, 0x00, 0x00, 0x00, 0xFF, 0x00, 0x00, 0x00, 0x00, 0x00, 0x00, 0x00,
        0xFF, 0x00, 0x00, 0x00, 0x00, 0x00, 0x00, 0x00, 0xFF, 0x00, 0x00, 0x00,
        0x00, 0x00, 0x00, 0x00, 0xC3, 0x24, 0x20, 0x00, 0x00, 0x00, 0x00, 0x00,
        0xFF, 0x00, 0x00, 0x00, 0x00, 0x00, 0x00, 0x00, 0xC3, 0x06, 0x23, 0x00,
        0x00, 0x00, 0x00, 0x00, 0xC3, 0x25, 0x21, 0x00, 0x00, 0x00, 0x00, 0x00,
        0xD9, 0xAF, 0xE0, 0x0F, 0xF0, 0xFF, 0x47, 0xCB, 0x87, 0xE0, 0xFF, 0xF0,
        0x44, 0xFE, 0x91, 0x20, 0xFA, 0xF0, 0x40, 0xE6, 0x7F, 0xE0, 0x40, 0x78,
        0xE0, 0xFF, 0xC9, 0xF0, 0x40, 0xCB, 0xFF, 0xE0, 0x40, 0xC9, 0xAF, 0x21,
        0x00, 0xC3, 0x06, 0xA0, 0x22, 0x05, 0x20, 0xFC, 0xC9, 0x3E, 0xA0, 0x21,
        0x00, 0xC3, 0x11, 0x04, 0x00, 0x06, 0x28, 0x77, 0x19, 0x05, 0x20, 0xFB,
        0xC9, 0xEA, 0xE9, 0xCE, 0xF0, 0xB8, 0xF5, 0xFA, 0xE9, 0xCE, 0xE0, 0xB8,
        0xEA, 0x00, 0x20, 0xCD, 0xB5, 0x00, 0xF1, 0xE0, 0xB8, 0xEA, 0x00, 0x20,
        0xC9, 0x2A, 0x12, 0x13, 0x0B, 0x79, 0xB0, 0x20, 0xF8, 0xC9, 0x00, 0x00,
        0x00, 0x00, 0x00, 0x00, 0x00, 0x00, 0x00, 0x00, 0x00, 0x00, 0x00, 0x00,
        0x00, 0x00, 0x00, 0x00, 0x00, 0x00, 0x00, 0x00, 0x00, 0x00, 0x00, 0x00,
        0x00, 0x00, 0x00, 0x00, 0x00, 0x00, 0x00, 0x00, 0x00, 0x00, 0x00, 0x00,
        0x00, 0x00, 0x00, 0x00, 0x00, 0x00, 0x00, 0x00, 0x00, 0x00, 0x00, 0x00,
        0x00, 0x00, 0x00, 0x00, 0x00, 0x00, 0x00, 0x00, 0x00, 0x00, 0x00, 0x00,
        0x00, 0x00, 0x00, 0x00,
    ]
}

/// Builds the boot overlay image.
pub fn load_boot_rom() -> (r: Vec<u8>)
    ensures
        r@ == boot_image(),
{
    let v: Vec<u8> = vec![
        0x31u8, 0xFE, 0xFF, 0xAF, 0x21, 0xFF, 0x9F, 0x32, 0xCB, 0x7C, 0x20, 0xFB,
        0x21, 0x26, 0xFF, 0x0E, 0x11, 0x3E, 0x80, 0x32, 0xE2, 0x0C, 0x3E, 0xF3,
        0xE2, 0x32, 0x3E, 0x77, 0x77, 0x3E, 0xFC, 0xE0, 0x47, 0x11, 0x04, 0x01,
        0x21, 0x10, 0x80, 0x1A, 0xCD, 0x95, 0x00, 0xCD, 0x96, 0x00, 0x13, 0x7B,
        0xFE, 0x34, 0x20, 0xF3, 0x11, 0xD8, 0x00, 0x06, 0x08, 0x1A, 0x13, 0x22,
        0x23, 0x05, 0x20, 0xF9, 0x3E, 0x19, 0xEA, 0x10, 0x99, 0x21, 0x2F, 0x99,
        0x0E, 0x0C, 0x3D, 0x28, 0x08, 0x32, 0x0D, 0x20, 0xF9, 0x2E, 0x0F, 0x18,
        0xF3, 0x67, 0x3E, 0x64, 0x57, 0xE0, 0x42, 0x3E, 0x91, 0xE0, 0x40, 0x04,
        0x1E, 0x02, 0x0E, 0x0C, 0xF0, 0x44, 0xFE, 0x90, 0x20, 0xFA, 0x0D, 0x20,
        0xF7, 0x1D, 0x20, 0xF2, 0x0E, 0x13, 0x24, 0x7C, 0x1E, 0x83, 0xFE, 0x62,
        0x28, 0x06, 0x1E, 0xC1, 0xFE, 0x64, 0x20, 0x06, 0x7B, 0xE2, 0x0C, 0x3E,
        0x87, 0xE2, 0xF0, 0x42, 0x90, 0xE0, 0x42, 0x15, 0x20, 0xD2, 0x05, 0x20,
        0x4F, 0x16, 0x20, 0x18, 0xCB, 0x4F, 0x06, 0x04, 0xC5, 0xCB, 0x11, 0x17,
        0xC1, 0xCB, 0x11, 0x17, 0x05, 0x20, 0xF5, 0x22, 0x23, 0x22, 0x23, 0xC9,
        0xCE, 0xED, 0x66, 0x66, 0xCC, 0x0D, 0x00, 0x0B, 0x03, 0x73, 0x00, 0x83,
        0x00, 0x0C, 0x00, 0x0D, 0x00, 0x08, 0x11, 0x1F, 0x88, 0x89, 0x00, 0x0E,
        0xDC, 0xCC, 0x6E, 0xE6, 0xDD, 0xDD, 0xD9, 0x99, 0xBB, 0xBB, 0x67, 0x63,
        0x6E, 0x0E, 0xEC, 0xCC, 0xDD, 0xDC, 0x99, 0x9F, 0xBB, 0xB9, 0x33, 0x3E,
        0x3C, 0x42, 0xB9, 0xA5, 0xB9, 0xA5, 0x42, 0x3C, 0x21, 0x04, 0x01, 0x11,
        0xA8, 0x00, 0x1A, 0x13, 0xBE, 0x20, 0xFE, 0x23, 0x7D, 0xFE, 0x34, 0x20,
        0xF5, 0x06, 0x19, 0x78, 0x86, 0x23, 0x05, 0x20, 0xFB, 0x86, 0x20, 0xFE,
        0x3E, 0x01, 0xE0, 0x50,
    ];
    proof {
        assert(v@ =~= boot_image());
    }
    v
}

/// Builds the cartridge ROM image for the named game, when it is one of
/// the bundled images; any other name yields nothing.
pub fn load_game_rom(name: &str) -> (r: Option<Vec<u8>>)
    ensures
        name@ == "Pokemon Red (US)[:256]"@ ==> (r matches Some(v) && v@ == game_image()),
        name@ != "Pokemon Red (US)[:256]"@ ==> r is None,
{
    let owned: String = name.to_owned();
    let key: String = String::from_str("Pokemon Red (US)[:256]");
    if owned == key {
        Some(game_rom_fragment())
    } else {
        None
    }
}

/// Builds the bundled cartridge ROM fragment.
fn game_rom_fragment() -> (r: Vec<u8>)
    ensures
        r@ == game_image(),
{
    let v: Vec<u8> = vec![
        0xFFu8, 0x00, 0x00, 0x00, 0x00, 0x00, 0x00, 0x00, 0xFF, 0x00, 0x00, 0x00,
        0x00, 0x00, 0x00, 0x00, 0xFF, 0x00, 0x00, 0x00, 0x00, 0x00, 0x00, 0x00,
        0xFF, 0x00, 0x00, 0x00, 0x00, 0x00, 0x00, 0x00, 0xFF, 0x00, 0x00, 0x00,
        0x00, 0x00, 0x00, 0x00, 0xFF, 0x00, 0x00, 0x00, 0x00, 0x00, 0x00, 0x00,
        0xFF, 0x00, 0x00, 0x00, 0x00, 0x00, 0x00, 0x00, 0xFF, 0x00, 0x00, 0x00,
        0x00, 0x00, 0x00, 0x00, 0xC3, 0x24, 0x20, 0x00, 0x00, 0x00, 0x00, 0x00,
        0xFF, 0x00, 0x00, 0x00, 0x00, 0x00, 0x00, 0x00, 0xC3, 0x06, 0x23, 0x00,
        0x00, 0x00, 0x00, 0x00, 0xC3, 0x25, 0x21, 0x00, 0x00, 0x00, 0x00, 0x00,
        0xD9, 0xAF, 0xE0, 0x0F, 0xF0, 0xFF, 0x47, 0xCB, 0x87, 0xE0, 0xFF, 0xF0,
        0x44, 0xFE, 0x91, 0x20, 0xFA, 0xF0, 0x40, 0xE6, 0x7F, 0xE0, 0x40, 0x78,
        0xE0, 0xFF, 0xC9, 0xF0, 0x40, 0xCB, 0xFF, 0xE0, 0x40, 0xC9, 0xAF, 0x21,
        0x00, 0xC3, 0x06, 0xA0, 0x22, 0x05, 0x20, 0xFC, 0xC9, 0x3E, 0xA0, 0x21,
        0x00, 0xC3, 0x11, 0x04, 0x00, 0x06, 0x28, 0x77, 0x19, 0x05, 0x20, 0xFB,
        0xC9, 0xEA, 0xE9, 0xCE, 0xF0, 0xB8, 0xF5, 0xFA, 0xE9, 0xCE, 0xE0, 0xB8,
        0xEA, 0x00, 0x20, 0xCD, 0xB5, 0x00, 0xF1, 0xE0, 0xB8, 0xEA, 0x00, 0x20,
        0xC9, 0x2A, 0x12, 0x13, 0x0B, 0x79, 0xB0, 0x20, 0xF8, 0xC9, 0x00, 0x00,
        0x00, 0x00, 0x00, 0x00, 0x00, 0x00, 0x00, 0x00, 0x00, 0x00, 0x00, 0x00,
        0x00, 0x00, 0x00, 0x00, 0x00, 0x00, 0x00, 0x00, 0x00, 0x00, 0x00, 0x00,
        0x00, 0x00, 0x00, 0x00, 0x00, 0x00, 0x00, 0x00, 0x00, 0x00, 0x00, 0x00,
        0x00, 0x00, 0x00, 0x00, 0x00, 0x00, 0x00, 0x00, 0x00, 0x00, 0x00, 0x00,
        0x00, 0x00, 0x00, 0x00, 0x00, 0x00, 0x00, 0x00, 0x00, 0x00, 0x00, 0x00,
        0x00, 0x00, 0x00, 0x00,
    ];
    proof {
        assert(v@ =~= game_image());
    }
    v
}

} // verus!
