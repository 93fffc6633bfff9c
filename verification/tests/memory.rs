use dmg_core::memory::MemoryController;
use dmg_core::machine::{Fault, GameBoy};
use dmg_core::memory::{load_boot_rom, load_game_rom};

fn with_demo_rom() -> GameBoy {
    GameBoy::new(load_game_rom("Pokemon Red (US)[:256]").unwrap())
}

#[test]
fn boot_rom_shape() {
    let boot = load_boot_rom();
    assert_eq!(boot.len(), 0x100);
    assert_eq!(boot[0x00], 0x31);
    assert_eq!(boot[0x10], 0x11);
    assert_eq!(boot[0xFF], 0x50);
}

#[test]
fn game_rom_shape() {
    let rom = load_game_rom("Pokemon Red (US)[:256]").unwrap();
    assert_eq!(rom.len(), 0x100);
    assert_eq!(rom[0x00], 0xFF);
    assert_eq!(rom[0x10], 0xFF);
    assert_eq!(rom[0x40], 0xC3);
}

#[test]
fn wram_roundtrip() {
    let mut gb = with_demo_rom();
    assert_eq!(gb.set_mem(0xC000, 0xAB), Ok(()));
    assert_eq!(gb.mem(0xC000), Ok(0xAB));
    assert_eq!(gb.set_mem(0xDFFF, 0x01), Ok(()));
    assert_eq!(gb.mem(0xDFFF), Ok(0x01));
    // a neighbouring cell is untouched
    assert_eq!(gb.mem(0xC001), Ok(0x00));
}

#[test]
fn high_ram_roundtrip() {
    let mut gb = with_demo_rom();
    assert_eq!(gb.set_mem(0xFF80, 0x42), Ok(()));
    assert_eq!(gb.mem(0xFF80), Ok(0x42));
    assert_eq!(gb.set_mem(0xFFFE, 0x99), Ok(()));
    assert_eq!(gb.mem(0xFFFE), Ok(0x99));
}

#[test]
fn vram_roundtrip() {
    let mut gb = with_demo_rom();
    assert_eq!(gb.set_mem(0x8000, 0x3C), Ok(()));
    assert_eq!(gb.mem(0x8000), Ok(0x3C));
    assert_eq!(gb.set_mem(0x9FFF, 0x7E), Ok(()));
    assert_eq!(gb.mem(0x9FFF), Ok(0x7E));
}

#[test]
fn audio_window_roundtrip() {
    let mut gb = with_demo_rom();
    assert_eq!(gb.set_mem(0xFF10, 0x80), Ok(()));
    assert_eq!(gb.mem(0xFF10), Ok(0x80));
    assert_eq!(gb.set_mem(0xFF26, 0xF3), Ok(()));
    assert_eq!(gb.mem(0xFF26), Ok(0xF3));
}

#[test]
fn lcd_registers_roundtrip() {
    let mut gb = with_demo_rom();
    for &(addr, value) in &[
        (0xFF40u16, 0x91u8),
        (0xFF42, 0x64),
        (0xFF43, 0x07),
        (0xFF44, 0x90),
        (0xFF47, 0xFC),
    ] {
        assert_eq!(gb.set_mem(addr, value), Ok(()));
        assert_eq!(gb.mem(addr), Ok(value));
    }
}

#[test]
fn boot_overlay_shadows_rom() {
    let mut gb = with_demo_rom();
    // while mapped, the overlay answers; the cartridge byte differs
    assert_eq!(gb.mem(0x0010), Ok(0x11));
    assert_eq!(gb.mem(0x0000), Ok(0x31));
    // the disable register reads 1 while mapped
    assert_eq!(gb.mem(0xFF50), Ok(0x01));
    // writing 1 unmaps the overlay, irreversibly
    assert_eq!(gb.set_mem(0xFF50, 0x01), Ok(()));
    assert_eq!(gb.mem(0xFF50), Ok(0x00));
    // the same addresses now fall through to the cartridge ROM
    assert_eq!(gb.mem(0x0010), Ok(0xFF));
    assert_eq!(gb.mem(0x0000), Ok(0xFF));
}

#[test]
fn boot_disable_rejects_other_values() {
    let mut gb = with_demo_rom();
    assert_eq!(gb.set_mem(0xFF50, 0x00), Err(Fault::BootDisable { value: 0x00 }));
    assert_eq!(gb.set_mem(0xFF50, 0x02), Err(Fault::BootDisable { value: 0x02 }));
    // the overlay is still mapped after the refused write
    assert_eq!(gb.mem(0xFF50), Ok(0x01));
    assert_eq!(gb.mem(0x0010), Ok(0x11));
}

#[test]
fn derived_register_ignores_written_value() {
    // the disable register is derived, not stored: after the write of 1
    // it reads 0, not the written byte
    let mut gb = with_demo_rom();
    assert_eq!(gb.set_mem(0xFF50, 0x01), Ok(()));
    assert_eq!(gb.mem(0xFF50), Ok(0x00));
}

#[test]
fn unmapped_addresses_fault() {
    let mut gb = with_demo_rom();
    assert_eq!(gb.mem(0xA000), Err(Fault::UnmappedRead { addr: 0xA000 }));
    assert_eq!(gb.mem(0xFFFF), Err(Fault::UnmappedRead { addr: 0xFFFF }));
    assert_eq!(gb.mem(0xFF41), Err(Fault::UnmappedRead { addr: 0xFF41 }));
    assert_eq!(
        gb.set_mem(0x0100, 0x00),
        Err(Fault::UnmappedWrite { addr: 0x0100, value: 0x00 })
    );
    assert_eq!(
        gb.set_mem(0xE000, 0x55),
        Err(Fault::UnmappedWrite { addr: 0xE000, value: 0x55 })
    );
}

#[test]
fn rom_reads_past_image_fault() {
    let mut gb = with_demo_rom();
    // the bundled image holds 256 bytes; past its end the range is
    // uncovered, though still below 0x8000
    assert_eq!(gb.mem(0x0100), Err(Fault::UnmappedRead { addr: 0x0100 }));
    // inside the image, reads answer once the overlay is gone
    assert_eq!(gb.set_mem(0xFF50, 0x01), Ok(()));
    assert_eq!(gb.mem(0x00FF), Ok(0x00));
}

#[test]
fn unknown_game_name_yields_nothing() {
    assert!(load_game_rom("Some Other Game").is_none());
}
