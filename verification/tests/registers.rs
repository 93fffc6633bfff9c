use dmg_core::cpu::CPU;
use dmg_core::machine::{CPUData, GameBoy, MemoryData};

fn fresh() -> GameBoy {
    GameBoy::new(Vec::new())
}

#[test]
fn byte_registers() {
    let mut gb = fresh();
    gb.set_a(0x11);
    gb.set_b(0x22);
    gb.set_c(0x33);
    gb.set_d(0x44);
    gb.set_e(0x55);
    gb.set_h(0x66);
    gb.set_l(0x77);
    gb.set_flags(0xF0);
    assert_eq!(gb.a(), 0x11);
    assert_eq!(gb.b(), 0x22);
    assert_eq!(gb.c(), 0x33);
    assert_eq!(gb.d(), 0x44);
    assert_eq!(gb.e(), 0x55);
    assert_eq!(gb.h(), 0x66);
    assert_eq!(gb.l(), 0x77);
    assert_eq!(gb.flags(), 0xF0);
}

#[test]
fn pair_roundtrip_hl() {
    let mut gb = fresh();
    gb.set_hl(0x1234);
    assert_eq!(gb.hl(), 0x1234);
    assert_eq!(gb.h(), 0x12);
    assert_eq!(gb.l(), 0x34);
}

#[test]
fn pair_roundtrip_bc_de_af() {
    let mut gb = fresh();
    gb.set_bc(0xBEEF);
    gb.set_de(0xCAFE);
    gb.set_af(0x1357);
    assert_eq!(gb.bc(), 0xBEEF);
    assert_eq!(gb.de(), 0xCAFE);
    assert_eq!(gb.af(), 0x1357);
    assert_eq!(gb.b(), 0xBE);
    assert_eq!(gb.c(), 0xEF);
    assert_eq!(gb.d(), 0xCA);
    assert_eq!(gb.e(), 0xFE);
    assert_eq!(gb.a(), 0x13);
    assert_eq!(gb.flags(), 0x57);
}

#[test]
fn pair_from_parts() {
    let mut gb = fresh();
    gb.set_h(0x12);
    gb.set_l(0x34);
    assert_eq!(gb.hl(), (0x12u16 << 8) | 0x34);
    gb.set_h_l(0xAB, 0xCD);
    assert_eq!(gb.hl(), 0xABCD);
}

#[test]
fn pointer_registers() {
    let mut gb = fresh();
    gb.set_sp(0xFFFE);
    assert_eq!(gb.sp(), 0xFFFE);
    gb.set_s_p(0xFE, 0xFF);
    assert_eq!(gb.sp(), 0xFFFE);
    gb.set_pc(0x0150);
    assert_eq!(gb.pc(), 0x0150);
    gb.set_p_c(0x50, 0x01);
    assert_eq!(gb.pc(), 0x0150);
}

#[test]
fn flag_bits() {
    let mut gb = fresh();
    gb.set_z_flag(true);
    assert_eq!(gb.flags(), 0x80);
    gb.set_n_flag(true);
    assert_eq!(gb.flags(), 0xC0);
    gb.set_h_flag(true);
    assert_eq!(gb.flags(), 0xE0);
    gb.set_c_flag(true);
    assert_eq!(gb.flags(), 0xF0);
    assert!(gb.z_flag() && gb.n_flag() && gb.h_flag() && gb.c_flag());
}

#[test]
fn flag_setting_is_isolated() {
    let mut gb = fresh();
    gb.set_flags(0xF0);
    gb.set_z_flag(false);
    assert_eq!(gb.flags(), 0x70);
    assert!(!gb.z_flag());
    assert!(gb.n_flag() && gb.h_flag() && gb.c_flag());
    gb.set_h_flag(false);
    assert_eq!(gb.flags(), 0x50);
    assert!(gb.n_flag() && gb.c_flag());
    // the low nibble is never perturbed either
    gb.set_flags(0x0F);
    gb.set_c_flag(true);
    assert_eq!(gb.flags(), 0x1F);
}

#[test]
fn fresh_state_is_zeroed() {
    let gb = fresh();
    assert_eq!(gb.a(), 0);
    assert_eq!(gb.flags(), 0);
    assert_eq!(gb.b(), 0);
    assert_eq!(gb.c(), 0);
    assert_eq!(gb.d(), 0);
    assert_eq!(gb.e(), 0);
    assert_eq!(gb.h(), 0);
    assert_eq!(gb.l(), 0);
    assert_eq!(gb.sp(), 0);
    assert_eq!(gb.pc(), 0);
}

#[test]
fn data_constructors() {
    let cpu = CPUData::new();
    assert_eq!(cpu.t, 0);
    assert_eq!(cpu.i, 0);
    assert_eq!((cpu.a, cpu.f, cpu.b, cpu.c, cpu.d, cpu.e, cpu.h, cpu.l), (0, 0, 0, 0, 0, 0, 0, 0));
    assert_eq!(cpu.sp, 0);
    assert_eq!(cpu.pc, 0);
    assert!(cpu.debug_current_code.is_empty());

    let mem = MemoryData::new(vec![1, 2, 3]);
    assert!(mem.boot_rom_mapped);
    assert_eq!(mem.game_rom, vec![1, 2, 3]);
    assert_eq!(mem.wram.len(), 0x2000);
    assert_eq!(mem.stack_ram.len(), 0x80);
    assert_eq!(mem.boot_rom.len(), 0x100);
}
