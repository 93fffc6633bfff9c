use dmg_core::cpu::CPU;
use dmg_core::memory::MemoryController;
use dmg_core::exec::Execution;
use dmg_core::machine::{Fault, GameBoy};

/// Loads a program into work RAM and points the instruction pointer at it.
fn program(bytes: &[u8]) -> GameBoy {
    let mut gb = GameBoy::new(Vec::new());
    let mut addr: u16 = 0xC000;
    for &b in bytes {
        gb.set_mem(addr, b).unwrap();
        addr += 1;
    }
    gb.absolute_jump(0xC000);
    gb
}

fn run_one(gb: &mut GameBoy) -> Execution {
    gb.tick().unwrap()
}

#[test]
fn inc_a_from_fresh_state() {
    // fresh state, registers zeroed, cycle counter 0; one INC A
    let mut gb = program(&[0x3C]);
    assert_eq!(gb.a(), 0);
    let e = run_one(&mut gb);
    assert_eq!(gb.a(), 1);
    assert!(!gb.z_flag());
    assert!(!gb.n_flag());
    assert!(!gb.h_flag());
    assert_eq!(e.cycles, 4);
    assert_eq!(gb.pc(), 0); // the fetch path uses the instruction pointer
}

#[test]
fn inc_wraps_and_sets_zero() {
    let mut gb = program(&[0x3C]);
    gb.set_a(0xFF);
    run_one(&mut gb);
    assert_eq!(gb.a(), 0x00);
    assert!(gb.z_flag());
    assert!(!gb.n_flag());
    assert!(gb.h_flag());
}

#[test]
fn inc_half_carry_on_low_nibble() {
    let mut gb = program(&[0x04, 0x04]);
    gb.set_b(0x0F);
    run_one(&mut gb);
    assert_eq!(gb.b(), 0x10);
    assert!(gb.h_flag());
    assert!(!gb.z_flag());
    run_one(&mut gb);
    assert_eq!(gb.b(), 0x11);
    assert!(!gb.h_flag());
}

#[test]
fn inc_leaves_carry_untouched() {
    let mut gb = program(&[0x0C]);
    gb.set_c_flag(true);
    gb.set_c(0x41);
    run_one(&mut gb);
    assert_eq!(gb.c(), 0x42);
    assert!(gb.c_flag());
}

#[test]
fn inc_every_register() {
    let mut gb = program(&[0x3C, 0x04, 0x0C, 0x14, 0x1C, 0x24, 0x2C]);
    for _ in 0..7 {
        run_one(&mut gb);
    }
    assert_eq!(
        (gb.a(), gb.b(), gb.c(), gb.d(), gb.e(), gb.h(), gb.l()),
        (1, 1, 1, 1, 1, 1, 1)
    );
}

#[test]
fn bit_test_high_bit_of_h() {
    // extended bit-test, bit 7 of H, with H = 0
    let mut gb = program(&[0xCB, 0x7C]);
    let e = run_one(&mut gb);
    assert!(gb.z_flag());
    assert!(!gb.n_flag());
    assert!(gb.h_flag());
    assert_eq!(e.cycles, 8);
    // the pointer advanced by 2: both opcode bytes were consumed
    assert_eq!(gb.i(), 0xC002);
}

#[test]
fn bit_test_with_bit_set() {
    let mut gb = program(&[0xCB, 0x7C]);
    gb.set_h(0x80);
    gb.set_c_flag(true);
    run_one(&mut gb);
    assert!(!gb.z_flag());
    assert!(!gb.n_flag());
    assert!(gb.h_flag());
    assert!(gb.c_flag()); // carry untouched
}

#[test]
fn load_16_bit_immediate_into_hl() {
    // low byte first, assigned to the low-order register
    let mut gb = program(&[0x21, 0x34, 0x12]);
    let e = run_one(&mut gb);
    assert_eq!(gb.h(), 0x12);
    assert_eq!(gb.l(), 0x34);
    assert_eq!(gb.hl(), 0x1234);
    assert_eq!(gb.i(), 0xC003);
    assert_eq!(e.cycles, 12);
}

#[test]
fn load_16_bit_immediate_into_sp() {
    let mut gb = program(&[0x31, 0xFE, 0xFF]);
    let e = run_one(&mut gb);
    assert_eq!(gb.sp(), 0xFFFE);
    assert_eq!(e.cycles, 12);
}

#[test]
fn load_8_bit_immediates() {
    let mut gb = program(&[0x06, 0x11, 0x0E, 0x22, 0x16, 0x33, 0x1E, 0x44, 0x26, 0x55, 0x2E, 0x66]);
    let flags_before = gb.flags();
    for _ in 0..6 {
        let e = run_one(&mut gb);
        assert_eq!(e.cycles, 8);
    }
    assert_eq!(gb.b(), 0x11);
    assert_eq!(gb.c(), 0x22);
    assert_eq!(gb.d(), 0x33);
    assert_eq!(gb.e(), 0x44);
    assert_eq!(gb.h(), 0x55);
    assert_eq!(gb.l(), 0x66);
    assert_eq!(gb.flags(), flags_before); // no flags affected
}

#[test]
fn register_to_register_loads() {
    let mut gb = program(&[0x78, 0x41]);
    gb.set_b(0x7A);
    gb.set_c(0x5C);
    run_one(&mut gb); // LD A, B
    assert_eq!(gb.a(), 0x7A);
    run_one(&mut gb); // LD B, C
    assert_eq!(gb.b(), 0x5C);
}

#[test]
fn load_from_hl_address() {
    let mut gb = program(&[0x7E, 0x46]);
    gb.set_mem(0xC100, 0x99).unwrap();
    gb.set_hl(0xC100);
    let e = run_one(&mut gb); // LD A, (HL)
    assert_eq!(gb.a(), 0x99);
    assert_eq!(e.cycles, 8);
    run_one(&mut gb); // LD B, (HL)
    assert_eq!(gb.b(), 0x99);
}

#[test]
fn store_a_at_hl() {
    let mut gb = program(&[0x77]);
    gb.set_a(0x5A);
    gb.set_hl(0x9800);
    run_one(&mut gb);
    assert_eq!(gb.mem(0x9800), Ok(0x5A));
    assert_eq!(gb.hl(), 0x9800);
}

#[test]
fn store_a_at_hl_post_decrement() {
    let mut gb = program(&[0x32]);
    gb.set_a(0x77);
    gb.set_hl(0x9FFF);
    run_one(&mut gb);
    assert_eq!(gb.mem(0x9FFF), Ok(0x77));
    assert_eq!(gb.hl(), 0x9FFE);
}

#[test]
fn store_a_at_io_port_c() {
    let mut gb = program(&[0xE2]);
    gb.set_a(0x80);
    gb.set_c(0x11); // 0xFF00 + 0x11 lands in the audio window
    run_one(&mut gb);
    assert_eq!(gb.mem(0xFF11), Ok(0x80));
}

#[test]
fn xor_a_clears_accumulator() {
    let mut gb = program(&[0xAF]);
    gb.set_a(0x5F);
    gb.set_flags(0x30);
    let e = run_one(&mut gb);
    assert_eq!(gb.a(), 0x00);
    assert_eq!(e.cycles, 4);
    // faithful to the observed routine: the flags are left as they were
    assert_eq!(gb.flags(), 0x30);
}

#[test]
fn unconditional_relative_jump() {
    // pointer just past the offset byte is 0xC002; offset +3
    let mut gb = program(&[0x18, 0x03]);
    let e = run_one(&mut gb);
    assert_eq!(gb.i(), 0xC005);
    assert_eq!(e.cycles, 12);
}

#[test]
fn backward_relative_jump() {
    // offset -5 from 0xC002
    let mut gb = program(&[0x18, 0xFB]);
    run_one(&mut gb);
    assert_eq!(gb.i(), 0xBFFD);
}

#[test]
fn relative_jump_wraps_address_space() {
    let mut gb = GameBoy::new(Vec::new());
    gb.absolute_jump(0x0005);
    gb.relative_jump(-10);
    assert_eq!(gb.i(), 0xFFFB);
    gb.absolute_jump(0xFFF0);
    gb.relative_jump(0x20);
    assert_eq!(gb.i(), 0x0010);
}

#[test]
fn conditional_jump_not_taken_stays_put() {
    // JR NZ with Z set: pointer stays just past the offset byte
    let mut gb = program(&[0x20, 0x10]);
    gb.set_z_flag(true);
    let e = run_one(&mut gb);
    assert_eq!(gb.i(), 0xC002);
    assert_eq!(e.cycles, 8);
}

#[test]
fn conditional_jumps_by_flag() {
    // JR NZ taken when Z clear
    let mut gb = program(&[0x20, 0x02]);
    let e = run_one(&mut gb);
    assert_eq!(gb.i(), 0xC004);
    assert_eq!(e.cycles, 12);

    // JR Z taken when Z set
    let mut gb = program(&[0x28, 0x02]);
    gb.set_z_flag(true);
    run_one(&mut gb);
    assert_eq!(gb.i(), 0xC004);

    // JR NC not taken when C set
    let mut gb = program(&[0x30, 0x02]);
    gb.set_c_flag(true);
    run_one(&mut gb);
    assert_eq!(gb.i(), 0xC002);

    // JR C taken when C set
    let mut gb = program(&[0x38, 0x02]);
    gb.set_c_flag(true);
    run_one(&mut gb);
    assert_eq!(gb.i(), 0xC004);
}

#[test]
fn cycle_counter_accrues_declared_costs() {
    let mut gb = program(&[0x3C, 0x06, 0x01, 0x21, 0x00, 0xC1, 0x18, 0x00]);
    run_one(&mut gb); // INC A: 4
    run_one(&mut gb); // LD B, n: 8
    run_one(&mut gb); // LD HL, nn: 12
    run_one(&mut gb); // JR (taken): 12
    assert_eq!(gb.t(), 4 + 8 + 12 + 12);
}

#[test]
fn unknown_opcode_faults() {
    let mut gb = program(&[0xFD]);
    assert!(matches!(
        gb.tick(),
        Err(Fault::UnknownOpcode { opcode: 0xFD, addr: 0xC000 })
    ));
}

#[test]
fn unknown_extended_opcode_faults() {
    let mut gb = program(&[0xCB, 0x11]);
    assert!(matches!(
        gb.tick(),
        Err(Fault::UnknownExtendedOpcode { opcode: 0x11, addr: 0xC000 })
    ));
}

#[test]
fn fetch_from_unmapped_address_faults() {
    let mut gb = GameBoy::new(Vec::new());
    gb.absolute_jump(0xA123);
    assert!(matches!(gb.tick(), Err(Fault::UnmappedRead { addr: 0xA123 })));
}

#[test]
fn immediate_fetches_are_little_endian() {
    let mut gb = program(&[0x34, 0x12]);
    assert_eq!(gb.read_immediate_u16(), Ok(0x1234));
    let mut gb = program(&[0xFB]);
    assert_eq!(gb.read_immediate_i8(), Ok(-5));
}

#[test]
fn stack_push_addressing() {
    let mut gb = GameBoy::new(Vec::new());
    gb.set_sp(0xFFFE);
    gb.stack_push(0x1234).unwrap();
    // low byte at SP, high byte at SP-1, SP dropped by 2
    assert_eq!(gb.mem(0xFFFE), Ok(0x34));
    assert_eq!(gb.mem(0xFFFD), Ok(0x12));
    assert_eq!(gb.sp(), 0xFFFC);
}

#[test]
fn stack_pop_addressing() {
    let mut gb = GameBoy::new(Vec::new());
    gb.set_sp(0xFFFA);
    gb.set_mem(0xFFFA, 0xCD).unwrap();
    gb.set_mem(0xFFFB, 0xAB).unwrap();
    // low byte at SP, high byte at SP+1, SP raised by 2
    assert_eq!(gb.stack_pop(), Ok(0xABCD));
    assert_eq!(gb.sp(), 0xFFFC);
}

#[test]
fn push_then_pop_reads_the_observed_addresses() {
    // the observed addressing is asymmetric: push writes {SP, SP-1},
    // an immediate pop reads {SP-2, SP-1}; only the high byte meets
    let mut gb = GameBoy::new(Vec::new());
    gb.set_sp(0xFFFE);
    gb.stack_push(0x1234).unwrap();
    assert_eq!(gb.stack_pop(), Ok(0x1200));
    assert_eq!(gb.sp(), 0xFFFE);
}

#[test]
fn push_faults_on_unwritable_address() {
    let mut gb = GameBoy::new(Vec::new());
    gb.set_sp(0x0010); // ROM is read-only
    assert_eq!(
        gb.stack_push(0xBEEF),
        Err(Fault::UnmappedWrite { addr: 0x0010, value: 0xEF })
    );
}

#[test]
fn boot_sequence_first_steps() {
    // a fresh machine starts fetching the boot overlay at 0x0000:
    // LD SP, $fffe then XOR A then LD HL, $9fff
    let mut gb = GameBoy::new(dmg_core::memory::load_game_rom("Pokemon Red (US)[:256]").unwrap());
    run_one(&mut gb);
    assert_eq!(gb.sp(), 0xFFFE);
    gb.set_a(0x33);
    run_one(&mut gb);
    assert_eq!(gb.a(), 0x00);
    run_one(&mut gb);
    assert_eq!(gb.hl(), 0x9FFF);
    assert_eq!(gb.i(), 0x0007);
}
