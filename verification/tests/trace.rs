use dmg_core::cpu::{Reg8, CPU};
use dmg_core::memory::MemoryController;
use dmg_core::machine::GameBoy;
use dmg_core::trace::{dec_padded, disassemble, hex_digit, pad_right, push_dec, push_hex2, push_hex4, push_hex_bytes, reg_name};

#[test]
fn hex_digits() {
    assert_eq!(hex_digit(0), "0");
    assert_eq!(hex_digit(9), "9");
    assert_eq!(hex_digit(10), "a");
    assert_eq!(hex_digit(15), "f");
}

#[test]
fn hex_rendering() {
    let mut s = String::new();
    push_hex2(&mut s, 0x0A);
    assert_eq!(s, "0a");
    let mut s = String::new();
    push_hex4(&mut s, 0xC000);
    assert_eq!(s, "c000");
    let mut s = String::new();
    push_hex_bytes(&mut s, &vec![0x21, 0x34, 0x12]);
    assert_eq!(s, "213412");
    let mut s = String::new();
    push_hex_bytes(&mut s, &Vec::new());
    assert_eq!(s, "");
}

#[test]
fn decimal_rendering() {
    let mut s = String::new();
    push_dec(&mut s, 0);
    assert_eq!(s, "0");
    let mut s = String::new();
    push_dec(&mut s, 1048576);
    assert_eq!(s, "1048576");
    let mut s = String::new();
    push_dec(&mut s, u64::MAX);
    assert_eq!(s, "18446744073709551615");
}

#[test]
fn padding() {
    let mut s = String::from("ab");
    pad_right(&mut s, 5);
    assert_eq!(s, "ab   ");
    let mut s = String::from("abcdef");
    pad_right(&mut s, 5);
    assert_eq!(s, "abcdef");
    assert_eq!(dec_padded(8, 6), "     8");
    assert_eq!(dec_padded(1234567, 6), "1234567");
}

#[test]
fn register_names() {
    assert_eq!(reg_name(Reg8::A), "A");
    assert_eq!(reg_name(Reg8::L), "L");
}

#[test]
fn disassembly_of_loads() {
    assert_eq!(disassemble(&vec![0x06, 0x0A]).unwrap(), "LD B, $0a");
    assert_eq!(disassemble(&vec![0x78]).unwrap(), "LD A, B");
    assert_eq!(disassemble(&vec![0x7E]).unwrap(), "LD A, (HL)");
    assert_eq!(disassemble(&vec![0x77]).unwrap(), "LD (HL), A");
    assert_eq!(disassemble(&vec![0x32]).unwrap(), "LD (HL-), A");
    assert_eq!(disassemble(&vec![0xE2]).unwrap(), "LD ($FF00+C), A");
    assert_eq!(disassemble(&vec![0x21, 0x34, 0x12]).unwrap(), "LD HL, $1234");
    assert_eq!(disassemble(&vec![0x31, 0xFE, 0xFF]).unwrap(), "LD SP, $fffe");
}

#[test]
fn disassembly_of_arithmetic_and_jumps() {
    assert_eq!(disassemble(&vec![0xAF]).unwrap(), "XOR A");
    assert_eq!(disassemble(&vec![0x3C]).unwrap(), "INC A");
    assert_eq!(disassemble(&vec![0x24]).unwrap(), "INC H");
    assert_eq!(disassemble(&vec![0x18, 0x03]).unwrap(), "JR 3");
    assert_eq!(disassemble(&vec![0x18, 0xFB]).unwrap(), "JR -5");
    assert_eq!(disassemble(&vec![0x20, 0x10]).unwrap(), "JR NZ, 16");
    assert_eq!(disassemble(&vec![0x38, 0x80]).unwrap(), "JR C, -128");
    assert_eq!(disassemble(&vec![0xCB, 0x7C]).unwrap(), "BIT 7, H");
}

#[test]
fn disassembly_of_unknown_bytes() {
    assert!(disassemble(&Vec::new()).is_none());
    assert!(disassemble(&vec![0xFD]).is_none());
    assert!(disassemble(&vec![0xCB, 0x11]).is_none());
    // cut short: operand bytes missing
    assert!(disassemble(&vec![0x06]).is_none());
    assert!(disassemble(&vec![0x21, 0x34]).is_none());
}

#[test]
fn execution_carries_disassembly_and_summary() {
    let mut gb = GameBoy::new(Vec::new());
    gb.set_mem(0xC000, 0x21).unwrap();
    gb.set_mem(0xC001, 0x34).unwrap();
    gb.set_mem(0xC002, 0x12).unwrap();
    gb.absolute_jump(0xC000);
    let e = gb.tick().unwrap();
    assert_eq!(e.disasm.unwrap(), "LD HL, $1234");
    assert_eq!(
        e.trace.unwrap(),
        "AF = $0000, BC = $0000, DE = $0000, HL = $1234, SP = $0000"
    );
}

#[test]
fn log_line_layout() {
    let mut gb = GameBoy::new(Vec::new());
    gb.set_mem(0xC000, 0x06).unwrap();
    gb.set_mem(0xC001, 0x0A).unwrap();
    gb.absolute_jump(0xC000);
    let e = gb.tick().unwrap();
    let line = gb.render_log(&e.disasm, &None);
    assert_eq!(
        line,
        format!("{:32} ; ${} ; {:>6} ; ${:8}", "LD B, $0a", "c000", 8, "060a")
    );
    let line = gb.render_log(&None, &Some(String::from("Z = false")));
    assert_eq!(
        line,
        format!("{:32} ; ${} ; {:>6} ; ${:8} ; {}", "", "c000", 8, "060a", "Z = false")
    );
}
