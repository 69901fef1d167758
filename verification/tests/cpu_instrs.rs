//! Instruction-level tests: one small program each, run on the bare
//! memory configuration.

use gumball::cpu::{inc_8_8, Cpu};
use gumball::mmu::Mmu;

#[test]
fn test_inc_8_8() {
    assert_eq!((0x01, 0x00), inc_8_8(0x00, 0xFF));
}

#[test]
fn test_jr_nz_e8() {
    let mut mem = Mmu::init_with_vec(vec![0x20, 0x02, 0x00, 0x00, 0x01]);
    let mut state: Cpu = Default::default();

    state.flags.z = false;
    state.execute(&mut mem);
    assert_eq!(state.pc, 0x104);

    let mut state2: Cpu = Default::default();
    state2.execute(&mut mem);
    assert_eq!(state2.pc, 0x102);
}

#[test]
fn ld_d_b() {
    let mut mem = Mmu::init_with_vec(vec![0x50, 0x00]);
    let mut state: Cpu = Default::default();

    state.registers.b = 0xAB;
    state.execute(&mut mem);
    assert_eq!(state.registers.d, 0xAB);
}

#[test]
fn ld_hlmem_b() {
    let mut mem = Mmu::init_with_vec(vec![0x70, 0x00, 0x00, 0x00]);
    let mut state: Cpu = Default::default();

    state.registers.set_hl(0x0003);
    state.registers.b = 0xAB;
    state.execute(&mut mem);
    assert_eq!(mem.get(3), 0xAB);
}

#[test]
fn test_add_a_b() {
    let mut mem = Mmu::init_with_vec(vec![0x80, 0x00]);
    let mut state: Cpu = Default::default();

    state.registers.a = 5;
    state.registers.b = 4;
    state.execute(&mut mem);
    assert_eq!(state.registers.a, 9);
    assert!(!state.flags.z);
    assert!(!state.flags.n);
    assert!(!state.flags.c);

    let mut state2: Cpu = Default::default();
    state2.registers.a = 0xFF;
    state2.registers.b = 1;
    state2.execute(&mut mem);
    assert!(state2.flags.z);
    assert!(state2.flags.c);
}

#[test]
fn test_sub_a_b() {
    let mut mem = Mmu::init_with_vec(vec![0x90, 0x00]);
    let mut state: Cpu = Default::default();

    state.registers.a = 5;
    state.registers.b = 4;
    state.execute(&mut mem);
    assert_eq!(state.registers.a, 1);
    assert!(state.flags.n);
}

#[test]
fn test_and_a_b() {
    let mut mem = Mmu::init_with_vec(vec![0xA0, 0x00]);
    let mut state: Cpu = Default::default();

    state.registers.a = 0b00111100;
    state.registers.b = 0b00001100;
    state.execute(&mut mem);
    assert_eq!(state.registers.a, 0b00001100);
}

#[test]
fn test_or_a_b() {
    let mut mem = Mmu::init_with_vec(vec![0xB0, 0x00]);
    let mut state: Cpu = Default::default();

    state.registers.a = 0b00111100;
    state.registers.b = 0b00001100;
    state.execute(&mut mem);
    assert_eq!(state.registers.a, 0b00111100);
}

#[test]
fn test_ret_nz() {
    let mut mem = Mmu::init_with_vec(vec![0xC0, 0x00, 0x03]);
    let mut state: Cpu = Default::default();

    state.sp = 0x0102;
    state.flags.z = false;
    state.execute(&mut mem);
    assert_eq!(state.pc, 0x3);

    let mut state2: Cpu = Default::default();
    state2.sp = 0x0102;
    state2.execute(&mut mem);
    assert_eq!(state2.pc, 0x101);
}

#[test]
fn test_ldh_a8mem_a() {
    let mut mem = Mmu::init_with_vec(vec![0xE0, 0x0A]);
    let mut state: Cpu = Default::default();

    state.registers.a = 0xAB;
    state.execute(&mut mem);
    assert_eq!(mem.get(0xFF0A), 0xAB);
}

#[test]
fn test_ld_bc_n16() {
    let mut mem = Mmu::init_with_vec(vec![0x01, 0x12, 0x34]);
    let mut state: Cpu = Default::default();

    state.execute(&mut mem);
    assert_eq!(state.registers.b, 0x34);
    assert_eq!(state.registers.c, 0x12);
}

#[test]
fn test_pop_bc() {
    let mut mem = Mmu::init_with_vec(vec![0xC1, 0x00, 0x00, 0x0A]);
    let mut state: Cpu = Default::default();

    state.sp = 0x0102;
    state.execute(&mut mem);
    println!("{:?}", state);
    assert_eq!(state.registers.get_bc(), 0x0A00);
}

#[test]
fn test_ld_bcmem_a() {
    let mut mem = Mmu::init_with_vec(vec![0x02, 0x00, 0x00, 0x00]);
    let mut state: Cpu = Default::default();
    state.registers.set_bc(0x0003);
    state.registers.a = 0xAB;

    state.execute(&mut mem);
    assert_eq!(mem.get(3), 0xAB);
}

#[test]
fn test_hli_a() {
    let mut mem = Mmu::init_with_vec(vec![0x22, 0x00, 0x00, 0x00]);
    let mut state: Cpu = Default::default();
    state.registers.set_hl(0x0003);
    state.registers.a = 0xAB;

    state.execute(&mut mem);
    assert_eq!(mem.get(3), 0xAB);
    assert_eq!(state.registers.get_hl(), 0x0004);
}

#[test]
fn test_jp_nz() {
    let mut mem = Mmu::init_with_vec(vec![0xC2, 0x04, 0x00, 0x00, 0xAB]);
    let mut state: Cpu = Default::default();

    state.flags.z = false;
    state.execute(&mut mem);
    println!("{:?}", state);
    assert_eq!(state.pc, 4);
}

#[test]
fn test_ld_cmem_a() {
    let mut mem = Mmu::init_with_vec(vec![0xE2]);
    let mut state: Cpu = Default::default();

    state.registers.a = 0xAB;
    state.registers.c = 0xAB;
    state.execute(&mut mem);
    assert_eq!(mem.get(0xFFAB), 0xAB);
}

#[test]
fn inc_bc() {
    let mut mem = Mmu::init_with_vec(vec![0x03, 0x00]);
    let mut state: Cpu = Default::default();

    state.registers.set_bc(0x1000);
    state.execute(&mut mem);

    assert_eq!(state.registers.get_bc(), 0x1001);

    let mut state2: Cpu = Default::default();

    state2.registers.set_bc(0xFFFF);
    state2.execute(&mut mem);
    assert_eq!(state2.registers.get_bc(), 0);
}

#[test]
fn test_jp_imm16() {
    let mut mem = Mmu::init_with_vec(vec![0xC3, 0x34, 0x12]);
    let mut state: Cpu = Default::default();

    state.execute(&mut mem);
    assert_eq!(state.pc, 0x1234);
}

#[test]
fn test_inc_b() {
    let mut mem = Mmu::init_with_vec(vec![0x04, 0x00]);
    let mut state: Cpu = Default::default();

    state.registers.b = 0x0F;
    state.execute(&mut mem);
    assert_eq!(state.registers.b, 0x10);
    assert!(state.flags.h);

    let mut state2: Cpu = Default::default();
    state2.registers.b = 0xFF;
    state2.execute(&mut mem);
    assert_eq!(state2.registers.b, 0);
    assert!(state2.flags.z);
    assert!(!state2.flags.n);
}

#[test]
fn test_inc_hlmem_cycles() {
    // INC [HL] takes three machine cycles, twelve T-cycles.
    let mut mem = Mmu::init_with_vec(vec![0x34, 0x00, 0x00, 0x05]);
    let mut state: Cpu = Default::default();
    state.registers.set_hl(0x0103);
    let t = state.execute(&mut mem);
    assert_eq!(t, 12);
    assert_eq!(mem.get(0x0103), 6);
}

#[test]
fn test_dec_b_boundaries() {
    // DEC from 0x10 borrows across the nibble and sets H; DEC from 1
    // reaches zero and sets Z; N is set either way.
    let mut mem = Mmu::init_with_vec(vec![0x05, 0x00]);
    let mut state: Cpu = Default::default();
    state.registers.b = 0x10;
    state.execute(&mut mem);
    assert_eq!(state.registers.b, 0x0F);
    assert!(state.flags.h);
    assert!(state.flags.n);

    let mut state2: Cpu = Default::default();
    state2.registers.b = 0x01;
    state2.execute(&mut mem);
    assert_eq!(state2.registers.b, 0);
    assert!(state2.flags.z);
}

#[test]
fn test_daa_after_add() {
    // 0x19 + 0x28 = decimal 47: DAA turns the binary 0x41 into 0x47.
    let mut mem = Mmu::init_with_vec(vec![0x80, 0x27]);
    let mut state: Cpu = Default::default();
    state.registers.a = 0x19;
    state.registers.b = 0x28;
    state.execute(&mut mem);
    assert_eq!(state.registers.a, 0x41);
    state.execute(&mut mem);
    assert_eq!(state.registers.a, 0x47);
    assert!(!state.flags.c);
}

#[test]
fn test_daa_decimal_carry() {
    // 0x90 + 0x20 = decimal 110: DAA leaves 0x10 and sets the carry.
    let mut mem = Mmu::init_with_vec(vec![0x80, 0x27]);
    let mut state: Cpu = Default::default();
    state.registers.a = 0x90;
    state.registers.b = 0x20;
    state.execute(&mut mem);
    state.execute(&mut mem);
    assert_eq!(state.registers.a, 0x10);
    assert!(state.flags.c);
}

#[test]
fn test_add_sp_minus_one() {
    // ADD SP,-1 with SP=0xFFFE: both carries come from the low byte.
    let mut mem = Mmu::init_with_vec(vec![0xE8, 0xFF]);
    let mut state: Cpu = Default::default();
    state.execute(&mut mem);
    assert_eq!(state.sp, 0xFFFD);
    assert!(state.flags.c);
    assert!(state.flags.h);
    assert!(!state.flags.z);
    assert!(!state.flags.n);

    // SP=0xFF00: the low byte and nibble are zero, so neither flag sets.
    let mut state2: Cpu = Default::default();
    state2.sp = 0xFF00;
    state2.execute(&mut mem);
    assert_eq!(state2.sp, 0xFEFF);
    assert!(!state2.flags.c);
    assert!(!state2.flags.h);
}

#[test]
fn test_push_pop_roundtrip() {
    // PUSH BC / POP DE round-trips the pair through the stack.
    let mut mem = Mmu::init_with_vec(vec![0xC5, 0xD1]);
    let mut state: Cpu = Default::default();
    state.sp = 0xD000;
    state.registers.set_bc(0x1234);
    state.execute(&mut mem);
    state.execute(&mut mem);
    assert_eq!(state.registers.get_de(), 0x1234);
    assert_eq!(state.sp, 0xD000);
}

#[test]
fn test_push_pop_af_masks_low_nibble() {
    // PUSH AF writes only the flag nibble; POP AF restores the flags.
    let mut mem = Mmu::init_with_vec(vec![0xF5, 0xF1]);
    let mut state: Cpu = Default::default();
    state.sp = 0xD000;
    state.registers.a = 0x3C;
    state.flags.z = true;
    state.flags.n = false;
    state.flags.h = true;
    state.flags.c = false;
    state.execute(&mut mem);
    assert_eq!(mem.get(0xCFFE) & 0x0F, 0);
    state.flags.z = false;
    state.flags.h = false;
    state.execute(&mut mem);
    assert!(state.flags.z);
    assert!(state.flags.h);
    assert!(!state.flags.n);
    assert!(!state.flags.c);
    assert_eq!(state.registers.a, 0x3C);
}

#[test]
fn test_rlc_b_prefix() {
    // CB 00: RLC B wraps bit 7 into bit 0 and the carry.
    let mut mem = Mmu::init_with_vec(vec![0xCB, 0x00]);
    let mut state: Cpu = Default::default();
    state.registers.b = 0x80;
    let t = state.execute(&mut mem);
    assert_eq!(t, 8);
    assert_eq!(state.registers.b, 0x01);
    assert!(state.flags.c);
    assert!(!state.flags.z);
}

#[test]
fn test_halt_and_ei_delay() {
    // HALT latches; EI arms the delayed enable that commits one step on.
    let mut mem = Mmu::init_with_vec(vec![0x76, 0x00]);
    let mut state: Cpu = Default::default();
    state.execute(&mut mem);
    assert!(state.halted);
    assert_eq!(state.pc, 0x101);

    let mut mem2 = Mmu::init_with_vec(vec![0xFB, 0x00]);
    let mut state2: Cpu = Default::default();
    state2.execute(&mut mem2);
    assert!(!state2.ime);
    assert!(state2.ime_delay);
    state2.enable_ime_delayed();
    assert!(state2.ime);
    assert!(!state2.ime_delay);
}

#[test]
fn test_countdown_loop() {
    // LD B,3 / DEC B / JR NZ,-3: the loop runs the DEC three times and
    // falls through with B at zero; timing follows the cycle table.
    let mut mem = Mmu::init_with_vec(vec![0x06, 0x03, 0x05, 0x20, 0xFD]);
    let mut state: Cpu = Default::default();
    let mut t: u64 = 0;
    let mut steps = 0;
    while state.pc != 0x105 && steps < 100 {
        t += state.execute(&mut mem);
        steps += 1;
    }
    assert_eq!(state.registers.b, 0);
    assert!(state.flags.z);
    // LD (8) + 3 * DEC (4) + 2 taken JR (12) + 1 untaken JR (8).
    assert_eq!(t, 8 + 3 * 4 + 2 * 12 + 8);
    assert_eq!(state.clock_cycles as u64 * 4, t);
}
