use emu8080::decode::decode;
use emu8080::emulator::{Emulator8080, RegPair};

fn bc(emu: &Emulator8080) -> u16 {
    (emu.rb as u16) << 8 | emu.rc as u16
}

fn hl(emu: &Emulator8080) -> u16 {
    (emu.rh as u16) << 8 | emu.rl as u16
}

#[test]
fn dad_carry_on_sixteen_bit_overflow() {
    let mut emu = Emulator8080::empty();
    emu.rh = 0xff;
    emu.rl = 0xff;
    emu.rb = 0x00;
    emu.rc = 0x01;
    emu.dad(RegPair::BC);
    assert_eq!(hl(&emu), 0x0000);
    assert!(emu.flags.cy);

    let mut emu = Emulator8080::empty();
    emu.rh = 0x12;
    emu.rl = 0x34;
    emu.rb = 0x00;
    emu.rc = 0x01;
    emu.flags.cy = true;
    emu.dad(RegPair::BC);
    assert_eq!(hl(&emu), 0x1235);
    assert!(!emu.flags.cy, "DAD must clear CY when the sum fits");
}

#[test]
fn dad_touches_no_other_flag() {
    let mut emu = Emulator8080::empty();
    emu.flags.z = true;
    emu.flags.s = true;
    emu.flags.p = true;
    emu.flags.ac = true;
    emu.rh = 0xff;
    emu.rl = 0xff;
    emu.rb = 0x00;
    emu.rc = 0x01;
    emu.dad(RegPair::BC);
    assert!(emu.flags.z && emu.flags.s && emu.flags.p && emu.flags.ac);
}

#[test]
fn inx_dcx_wrap_and_leave_flags_alone() {
    let mut emu = Emulator8080::empty();
    emu.flags.z = true;
    emu.flags.s = true;
    emu.flags.p = true;
    emu.flags.ac = true;
    emu.flags.cy = true;

    emu.rb = 0xff;
    emu.rc = 0xff;
    emu.inc_or_dec_reg_pair(RegPair::BC, true);
    assert_eq!(bc(&emu), 0x0000);

    emu.inc_or_dec_reg_pair(RegPair::BC, false);
    assert_eq!(bc(&emu), 0xffff);

    emu.sp = 0x0000;
    emu.inc_or_dec_reg_pair(RegPair::SP, false);
    assert_eq!(emu.sp, 0xffff);
    emu.inc_or_dec_reg_pair(RegPair::SP, true);
    assert_eq!(emu.sp, 0x0000);

    assert!(emu.flags.z && emu.flags.s && emu.flags.p && emu.flags.ac && emu.flags.cy);
}

#[test]
fn decode_execute_length_agreement_for_every_opcode() {
    for op in 0..=255u8 {
        let mut emu = Emulator8080::empty();
        emu.sp = 0x8000;
        emu.memory[0] = op;
        let len = emu.emulate_instruction();
        assert_eq!(len, decode(op).length, "opcode {op:#04x}");
    }
}

#[test]
fn mvi_add_program_end_to_end() {
    // MVI B, 5; MVI A, 3; ADD B
    let image = vec![0x06u8, 0x05, 0x3e, 0x03, 0x80];
    let mut emu = Emulator8080::empty();
    assert!(emu.load(&image));
    emu.run(image.len() as u16, 1000);
    assert_eq!(emu.ra, 8);
    assert_eq!(emu.rb, 5);
    assert_eq!(emu.pc, 5);
    assert!(!emu.flags.z);
    assert!(!emu.flags.cy);
    assert!(!emu.flags.ac);
}

#[test]
fn inr_wrap_program_end_to_end() {
    // MVI A, 0xff; INR A
    let image = vec![0x3eu8, 0xff, 0x3c];
    let mut emu = Emulator8080::empty();
    assert!(emu.load(&image));
    emu.run(image.len() as u16, 1000);
    assert_eq!(emu.ra, 0x00);
    assert!(emu.flags.z);
    assert!(!emu.flags.s);
    assert!(emu.flags.p, "0x00 has even parity");
}

#[test]
fn unknown_opcode_is_a_one_byte_no_op() {
    let image = vec![0xcbu8];
    let mut emu = Emulator8080::empty();
    assert!(emu.load(&image));
    let len = emu.emulate_instruction();
    assert_eq!(len, 1);
    assert_eq!(emu.pc, 1);
    assert_eq!(emu.sp, 0);
    assert_eq!((emu.ra, emu.rb, emu.rc, emu.rd, emu.re, emu.rh, emu.rl), (0, 0, 0, 0, 0, 0, 0));
    assert!(!emu.flags.z && !emu.flags.s && !emu.flags.p && !emu.flags.ac && !emu.flags.cy);
    assert!(!emu.halted);
    assert!(emu.memory.iter().all(|&b| b == 0xcb || b == 0) && emu.memory[0] == 0xcb);
}

#[test]
fn push_pop_restores_pair_and_stack_pointer() {
    // PUSH B; POP B
    let image = vec![0xc5u8, 0xc1];
    let mut emu = Emulator8080::empty();
    assert!(emu.load(&image));
    emu.sp = 0x9000;
    emu.rb = 0xab;
    emu.rc = 0xcd;
    let len = emu.emulate_instruction();
    assert_eq!(len, 1);
    assert_eq!(emu.sp, 0x8ffe);
    assert_eq!(emu.memory[0x8fff], 0xab, "high byte at sp - 1");
    assert_eq!(emu.memory[0x8ffe], 0xcd, "low byte at sp - 2");
    emu.emulate_instruction();
    assert_eq!(emu.sp, 0x9000);
    assert_eq!(emu.rb, 0xab);
    assert_eq!(emu.rc, 0xcd);
}

#[test]
fn push_b_pop_d_moves_the_pair() {
    // PUSH B; POP D
    let image = vec![0xc5u8, 0xd1];
    let mut emu = Emulator8080::empty();
    assert!(emu.load(&image));
    emu.sp = 0x9000;
    emu.rb = 0x12;
    emu.rc = 0x34;
    emu.run(2, 10);
    assert_eq!(emu.rd, 0x12);
    assert_eq!(emu.re, 0x34);
    assert_eq!(emu.sp, 0x9000);
}

#[test]
fn push_pop_psw_restores_accumulator_and_flags() {
    // PUSH PSW; POP PSW
    let image = vec![0xf5u8, 0xf1];
    let mut emu = Emulator8080::empty();
    assert!(emu.load(&image));
    emu.sp = 0x9000;
    emu.ra = 0x5a;
    emu.flags.z = true;
    emu.flags.s = false;
    emu.flags.p = true;
    emu.flags.ac = false;
    emu.flags.cy = true;
    emu.emulate_instruction();
    // Clobber everything the pop must restore.
    emu.ra = 0;
    emu.flags.z = false;
    emu.flags.p = false;
    emu.flags.cy = false;
    emu.flags.s = true;
    emu.flags.ac = true;
    emu.emulate_instruction();
    assert_eq!(emu.ra, 0x5a);
    assert!(emu.flags.z && emu.flags.p && emu.flags.cy);
    assert!(!emu.flags.s && !emu.flags.ac);
    assert_eq!(emu.sp, 0x9000);
}

#[test]
fn call_and_ret_round_trip() {
    // 0x0000 CALL 0x0010 ... 0x0010 RET
    let mut image = vec![0u8; 0x11];
    image[0] = 0xcd;
    image[1] = 0x10;
    image[2] = 0x00;
    image[0x10] = 0xc9;
    let mut emu = Emulator8080::empty();
    assert!(emu.load(&image));
    emu.sp = 0x9000;
    let len = emu.emulate_instruction();
    assert_eq!(len, 3);
    assert_eq!(emu.pc, 0x0010);
    assert_eq!(emu.sp, 0x8ffe);
    // The pushed return address is the byte after the CALL.
    assert_eq!(emu.memory[0x8ffe], 0x03);
    assert_eq!(emu.memory[0x8fff], 0x00);
    emu.emulate_instruction();
    assert_eq!(emu.pc, 0x0003);
    assert_eq!(emu.sp, 0x9000);
}

#[test]
fn conditional_jump_taken_and_not_taken() {
    // JNZ 0x1234 with Z clear: taken.
    let image = vec![0xc2u8, 0x34, 0x12];
    let mut emu = Emulator8080::empty();
    assert!(emu.load(&image));
    let len = emu.emulate_instruction();
    assert_eq!(len, 3);
    assert_eq!(emu.pc, 0x1234);

    // JNZ with Z set: falls through by its full length.
    let mut emu = Emulator8080::empty();
    assert!(emu.load(&image));
    emu.flags.z = true;
    emu.emulate_instruction();
    assert_eq!(emu.pc, 3);
}

#[test]
fn hlt_sets_the_halt_latch_and_stops_the_run() {
    // MVI A, 1; HLT; INR A (must not run)
    let image = vec![0x3eu8, 0x01, 0x76, 0x3c];
    let mut emu = Emulator8080::empty();
    assert!(emu.load(&image));
    let steps = emu.run(image.len() as u16, 1000);
    assert_eq!(steps, 2);
    assert!(emu.halted);
    assert_eq!(emu.ra, 1);
    assert_eq!(emu.pc, 3);
}

#[test]
fn ei_di_toggle_the_interrupt_latch() {
    let image = vec![0xf3u8, 0xfb];
    let mut emu = Emulator8080::empty();
    assert!(emu.load(&image));
    assert!(emu.enable);
    emu.emulate_instruction();
    assert!(!emu.enable);
    emu.emulate_instruction();
    assert!(emu.enable);
}

#[test]
fn memory_operand_instructions_use_hl() {
    // MVI M, 0x42 with HL = 0x2000, then INR M, then ADD M.
    let image = vec![0x36u8, 0x42, 0x34, 0x86];
    let mut emu = Emulator8080::empty();
    assert!(emu.load(&image));
    emu.rh = 0x20;
    emu.rl = 0x00;
    emu.emulate_instruction();
    assert_eq!(emu.memory[0x2000], 0x42);
    emu.emulate_instruction();
    assert_eq!(emu.memory[0x2000], 0x43);
    emu.emulate_instruction();
    assert_eq!(emu.ra, 0x43);
}

#[test]
fn mov_block_copies_registers_and_memory() {
    // MOV B, A; MOV M, B; MOV C, M
    let image = vec![0x47u8, 0x70, 0x4e];
    let mut emu = Emulator8080::empty();
    assert!(emu.load(&image));
    emu.ra = 0x99;
    emu.rh = 0x30;
    emu.rl = 0x01;
    emu.run(3, 10);
    assert_eq!(emu.rb, 0x99);
    assert_eq!(emu.memory[0x3001], 0x99);
    assert_eq!(emu.rc, 0x99);
}

#[test]
fn logical_group_clears_carry() {
    // ANI 0x0f with CY set beforehand.
    let image = vec![0xe6u8, 0x0f];
    let mut emu = Emulator8080::empty();
    assert!(emu.load(&image));
    emu.ra = 0x3a;
    emu.flags.cy = true;
    emu.emulate_instruction();
    assert_eq!(emu.ra, 0x0a);
    assert!(!emu.flags.cy);
    assert!(!emu.flags.ac);
}

#[test]
fn cmp_discards_the_difference() {
    let mut emu = Emulator8080::empty();
    emu.ra = 0x05;
    emu.cmp_a(0x06);
    assert_eq!(emu.ra, 0x05);
    assert!(emu.flags.cy);
    assert!(!emu.flags.z);

    emu.cmp_a(0x05);
    assert!(emu.flags.z);
    assert!(!emu.flags.cy);
}

#[test]
fn rotates_move_only_the_carry() {
    let mut emu = Emulator8080::empty();
    emu.ra = 0x81;
    emu.flags.z = true;
    emu.rlc();
    assert_eq!(emu.ra, 0x03);
    assert!(emu.flags.cy);
    assert!(emu.flags.z, "rotates must not touch Z");

    let mut emu = Emulator8080::empty();
    emu.ra = 0x01;
    emu.rrc();
    assert_eq!(emu.ra, 0x80);
    assert!(emu.flags.cy);

    let mut emu = Emulator8080::empty();
    emu.ra = 0x80;
    emu.flags.cy = true;
    emu.ral();
    assert_eq!(emu.ra, 0x01);
    assert!(emu.flags.cy);

    let mut emu = Emulator8080::empty();
    emu.ra = 0x01;
    emu.flags.cy = true;
    emu.rar();
    assert_eq!(emu.ra, 0x80);
    assert!(emu.flags.cy);
}

#[test]
fn xchg_swaps_hl_and_de() {
    let image = vec![0xebu8];
    let mut emu = Emulator8080::empty();
    assert!(emu.load(&image));
    emu.rh = 0x11;
    emu.rl = 0x22;
    emu.rd = 0x33;
    emu.re = 0x44;
    emu.emulate_instruction();
    assert_eq!((emu.rh, emu.rl, emu.rd, emu.re), (0x33, 0x44, 0x11, 0x22));
}

#[test]
fn xthl_swaps_hl_with_top_of_stack() {
    let image = vec![0xe3u8];
    let mut emu = Emulator8080::empty();
    assert!(emu.load(&image));
    emu.sp = 0x9000;
    emu.memory[0x9000] = 0xcd;
    emu.memory[0x9001] = 0xab;
    emu.rh = 0x12;
    emu.rl = 0x34;
    emu.emulate_instruction();
    assert_eq!((emu.rh, emu.rl), (0xab, 0xcd));
    assert_eq!(emu.memory[0x9000], 0x34);
    assert_eq!(emu.memory[0x9001], 0x12);
    assert_eq!(emu.sp, 0x9000);
}

#[test]
fn lxi_sta_lda_use_little_endian_words() {
    // LXI H, 0x2010; SHLD 0x0030; LHLD 0x0030 after clobbering HL.
    let image = vec![0x21u8, 0x10, 0x20, 0x22, 0x30, 0x00, 0x26, 0x00, 0x2e, 0x00, 0x2a, 0x30, 0x00];
    let mut emu = Emulator8080::empty();
    assert!(emu.load(&image));
    emu.run(image.len() as u16, 100);
    assert_eq!(emu.memory[0x0030], 0x10, "SHLD stores L at the address");
    assert_eq!(emu.memory[0x0031], 0x20, "SHLD stores H one above");
    assert_eq!((emu.rh, emu.rl), (0x20, 0x10), "LHLD reads them back");
}

#[test]
fn stax_ldax_use_the_named_pair() {
    // STAX B with BC = 0x4000, then LDAX B into a cleared accumulator.
    let image = vec![0x02u8, 0xaf, 0x0a];
    let mut emu = Emulator8080::empty();
    assert!(emu.load(&image));
    emu.ra = 0x77;
    emu.rb = 0x40;
    emu.rc = 0x00;
    emu.run(3, 10);
    assert_eq!(emu.memory[0x4000], 0x77);
    assert_eq!(emu.ra, 0x77, "XRA A cleared it, LDAX B restored it");
}

#[test]
fn rst_pushes_and_jumps_to_the_vector() {
    let image = vec![0xd7u8]; // RST 2
    let mut emu = Emulator8080::empty();
    assert!(emu.load(&image));
    emu.sp = 0x9000;
    emu.emulate_instruction();
    assert_eq!(emu.pc, 0x0010);
    assert_eq!(emu.sp, 0x8ffe);
    assert_eq!(emu.memory[0x8ffe], 0x01, "return address is the next byte");
}

#[test]
fn sphl_and_pchl_copy_hl() {
    let image = vec![0xf9u8, 0xe9];
    let mut emu = Emulator8080::empty();
    assert!(emu.load(&image));
    emu.rh = 0x12;
    emu.rl = 0x34;
    emu.emulate_instruction();
    assert_eq!(emu.sp, 0x1234);
    assert_eq!(emu.pc, 1);
    emu.emulate_instruction();
    assert_eq!(emu.pc, 0x1234);
}

#[test]
fn load_rejects_an_oversized_image() {
    let image = vec![0u8; 65537];
    let mut emu = Emulator8080::empty();
    assert!(!emu.load(&image));
    let exact = vec![0x76u8; 65536];
    assert!(emu.load(&exact));
    assert_eq!(emu.memory[65535], 0x76);
}

#[test]
fn push_psw_writes_the_documented_flag_byte() {
    // S=0 Z=1 AC=0 P=1 bit1=1 CY=1 -> 0b0100_0111.
    let image = vec![0xf5u8];
    let mut emu = Emulator8080::empty();
    assert!(emu.load(&image));
    emu.sp = 0x9000;
    emu.ra = 0x5a;
    emu.flags.z = true;
    emu.flags.p = true;
    emu.flags.cy = true;
    emu.emulate_instruction();
    assert_eq!(emu.memory[0x8fff], 0x5a, "A above the flag byte");
    assert_eq!(emu.memory[0x8ffe], 0x47);
}

#[test]
fn immediate_alu_forms() {
    // ADI 0x10; ACI 0x01 (CY clear); SUI 0x05; SBI 0x01 (CY clear); ANI 0x0f; XRI 0xff; ORI 0x80; CPI 0x7a
    let image = vec![
        0xc6u8, 0x10, 0xce, 0x01, 0xd6, 0x05, 0xde, 0x01, 0xe6, 0x0f, 0xee, 0xff, 0xf6, 0x80,
        0xfe, 0x7a,
    ];
    let mut emu = Emulator8080::empty();
    assert!(emu.load(&image));
    emu.ra = 0x00;
    emu.run(image.len() as u16, 100);
    // 0x00 + 0x10 = 0x10; + 0x01 = 0x11; - 0x05 = 0x0c; - 0x01 = 0x0b;
    // & 0x0f = 0x0b; ^ 0xff = 0xf4; | 0x80 = 0xf4; CPI leaves A.
    assert_eq!(emu.ra, 0xf4);
    assert!(!emu.flags.cy, "CPI 0x7a against 0xf4 borrows nothing");
}

#[test]
fn conditional_call_and_return() {
    // CNZ 0x0010 with Z set falls through; then CNZ with Z clear calls; RZ at the
    // target with Z clear falls through; RNZ returns.
    let mut image = vec![0u8; 0x12];
    image[0] = 0xc4; // CNZ 0x0010
    image[1] = 0x10;
    image[2] = 0x00;
    image[3] = 0xc4; // CNZ 0x0010
    image[4] = 0x10;
    image[5] = 0x00;
    image[0x10] = 0xc8; // RZ
    image[0x11] = 0xc0; // RNZ
    let mut emu = Emulator8080::empty();
    assert!(emu.load(&image));
    emu.sp = 0x9000;
    emu.flags.z = true;
    emu.emulate_instruction();
    assert_eq!(emu.pc, 3, "conditional call not taken still consumes 3 bytes");
    assert_eq!(emu.sp, 0x9000);
    emu.flags.z = false;
    emu.emulate_instruction();
    assert_eq!(emu.pc, 0x0010);
    assert_eq!(emu.sp, 0x8ffe);
    emu.emulate_instruction(); // RZ, Z clear: falls through
    assert_eq!(emu.pc, 0x0011);
    assert_eq!(emu.sp, 0x8ffe);
    emu.emulate_instruction(); // RNZ: returns to 0x0006
    assert_eq!(emu.pc, 0x0006);
    assert_eq!(emu.sp, 0x9000);
}

#[test]
fn in_and_out_are_two_byte_no_effects() {
    let image = vec![0xdbu8, 0x01, 0xd3, 0x02];
    let mut emu = Emulator8080::empty();
    assert!(emu.load(&image));
    emu.ra = 0x42;
    emu.run(image.len() as u16, 10);
    assert_eq!(emu.pc, 4);
    assert_eq!(emu.ra, 0x42);
}

#[test]
fn sta_and_lda_direct_addressing() {
    // STA 0x1234; XRA A; LDA 0x1234
    let image = vec![0x32u8, 0x34, 0x12, 0xaf, 0x3a, 0x34, 0x12];
    let mut emu = Emulator8080::empty();
    assert!(emu.load(&image));
    emu.ra = 0x66;
    emu.run(image.len() as u16, 10);
    assert_eq!(emu.memory[0x1234], 0x66);
    assert_eq!(emu.ra, 0x66);
}

#[test]
fn stc_cmc_cma() {
    let image = vec![0x37u8, 0x3f, 0x2f];
    let mut emu = Emulator8080::empty();
    assert!(emu.load(&image));
    emu.ra = 0x0f;
    emu.emulate_instruction();
    assert!(emu.flags.cy, "STC sets CY");
    emu.emulate_instruction();
    assert!(!emu.flags.cy, "CMC complements CY");
    emu.emulate_instruction();
    assert_eq!(emu.ra, 0xf0, "CMA complements A");
    assert!(!emu.flags.z, "CMA touches no flag");
}
