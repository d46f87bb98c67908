use emu8080::emulator::Emulator8080;

#[test]
fn parity_spot_cases() {
    assert_eq!(Emulator8080::parity(0x00), true);
    assert_eq!(Emulator8080::parity(0x01), false);
    assert_eq!(Emulator8080::parity(0x03), true);
    assert_eq!(Emulator8080::parity(0x02), false);
    assert_eq!(Emulator8080::parity(0xff), true);
    assert_eq!(Emulator8080::parity(0xfe), false);
}

#[test]
fn parity_matches_popcount_for_all_bytes() {
    for v in 0..=255u8 {
        assert_eq!(Emulator8080::parity(v), v.count_ones() % 2 == 0, "v = {v:#x}");
    }
}

#[test]
fn sign_matches_bit_seven_for_all_bytes() {
    for v in 0..=255u8 {
        assert_eq!(Emulator8080::sign(v), (v & 0x80) != 0, "v = {v:#x}");
    }
}

#[test]
fn zero_matches_equality_for_all_bytes() {
    for v in 0..=255u8 {
        assert_eq!(Emulator8080::zero(v), v == 0, "v = {v:#x}");
    }
}

#[test]
fn carry_comparison_rule() {
    // Addition: the wrapped result fell below the pre-op operand.
    assert_eq!(Emulator8080::carry(0x4f, 0x50, false), true);
    assert_eq!(Emulator8080::carry(0x60, 0x50, false), false);
    // Subtraction: the wrapped result rose above the pre-op operand.
    assert_eq!(Emulator8080::carry(0xff, 0x00, true), true);
    assert_eq!(Emulator8080::carry(0x10, 0x20, true), false);
}

#[test]
fn aux_carry_nibble_rules() {
    // 0x0f + 0x01 carries out of bit 3.
    assert_eq!(Emulator8080::aux_carry(0x0f, 0x01, false, false), true);
    // 0x08 + 0x07 stays inside the low nibble.
    assert_eq!(Emulator8080::aux_carry(0x08, 0x07, false, false), false);
    // 0x0f + 0x00 + carry-in carries.
    assert_eq!(Emulator8080::aux_carry(0x0f, 0x00, true, false), true);
    // 0x10 - 0x01 borrows into bit 3.
    assert_eq!(Emulator8080::aux_carry(0x10, 0x01, false, true), true);
    // 0x1f - 0x01 does not.
    assert_eq!(Emulator8080::aux_carry(0x1f, 0x01, false, true), false);
    // Borrow-in can force the nibble borrow.
    assert_eq!(Emulator8080::aux_carry(0x11, 0x01, true, true), true);
}

#[test]
fn add_a_sets_all_five_flags() {
    let mut emu = Emulator8080::empty();
    emu.ra = 0x8f;
    emu.add_a(0x81, false);
    // 0x8f + 0x81 = 0x110 -> result 0x10, CY set, AC set (f + 1 carries).
    assert_eq!(emu.ra, 0x10);
    assert!(emu.flags.cy);
    assert!(emu.flags.ac);
    assert!(!emu.flags.z);
    assert!(!emu.flags.s);
    assert!(!emu.flags.p); // 0x10 has one set bit
}

#[test]
fn add_a_with_carry_in() {
    let mut emu = Emulator8080::empty();
    emu.ra = 0x10;
    emu.flags.cy = true;
    emu.add_a(0x0f, true);
    assert_eq!(emu.ra, 0x20);
    assert!(!emu.flags.cy);
    assert!(emu.flags.ac); // f + 0 + 1 carries out of the nibble
}

#[test]
fn sub_a_borrow_and_zero() {
    let mut emu = Emulator8080::empty();
    emu.ra = 0x01;
    emu.sub_a(0x02, false);
    assert_eq!(emu.ra, 0xff);
    assert!(emu.flags.cy); // borrow
    assert!(emu.flags.s);
    assert!(!emu.flags.z);

    let mut emu = Emulator8080::empty();
    emu.ra = 0x3e;
    emu.sub_a(0x3e, false);
    assert_eq!(emu.ra, 0x00);
    assert!(emu.flags.z);
    assert!(!emu.flags.cy);
    assert!(emu.flags.p);
}

#[test]
fn add_sub_round_trip_concrete() {
    // sub_a(add_a(a, b), b) == a with no carry-in on either step.
    for &(a, b) in &[(0x12u8, 0x34u8), (0xff, 0x02), (0x00, 0x00), (0x80, 0x80)] {
        let mut emu = Emulator8080::empty();
        emu.ra = a;
        emu.add_a(b, false);
        emu.sub_a(b, false);
        assert_eq!(emu.ra, a, "a = {a:#x}, b = {b:#x}");
    }
}

#[test]
fn daa_packed_bcd_adjustment() {
    // The classic 8080 manual example: 0x9b adjusts to 0x01 with CY and AC.
    let mut emu = Emulator8080::empty();
    emu.ra = 0x9b;
    emu.daa();
    assert_eq!(emu.ra, 0x01);
    assert!(emu.flags.cy);
    assert!(emu.flags.ac);
}

#[test]
fn inc_dec_reg_keep_carry() {
    let mut emu = Emulator8080::empty();
    emu.flags.cy = true;
    let r = emu.inc_reg(0xff);
    assert_eq!(r, 0x00);
    assert!(emu.flags.z);
    assert!(emu.flags.ac);
    assert!(emu.flags.cy, "INR must not touch CY");

    let r = emu.dec_reg(0x00);
    assert_eq!(r, 0xff);
    assert!(!emu.flags.z);
    assert!(emu.flags.s);
    assert!(emu.flags.cy, "DCR must not touch CY");
}
