use emu8080::decode::{decode, OperandKind};
use emu8080::disassembler::{disassemble_8080_op, disassemble_program};

#[test]
fn decode_is_total_and_lengths_are_sane() {
    for op in 0..=255u8 {
        let info = decode(op);
        assert!((1..=3).contains(&info.length), "opcode {op:#04x}");
        match info.kind {
            OperandKind::Implied => assert_eq!(info.length, 1),
            OperandKind::Byte => assert_eq!(info.length, 2),
            OperandKind::Word => assert_eq!(info.length, 3),
        }
        assert!(!info.text.is_empty());
    }
}

#[test]
fn decode_known_entries() {
    assert_eq!(decode(0x00).text, "NOP");
    assert_eq!(decode(0x76).text, "HLT");
    assert_eq!(decode(0x80).text, "ADD   B");
    assert_eq!(decode(0xbe).text, "CMP   M");
    assert_eq!(decode(0xc3).length, 3);
    assert_eq!(decode(0xd3).length, 2);
    assert_eq!(decode(0xcb).text, "NOP", "unassigned codes decode to NOP");
    assert_eq!(decode(0xcb).length, 1);
}

#[test]
fn one_byte_op_renders_bare_mnemonic() {
    let buffer = vec![0x00u8];
    let (line, len) = disassemble_8080_op(&buffer, 0);
    assert_eq!(line, "NOP");
    assert_eq!(len, 1);
}

#[test]
fn immediate_renders_two_hex_digits() {
    let buffer = vec![0x06u8, 0x05];
    let (line, len) = disassemble_8080_op(&buffer, 0);
    assert_eq!(line, "MVI   B, #$05");
    assert_eq!(len, 2);

    let buffer = vec![0x3eu8, 0xff];
    let (line, _) = disassemble_8080_op(&buffer, 0);
    assert_eq!(line, "MVI   A, #$ff");
}

#[test]
fn word_renders_high_byte_before_low_byte() {
    // The stream holds the low byte first; the rendering is high-then-low.
    let buffer = vec![0xc3u8, 0xcd, 0xab];
    let (line, len) = disassemble_8080_op(&buffer, 0);
    assert_eq!(line, "JMP   $abcd");
    assert_eq!(len, 3);

    let buffer = vec![0x01u8, 0x34, 0x12];
    let (line, _) = disassemble_8080_op(&buffer, 0);
    assert_eq!(line, "LXI   B, #$1234");
}

#[test]
fn unknown_opcode_disassembles_as_nop() {
    let buffer = vec![0xcbu8];
    let (line, len) = disassemble_8080_op(&buffer, 0);
    assert_eq!(line, "NOP");
    assert_eq!(len, 1);
}

#[test]
fn mov_and_stack_texts() {
    let buffer = vec![0x41u8, 0xc5, 0xf1, 0xd7, 0xdb, 0x09];
    assert_eq!(disassemble_8080_op(&buffer, 0).0, "MOV   B, C");
    assert_eq!(disassemble_8080_op(&buffer, 1).0, "PUSH  B");
    assert_eq!(disassemble_8080_op(&buffer, 2).0, "POP   PSW");
    assert_eq!(disassemble_8080_op(&buffer, 3).0, "RST   2");
    assert_eq!(disassemble_8080_op(&buffer, 5).0, "DAD   B");
}

#[test]
fn whole_program_listing() {
    let buffer = vec![0x06u8, 0x05, 0x3e, 0x03, 0x80];
    let lines = disassemble_program(&buffer);
    assert_eq!(lines, vec!["MVI   B, #$05", "MVI   A, #$03", "ADD   B"]);
}

#[test]
fn listing_stops_before_a_truncated_instruction() {
    // The final LXI is missing its second operand byte.
    let buffer = vec![0x00u8, 0x01, 0x34];
    let lines = disassemble_program(&buffer);
    assert_eq!(lines, vec!["NOP"]);
}

#[test]
fn empty_image_lists_nothing() {
    let buffer: Vec<u8> = Vec::new();
    let lines = disassemble_program(&buffer);
    assert!(lines.is_empty());
}
