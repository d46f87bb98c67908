//! The decode table: a pure, total map from each opcode byte to its
//! mnemonic text, encoded length, and operand layout.

use vstd::prelude::*;

verus! {

/// How many trailing bytes an opcode carries, and what they mean.
#[derive(Clone, Copy, Debug, PartialEq, Eq, Structural)]
pub enum OperandKind {
    /// No trailing byte: the opcode is the whole instruction.
    Implied,
    /// One trailing byte, an 8-bit immediate (or port number).
    Byte,
    /// Two trailing bytes, low byte first in the stream, forming a 16-bit
    /// address or immediate read as `(high << 8) | low`.
    Word,
}

/// One decode-table entry. `text` is the rendered mnemonic together with
/// any register operands and the `#$` / `$` prefix of a trailing operand,
/// ready for the hex digits of that operand to be appended.
pub struct OpInfo {
    /// Mnemonic and operand prefix.
    pub text: &'static str,
    /// Encoded instruction length in bytes: 1, 2 or 3.
    pub length: u16,
    /// Layout of the trailing bytes.
    pub kind: OperandKind,
}

/// Encoded length of each opcode. Every value decodes; codes the 8080
/// leaves unassigned fall back to a one-byte no-op.
pub open spec fn spec_len(op: u8) -> u16 {
    let col = op % 16;
    if op < 0x40 {
        if col == 1 {
            3
        } else if col == 6 || col == 14 {
            2
        } else if (col == 2 || col == 10) && op >= 0x20 {
            3
        } else {
            1
        }
    } else if op < 0xc0 {
        1
    } else {
        if col == 2 || col == 4 || col == 10 || col == 12 {
            3
        } else if col == 6 || col == 14 {
            2
        } else if op == 0xc3 || op == 0xcd {
            3
        } else if op == 0xd3 || op == 0xdb {
            2
        } else {
            1
        }
    }
}

/// The operand layout that goes with each length.
pub open spec fn spec_kind(op: u8) -> OperandKind {
    if spec_len(op) == 1 {
        OperandKind::Implied
    } else if spec_len(op) == 2 {
        OperandKind::Byte
    } else {
        OperandKind::Word
    }
}

/// The rendered text of each opcode, before any operand digits.
pub open spec fn spec_text(op: u8) -> Seq<char> {
    match op {
        0x01 => "LXI   B, #$"@,
        0x02 => "STAX  B"@,
        0x03 => "INX   B"@,
        0x04 => "INR   B"@,
        0x05 => "DCR   B"@,
        0x06 => "MVI   B, #$"@,
        0x07 => "RLC"@,
        0x09 => "DAD   B"@,
        0x0a => "LDAX  B"@,
        0x0b => "DCX   B"@,
        0x0c => "INR   C"@,
        0x0d => "DCR   C"@,
        0x0e => "MVI   C, #$"@,
        0x0f => "RRC"@,
        0x11 => "LXI   D, #$"@,
        0x12 => "STAX  D"@,
        0x13 => "INX   D"@,
        0x14 => "INR   D"@,
        0x15 => "DCR   D"@,
        0x16 => "MVI   D, #$"@,
        0x17 => "RAL"@,
        0x19 => "DAD   D"@,
        0x1a => "LDAX  D"@,
        0x1b => "DCX   D"@,
        0x1c => "INR   E"@,
        0x1d => "DCR   E"@,
        0x1e => "MVI   E, #$"@,
        0x1f => "RAR"@,
        0x21 => "LXI   H, #$"@,
        0x22 => "SHLD  $"@,
        0x23 => "INX   H"@,
        0x24 => "INR   H"@,
        0x25 => "DCR   H"@,
        0x26 => "MVI   H, #$"@,
        0x27 => "DAA"@,
        0x29 => "DAD   H"@,
        0x2a => "LHLD  $"@,
        0x2b => "DCX   H"@,
        0x2c => "INR   L"@,
        0x2d => "DCR   L"@,
        0x2e => "MVI   L, #$"@,
        0x2f => "CMA"@,
        0x31 => "LXI   SP, #$"@,
        0x32 => "STA   $"@,
        0x33 => "INX   SP"@,
        0x34 => "INR   M"@,
        0x35 => "DCR   M"@,
        0x36 => "MVI   M, #$"@,
        0x37 => "STC"@,
        0x39 => "DAD   SP"@,
        0x3a => "LDA   $"@,
        0x3b => "DCX   SP"@,
        0x3c => "INR   A"@,
        0x3d => "DCR   A"@,
        0x3e => "MVI   A, #$"@,
        0x3f => "CMC"@,
        0x40 => "MOV   B, B"@,
        0x41 => "MOV   B, C"@,
        0x42 => "MOV   B, D"@,
        0x43 => "MOV   B, E"@,
        0x44 => "MOV   B, H"@,
        0x45 => "MOV   B, L"@,
        0x46 => "MOV   B, M"@,
        0x47 => "MOV   B, A"@,
        0x48 => "MOV   C, B"@,
        0x49 => "MOV   C, C"@,
        0x4a => "MOV   C, D"@,
        0x4b => "MOV   C, E"@,
        0x4c => "MOV   C, H"@,
        0x4d => "MOV   C, L"@,
        0x4e => "MOV   C, M"@,
        0x4f => "MOV   C, A"@,
        0x50 => "MOV   D, B"@,
        0x51 => "MOV   D, C"@,
        0x52 => "MOV   D, D"@,
        0x53 => "MOV   D, E"@,
        0x54 => "MOV   D, H"@,
        0x55 => "MOV   D, L"@,
        0x56 => "MOV   D, M"@,
        0x57 => "MOV   D, A"@,
        0x58 => "MOV   E, B"@,
        0x59 => "MOV   E, C"@,
        0x5a => "MOV   E, D"@,
        0x5b => "MOV   E, E"@,
        0x5c => "MOV   E, H"@,
        0x5d => "MOV   E, L"@,
        0x5e => "MOV   E, M"@,
        0x5f => "MOV   E, A"@,
        0x60 => "MOV   H, B"@,
        0x61 => "MOV   H, C"@,
        0x62 => "MOV   H, D"@,
        0x63 => "MOV   H, E"@,
        0x64 => "MOV   H, H"@,
        0x65 => "MOV   H, L"@,
        0x66 => "MOV   H, M"@,
        0x67 => "MOV   H, A"@,
        0x68 => "MOV   L, B"@,
        0x69 => "MOV   L, C"@,
        0x6a => "MOV   L, D"@,
        0x6b => "MOV   L, E"@,
        0x6c => "MOV   L, H"@,
        0x6d => "MOV   L, L"@,
        0x6e => "MOV   L, M"@,
        0x6f => "MOV   L, A"@,
        0x70 => "MOV   M, B"@,
        0x71 => "MOV   M, C"@,
        0x72 => "MOV   M, D"@,
        0x73 => "MOV   M, E"@,
        0x74 => "MOV   M, H"@,
        0x75 => "MOV   M, L"@,
        0x76 => "HLT"@,
        0x77 => "MOV   M, A"@,
        0x78 => "MOV   A, B"@,
        0x79 => "MOV   A, C"@,
        0x7a => "MOV   A, D"@,
        0x7b => "MOV   A, E"@,
        0x7c => "MOV   A, H"@,
        0x7d => "MOV   A, L"@,
        0x7e => "MOV   A, M"@,
        0x7f => "MOV   A, A"@,
        0x80 => "ADD   B"@,
        0x81 => "ADD   C"@,
        0x82 => "ADD   D"@,
        0x83 => "ADD   E"@,
        0x84 => "ADD   H"@,
        0x85 => "ADD   L"@,
        0x86 => "ADD   M"@,
        0x87 => "ADD   A"@,
        0x88 => "ADC   B"@,
        0x89 => "ADC   C"@,
        0x8a => "ADC   D"@,
        0x8b => "ADC   E"@,
        0x8c => "ADC   H"@,
        0x8d => "ADC   L"@,
        0x8e => "ADC   M"@,
        0x8f => "ADC   A"@,
        0x90 => "SUB   B"@,
        0x91 => "SUB   C"@,
        0x92 => "SUB   D"@,
        0x93 => "SUB   E"@,
        0x94 => "SUB   H"@,
        0x95 => "SUB   L"@,
        0x96 => "SUB   M"@,
        0x97 => "SUB   A"@,
        0x98 => "SBB   B"@,
        0x99 => "SBB   C"@,
        0x9a => "SBB   D"@,
        0x9b => "SBB   E"@,
        0x9c => "SBB   H"@,
        0x9d => "SBB   L"@,
        0x9e => "SBB   M"@,
        0x9f => "SBB   A"@,
        0xa0 => "ANA   B"@,
        0xa1 => "ANA   C"@,
        0xa2 => "ANA   D"@,
        0xa3 => "ANA   E"@,
        0xa4 => "ANA   H"@,
        0xa5 => "ANA   L"@,
        0xa6 => "ANA   M"@,
        0xa7 => "ANA   A"@,
        0xa8 => "XRA   B"@,
        0xa9 => "XRA   C"@,
        0xaa => "XRA   D"@,
        0xab => "XRA   E"@,
        0xac => "XRA   H"@,
        0xad => "XRA   L"@,
        0xae => "XRA   M"@,
        0xaf => "XRA   A"@,
        0xb0 => "ORA   B"@,
        0xb1 => "ORA   C"@,
        0xb2 => "ORA   D"@,
        0xb3 => "ORA   E"@,
        0xb4 => "ORA   H"@,
        0xb5 => "ORA   L"@,
        0xb6 => "ORA   M"@,
        0xb7 => "ORA   A"@,
        0xb8 => "CMP   B"@,
        0xb9 => "CMP   C"@,
        0xba => "CMP   D"@,
        0xbb => "CMP   E"@,
        0xbc => "CMP   H"@,
        0xbd => "CMP   L"@,
        0xbe => "CMP   M"@,
        0xbf => "CMP   A"@,
        0xc0 => "RNZ"@,
        0xc1 => "POP   B"@,
        0xc2 => "JNZ   $"@,
        0xc3 => "JMP   $"@,
        0xc4 => "CNZ   $"@,
        0xc5 => "PUSH  B"@,
        0xc6 => "ADI   #$"@,
        0xc7 => "RST   0"@,
        0xc8 => "RZ"@,
        0xc9 => "RET"@,
        0xca => "JZ    $"@,
        0xcc => "CZ    $"@,
        0xcd => "CALL  $"@,
        0xce => "ACI   #$"@,
        0xcf => "RST   1"@,
        0xd0 => "RNC"@,
        0xd1 => "POP   D"@,
        0xd2 => "JNC   $"@,
        0xd3 => "OUT   #$"@,
        0xd4 => "CNC   $"@,
        0xd5 => "PUSH  D"@,
        0xd6 => "SUI   #$"@,
        0xd7 => "RST   2"@,
        0xd8 => "RC"@,
        0xda => "JC    $"@,
        0xdb => "IN    #$"@,
        0xdc => "CC    $"@,
        0xde => "SBI   #$"@,
        0xdf => "RST   3"@,
        0xe0 => "RPO"@,
        0xe1 => "POP   H"@,
        0xe2 => "JPO   $"@,
        0xe3 => "XTHL"@,
        0xe4 => "CPO   $"@,
        0xe5 => "PUSH  H"@,
        0xe6 => "ANI   #$"@,
        0xe7 => "RST   4"@,
        0xe8 => "RPE"@,
        0xe9 => "PCHL"@,
        0xea => "JPE   $"@,
        0xeb => "XCHG"@,
        0xec => "CPE   $"@,
        0xee => "XRI   #$"@,
        0xef => "RST   5"@,
        0xf0 => "RP"@,
        0xf1 => "POP   PSW"@,
        0xf2 => "JP    $"@,
        0xf3 => "DI"@,
        0xf4 => "CP    $"@,
        0xf5 => "PUSH  PSW"@,
        0xf6 => "ORI   #$"@,
        0xf7 => "RST   6"@,
        0xf8 => "RM"@,
        0xf9 => "SPHL"@,
        0xfa => "JM    $"@,
        0xfb => "EI"@,
        0xfc => "CM    $"@,
        0xfe => "CPI   #$"@,
        0xff => "RST   7"@,
        _ => "NOP"@,
    }
}

/// Decode one opcode byte: its text, its encoded length, and the layout of
/// its trailing bytes. Pure and total; unassigned codes decode to a
/// one-byte no-op rather than failing.
pub fn decode(op: u8) -> (r: OpInfo)
    ensures
        r.length == spec_len(op),
        1 <= r.length <= 3,
        r.kind == spec_kind(op),
        r.text@ == spec_text(op),
{
    match op {
            0x01 => OpInfo { text: "LXI   B, #$", length: 3, kind: OperandKind::Word },
            0x02 => OpInfo { text: "STAX  B", length: 1, kind: OperandKind::Implied },
            0x03 => OpInfo { text: "INX   B", length: 1, kind: OperandKind::Implied },
            0x04 => OpInfo { text: "INR   B", length: 1, kind: OperandKind::Implied },
            0x05 => OpInfo { text: "DCR   B", length: 1, kind: OperandKind::Implied },
            0x06 => OpInfo { text: "MVI   B, #$", length: 2, kind: OperandKind::Byte },
            0x07 => OpInfo { text: "RLC", length: 1, kind: OperandKind::Implied },
            0x09 => OpInfo { text: "DAD   B", length: 1, kind: OperandKind::Implied },
            0x0a => OpInfo { text: "LDAX  B", length: 1, kind: OperandKind::Implied },
            0x0b => OpInfo { text: "DCX   B", length: 1, kind: OperandKind::Implied },
            0x0c => OpInfo { text: "INR   C", length: 1, kind: OperandKind::Implied },
            0x0d => OpInfo { text: "DCR   C", length: 1, kind: OperandKind::Implied },
            0x0e => OpInfo { text: "MVI   C, #$", length: 2, kind: OperandKind::Byte },
            0x0f => OpInfo { text: "RRC", length: 1, kind: OperandKind::Implied },
            0x11 => OpInfo { text: "LXI   D, #$", length: 3, kind: OperandKind::Word },
            0x12 => OpInfo { text: "STAX  D", length: 1, kind: OperandKind::Implied },
            0x13 => OpInfo { text: "INX   D", length: 1, kind: OperandKind::Implied },
            0x14 => OpInfo { text: "INR   D", length: 1, kind: OperandKind::Implied },
            0x15 => OpInfo { text: "DCR   D", length: 1, kind: OperandKind::Implied },
            0x16 => OpInfo { text: "MVI   D, #$", length: 2, kind: OperandKind::Byte },
            0x17 => OpInfo { text: "RAL", length: 1, kind: OperandKind::Implied },
            0x19 => OpInfo { text: "DAD   D", length: 1, kind: OperandKind::Implied },
            0x1a => OpInfo { text: "LDAX  D", length: 1, kind: OperandKind::Implied },
            0x1b => OpInfo { text: "DCX   D", length: 1, kind: OperandKind::Implied },
            0x1c => OpInfo { text: "INR   E", length: 1, kind: OperandKind::Implied },
            0x1d => OpInfo { text: "DCR   E", length: 1, kind: OperandKind::Implied },
            0x1e => OpInfo { text: "MVI   E, #$", length: 2, kind: OperandKind::Byte },
            0x1f => OpInfo { text: "RAR", length: 1, kind: OperandKind::Implied },
            0x21 => OpInfo { text: "LXI   H, #$", length: 3, kind: OperandKind::Word },
            0x22 => OpInfo { text: "SHLD  $", length: 3, kind: OperandKind::Word },
            0x23 => OpInfo { text: "INX   H", length: 1, kind: OperandKind::Implied },
            0x24 => OpInfo { text: "INR   H", length: 1, kind: OperandKind::Implied },
            0x25 => OpInfo { text: "DCR   H", length: 1, kind: OperandKind::Implied },
            0x26 => OpInfo { text: "MVI   H, #$", length: 2, kind: OperandKind::Byte },
            0x27 => OpInfo { text: "DAA", length: 1, kind: OperandKind::Implied },
            0x29 => OpInfo { text: "DAD   H", length: 1, kind: OperandKind::Implied },
            0x2a => OpInfo { text: "LHLD  $", length: 3, kind: OperandKind::Word },
            0x2b => OpInfo { text: "DCX   H", length: 1, kind: OperandKind::Implied },
            0x2c => OpInfo { text: "INR   L", length: 1, kind: OperandKind::Implied },
            0x2d => OpInfo { text: "DCR   L", length: 1, kind: OperandKind::Implied },
            0x2e => OpInfo { text: "MVI   L, #$", length: 2, kind: OperandKind::Byte },
            0x2f => OpInfo { text: "CMA", length: 1, kind: OperandKind::Implied },
            0x31 => OpInfo { text: "LXI   SP, #$", length: 3, kind: OperandKind::Word },
            0x32 => OpInfo { text: "STA   $", length: 3, kind: OperandKind::Word },
            0x33 => OpInfo { text: "INX   SP", length: 1, kind: OperandKind::Implied },
            0x34 => OpInfo { text: "INR   M", length: 1, kind: OperandKind::Implied },
            0x35 => OpInfo { text: "DCR   M", length: 1, kind: OperandKind::Implied },
            0x36 => OpInfo { text: "MVI   M, #$", length: 2, kind: OperandKind::Byte },
            0x37 => OpInfo { text: "STC", length: 1, kind: OperandKind::Implied },
            0x39 => OpInfo { text: "DAD   SP", length: 1, kind: OperandKind::Implied },
            0x3a => OpInfo { text: "LDA   $", length: 3, kind: OperandKind::Word },
            0x3b => OpInfo { text: "DCX   SP", length: 1, kind: OperandKind::Implied },
            0x3c => OpInfo { text: "INR   A", length: 1, kind: OperandKind::Implied },
            0x3d => OpInfo { text: "DCR   A", length: 1, kind: OperandKind::Implied },
            0x3e => OpInfo { text: "MVI   A, #$", length: 2, kind: OperandKind::Byte },
            0x3f => OpInfo { text: "CMC", length: 1, kind: OperandKind::Implied },
            0x40 => OpInfo { text: "MOV   B, B", length: 1, kind: OperandKind::Implied },
            0x41 => OpInfo { text: "MOV   B, C", length: 1, kind: OperandKind::Implied },
            0x42 => OpInfo { text: "MOV   B, D", length: 1, kind: OperandKind::Implied },
            0x43 => OpInfo { text: "MOV   B, E", length: 1, kind: OperandKind::Implied },
            0x44 => OpInfo { text: "MOV   B, H", length: 1, kind: OperandKind::Implied },
            0x45 => OpInfo { text: "MOV   B, L", length: 1, kind: OperandKind::Implied },
            0x46 => OpInfo { text: "MOV   B, M", length: 1, kind: OperandKind::Implied },
            0x47 => OpInfo { text: "MOV   B, A", length: 1, kind: OperandKind::Implied },
            0x48 => OpInfo { text: "MOV   C, B", length: 1, kind: OperandKind::Implied },
            0x49 => OpInfo { text: "MOV   C, C", length: 1, kind: OperandKind::Implied },
            0x4a => OpInfo { text: "MOV   C, D", length: 1, kind: OperandKind::Implied },
            0x4b => OpInfo { text: "MOV   C, E", length: 1, kind: OperandKind::Implied },
            0x4c => OpInfo { text: "MOV   C, H", length: 1, kind: OperandKind::Implied },
            0x4d => OpInfo { text: "MOV   C, L", length: 1, kind: OperandKind::Implied },
            0x4e => OpInfo { text: "MOV   C, M", length: 1, kind: OperandKind::Implied },
            0x4f => OpInfo { text: "MOV   C, A", length: 1, kind: OperandKind::Implied },
            0x50 => OpInfo { text: "MOV   D, B", length: 1, kind: OperandKind::Implied },
            0x51 => OpInfo { text: "MOV   D, C", length: 1, kind: OperandKind::Implied },
            0x52 => OpInfo { text: "MOV   D, D", length: 1, kind: OperandKind::Implied },
            0x53 => OpInfo { text: "MOV   D, E", length: 1, kind: OperandKind::Implied },
            0x54 => OpInfo { text: "MOV   D, H", length: 1, kind: OperandKind::Implied },
            0x55 => OpInfo { text: "MOV   D, L", length: 1, kind: OperandKind::Implied },
            0x56 => OpInfo { text: "MOV   D, M", length: 1, kind: OperandKind::Implied },
            0x57 => OpInfo { text: "MOV   D, A", length: 1, kind: OperandKind::Implied },
            0x58 => OpInfo { text: "MOV   E, B", length: 1, kind: OperandKind::Implied },
            0x59 => OpInfo { text: "MOV   E, C", length: 1, kind: OperandKind::Implied },
            0x5a => OpInfo { text: "MOV   E, D", length: 1, kind: OperandKind::Implied },
            0x5b => OpInfo { text: "MOV   E, E", length: 1, kind: OperandKind::Implied },
            0x5c => OpInfo { text: "MOV   E, H", length: 1, kind: OperandKind::Implied },
            0x5d => OpInfo { text: "MOV   E, L", length: 1, kind: OperandKind::Implied },
            0x5e => OpInfo { text: "MOV   E, M", length: 1, kind: OperandKind::Implied },
            0x5f => OpInfo { text: "MOV   E, A", length: 1, kind: OperandKind::Implied },
            0x60 => OpInfo { text: "MOV   H, B", length: 1, kind: OperandKind::Implied },
            0x61 => OpInfo { text: "MOV   H, C", length: 1, kind: OperandKind::Implied },
            0x62 => OpInfo { text: "MOV   H, D", length: 1, kind: OperandKind::Implied },
            0x63 => OpInfo { text: "MOV   H, E", length: 1, kind: OperandKind::Implied },
            0x64 => OpInfo { text: "MOV   H, H", length: 1, kind: OperandKind::Implied },
            0x65 => OpInfo { text: "MOV   H, L", length: 1, kind: OperandKind::Implied },
            0x66 => OpInfo { text: "MOV   H, M", length: 1, kind: OperandKind::Implied },
            0x67 => OpInfo { text: "MOV   H, A", length: 1, kind: OperandKind::Implied },
            0x68 => OpInfo { text: "MOV   L, B", length: 1, kind: OperandKind::Implied },
            0x69 => OpInfo { text: "MOV   L, C", length: 1, kind: OperandKind::Implied },
            0x6a => OpInfo { text: "MOV   L, D", length: 1, kind: OperandKind::Implied },
            0x6b => OpInfo { text: "MOV   L, E", length: 1, kind: OperandKind::Implied },
            0x6c => OpInfo { text: "MOV   L, H", length: 1, kind: OperandKind::Implied },
            0x6d => OpInfo { text: "MOV   L, L", length: 1, kind: OperandKind::Implied },
            0x6e => OpInfo { text: "MOV   L, M", length: 1, kind: OperandKind::Implied },
            0x6f => OpInfo { text: "MOV   L, A", length: 1, kind: OperandKind::Implied },
            0x70 => OpInfo { text: "MOV   M, B", length: 1, kind: OperandKind::Implied },
            0x71 => OpInfo { text: "MOV   M, C", length: 1, kind: OperandKind::Implied },
            0x72 => OpInfo { text: "MOV   M, D", length: 1, kind: OperandKind::Implied },
            0x73 => OpInfo { text: "MOV   M, E", length: 1, kind: OperandKind::Implied },
            0x74 => OpInfo { text: "MOV   M, H", length: 1, kind: OperandKind::Implied },
            0x75 => OpInfo { text: "MOV   M, L", length: 1, kind: OperandKind::Implied },
            0x76 => OpInfo { text: "HLT", length: 1, kind: OperandKind::Implied },
            0x77 => OpInfo { text: "MOV   M, A", length: 1, kind: OperandKind::Implied },
            0x78 => OpInfo { text: "MOV   A, B", length: 1, kind: OperandKind::Implied },
            0x79 => OpInfo { text: "MOV   A, C", length: 1, kind: OperandKind::Implied },
            0x7a => OpInfo { text: "MOV   A, D", length: 1, kind: OperandKind::Implied },
            0x7b => OpInfo { text: "MOV   A, E", length: 1, kind: OperandKind::Implied },
            0x7c => OpInfo { text: "MOV   A, H", length: 1, kind: OperandKind::Implied },
            0x7d => OpInfo { text: "MOV   A, L", length: 1, kind: OperandKind::Implied },
            0x7e => OpInfo { text: "MOV   A, M", length: 1, kind: OperandKind::Implied },
            0x7f => OpInfo { text: "MOV   A, A", length: 1, kind: OperandKind::Implied },
            0x80 => OpInfo { text: "ADD   B", length: 1, kind: OperandKind::Implied },
            0x81 => OpInfo { text: "ADD   C", length: 1, kind: OperandKind::Implied },
            0x82 => OpInfo { text: "ADD   D", length: 1, kind: OperandKind::Implied },
            0x83 => OpInfo { text: "ADD   E", length: 1, kind: OperandKind::Implied },
            0x84 => OpInfo { text: "ADD   H", length: 1, kind: OperandKind::Implied },
            0x85 => OpInfo { text: "ADD   L", length: 1, kind: OperandKind::Implied },
            0x86 => OpInfo { text: "ADD   M", length: 1, kind: OperandKind::Implied },
            0x87 => OpInfo { text: "ADD   A", length: 1, kind: OperandKind::Implied },
            0x88 => OpInfo { text: "ADC   B", length: 1, kind: OperandKind::Implied },
            0x89 => OpInfo { text: "ADC   C", length: 1, kind: OperandKind::Implied },
            0x8a => OpInfo { text: "ADC   D", length: 1, kind: OperandKind::Implied },
            0x8b => OpInfo { text: "ADC   E", length: 1, kind: OperandKind::Implied },
            0x8c => OpInfo { text: "ADC   H", length: 1, kind: OperandKind::Implied },
            0x8d => OpInfo { text: "ADC   L", length: 1, kind: OperandKind::Implied },
            0x8e => OpInfo { text: "ADC   M", length: 1, kind: OperandKind::Implied },
            0x8f => OpInfo { text: "ADC   A", length: 1, kind: OperandKind::Implied },
            0x90 => OpInfo { text: "SUB   B", length: 1, kind: OperandKind::Implied },
            0x91 => OpInfo { text: "SUB   C", length: 1, kind: OperandKind::Implied },
            0x92 => OpInfo { text: "SUB   D", length: 1, kind: OperandKind::Implied },
            0x93 => OpInfo { text: "SUB   E", length: 1, kind: OperandKind::Implied },
            0x94 => OpInfo { text: "SUB   H", length: 1, kind: OperandKind::Implied },
            0x95 => OpInfo { text: "SUB   L", length: 1, kind: OperandKind::Implied },
            0x96 => OpInfo { text: "SUB   M", length: 1, kind: OperandKind::Implied },
            0x97 => OpInfo { text: "SUB   A", length: 1, kind: OperandKind::Implied },
            0x98 => OpInfo { text: "SBB   B", length: 1, kind: OperandKind::Implied },
            0x99 => OpInfo { text: "SBB   C", length: 1, kind: OperandKind::Implied },
            0x9a => OpInfo { text: "SBB   D", length: 1, kind: OperandKind::Implied },
            0x9b => OpInfo { text: "SBB   E", length: 1, kind: OperandKind::Implied },
            0x9c => OpInfo { text: "SBB   H", length: 1, kind: OperandKind::Implied },
            0x9d => OpInfo { text: "SBB   L", length: 1, kind: OperandKind::Implied },
            0x9e => OpInfo { text: "SBB   M", length: 1, kind: OperandKind::Implied },
            0x9f => OpInfo { text: "SBB   A", length: 1, kind: OperandKind::Implied },
            0xa0 => OpInfo { text: "ANA   B", length: 1, kind: OperandKind::Implied },
            0xa1 => OpInfo { text: "ANA   C", length: 1, kind: OperandKind::Implied },
            0xa2 => OpInfo { text: "ANA   D", length: 1, kind: OperandKind::Implied },
            0xa3 => OpInfo { text: "ANA   E", length: 1, kind: OperandKind::Implied },
            0xa4 => OpInfo { text: "ANA   H", length: 1, kind: OperandKind::Implied },
            0xa5 => OpInfo { text: "ANA   L", length: 1, kind: OperandKind::Implied },
            0xa6 => OpInfo { text: "ANA   M", length: 1, kind: OperandKind::Implied },
            0xa7 => OpInfo { text: "ANA   A", length: 1, kind: OperandKind::Implied },
            0xa8 => OpInfo { text: "XRA   B", length: 1, kind: OperandKind::Implied },
            0xa9 => OpInfo { text: "XRA   C", length: 1, kind: OperandKind::Implied },
            0xaa => OpInfo { text: "XRA   D", length: 1, kind: OperandKind::Implied },
            0xab => OpInfo { text: "XRA   E", length: 1, kind: OperandKind::Implied },
            0xac => OpInfo { text: "XRA   H", length: 1, kind: OperandKind::Implied },
            0xad => OpInfo { text: "XRA   L", length: 1, kind: OperandKind::Implied },
            0xae => OpInfo { text: "XRA   M", length: 1, kind: OperandKind::Implied },
            0xaf => OpInfo { text: "XRA   A", length: 1, kind: OperandKind::Implied },
            0xb0 => OpInfo { text: "ORA   B", length: 1, kind: OperandKind::Implied },
            0xb1 => OpInfo { text: "ORA   C", length: 1, kind: OperandKind::Implied },
            0xb2 => OpInfo { text: "ORA   D", length: 1, kind: OperandKind::Implied },
            0xb3 => OpInfo { text: "ORA   E", length: 1, kind: OperandKind::Implied },
            0xb4 => OpInfo { text: "ORA   H", length: 1, kind: OperandKind::Implied },
            0xb5 => OpInfo { text: "ORA   L", length: 1, kind: OperandKind::Implied },
            0xb6 => OpInfo { text: "ORA   M", length: 1, kind: OperandKind::Implied },
            0xb7 => OpInfo { text: "ORA   A", length: 1, kind: OperandKind::Implied },
            0xb8 => OpInfo { text: "CMP   B", length: 1, kind: OperandKind::Implied },
            0xb9 => OpInfo { text: "CMP   C", length: 1, kind: OperandKind::Implied },
            0xba => OpInfo { text: "CMP   D", length: 1, kind: OperandKind::Implied },
            0xbb => OpInfo { text: "CMP   E", length: 1, kind: OperandKind::Implied },
            0xbc => OpInfo { text: "CMP   H", length: 1, kind: OperandKind::Implied },
            0xbd => OpInfo { text: "CMP   L", length: 1, kind: OperandKind::Implied },
            0xbe => OpInfo { text: "CMP   M", length: 1, kind: OperandKind::Implied },
            0xbf => OpInfo { text: "CMP   A", length: 1, kind: OperandKind::Implied },
            0xc0 => OpInfo { text: "RNZ", length: 1, kind: OperandKind::Implied },
            0xc1 => OpInfo { text: "POP   B", length: 1, kind: OperandKind::Implied },
            0xc2 => OpInfo { text: "JNZ   $", length: 3, kind: OperandKind::Word },
            0xc3 => OpInfo { text: "JMP   $", length: 3, kind: OperandKind::Word },
            0xc4 => OpInfo { text: "CNZ   $", length: 3, kind: OperandKind::Word },
            0xc5 => OpInfo { text: "PUSH  B", length: 1, kind: OperandKind::Implied },
            0xc6 => OpInfo { text: "ADI   #$", length: 2, kind: OperandKind::Byte },
            0xc7 => OpInfo { text: "RST   0", length: 1, kind: OperandKind::Implied },
            0xc8 => OpInfo { text: "RZ", length: 1, kind: OperandKind::Implied },
            0xc9 => OpInfo { text: "RET", length: 1, kind: OperandKind::Implied },
            0xca => OpInfo { text: "JZ    $", length: 3, kind: OperandKind::Word },
            0xcc => OpInfo { text: "CZ    $", length: 3, kind: OperandKind::Word },
            0xcd => OpInfo { text: "CALL  $", length: 3, kind: OperandKind::Word },
            0xce => OpInfo { text: "ACI   #$", length: 2, kind: OperandKind::Byte },
            0xcf => OpInfo { text: "RST   1", length: 1, kind: OperandKind::Implied },
            0xd0 => OpInfo { text: "RNC", length: 1, kind: OperandKind::Implied },
            0xd1 => OpInfo { text: "POP   D", length: 1, kind: OperandKind::Implied },
            0xd2 => OpInfo { text: "JNC   $", length: 3, kind: OperandKind::Word },
            0xd3 => OpInfo { text: "OUT   #$", length: 2, kind: OperandKind::Byte },
            0xd4 => OpInfo { text: "CNC   $", length: 3, kind: OperandKind::Word },
            0xd5 => OpInfo { text: "PUSH  D", length: 1, kind: OperandKind::Implied },
            0xd6 => OpInfo { text: "SUI   #$", length: 2, kind: OperandKind::Byte },
            0xd7 => OpInfo { text: "RST   2", length: 1, kind: OperandKind::Implied },
            0xd8 => OpInfo { text: "RC", length: 1, kind: OperandKind::Implied },
            0xda => OpInfo { text: "JC    $", length: 3, kind: OperandKind::Word },
            0xdb => OpInfo { text: "IN    #$", length: 2, kind: OperandKind::Byte },
            0xdc => OpInfo { text: "CC    $", length: 3, kind: OperandKind::Word },
            0xde => OpInfo { text: "SBI   #$", length: 2, kind: OperandKind::Byte },
            0xdf => OpInfo { text: "RST   3", length: 1, kind: OperandKind::Implied },
            0xe0 => OpInfo { text: "RPO", length: 1, kind: OperandKind::Implied },
            0xe1 => OpInfo { text: "POP   H", length: 1, kind: OperandKind::Implied },
            0xe2 => OpInfo { text: "JPO   $", length: 3, kind: OperandKind::Word },
            0xe3 => OpInfo { text: "XTHL", length: 1, kind: OperandKind::Implied },
            0xe4 => OpInfo { text: "CPO   $", length: 3, kind: OperandKind::Word },
            0xe5 => OpInfo { text: "PUSH  H", length: 1, kind: OperandKind::Implied },
            0xe6 => OpInfo { text: "ANI   #$", length: 2, kind: OperandKind::Byte },
            0xe7 => OpInfo { text: "RST   4", length: 1, kind: OperandKind::Implied },
            0xe8 => OpInfo { text: "RPE", length: 1, kind: OperandKind::Implied },
            0xe9 => OpInfo { text: "PCHL", length: 1, kind: OperandKind::Implied },
            0xea => OpInfo { text: "JPE   $", length: 3, kind: OperandKind::Word },
            0xeb => OpInfo { text: "XCHG", length: 1, kind: OperandKind::Implied },
            0xec => OpInfo { text: "CPE   $", length: 3, kind: OperandKind::Word },
            0xee => OpInfo { text: "XRI   #$", length: 2, kind: OperandKind::Byte },
            0xef => OpInfo { text: "RST   5", length: 1, kind: OperandKind::Implied },
            0xf0 => OpInfo { text: "RP", length: 1, kind: OperandKind::Implied },
            0xf1 => OpInfo { text: "POP   PSW", length: 1, kind: OperandKind::Implied },
            0xf2 => OpInfo { text: "JP    $", length: 3, kind: OperandKind::Word },
            0xf3 => OpInfo { text: "DI", length: 1, kind: OperandKind::Implied },
            0xf4 => OpInfo { text: "CP    $", length: 3, kind: OperandKind::Word },
            0xf5 => OpInfo { text: "PUSH  PSW", length: 1, kind: OperandKind::Implied },
            0xf6 => OpInfo { text: "ORI   #$", length: 2, kind: OperandKind::Byte },
            0xf7 => OpInfo { text: "RST   6", length: 1, kind: OperandKind::Implied },
            0xf8 => OpInfo { text: "RM", length: 1, kind: OperandKind::Implied },
            0xf9 => OpInfo { text: "SPHL", length: 1, kind: OperandKind::Implied },
            0xfa => OpInfo { text: "JM    $", length: 3, kind: OperandKind::Word },
            0xfb => OpInfo { text: "EI", length: 1, kind: OperandKind::Implied },
            0xfc => OpInfo { text: "CM    $", length: 3, kind: OperandKind::Word },
            0xfe => OpInfo { text: "CPI   #$", length: 2, kind: OperandKind::Byte },
            0xff => OpInfo { text: "RST   7", length: 1, kind: OperandKind::Implied },
            _ => OpInfo { text: "NOP", length: 1, kind: OperandKind::Implied },
    }
}

} // verus!
