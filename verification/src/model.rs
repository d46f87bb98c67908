//! Mathematical model of the 8080: wrapping arithmetic, flag rules, and the
//! per-instruction state transform `spec_step` that the execution engine is
//! proved to implement.

use vstd::prelude::*;
use crate::emulator::{EmuView, Flags8080, RegPair};

verus! {

// ---------------------------------------------------------------------------
// Wrapping arithmetic and carry rules
// ---------------------------------------------------------------------------

/// 8-bit addition of `a + b + c` (with `c` the incoming carry bit), wrapping
/// modulo 256.
pub open spec fn wrap_add8(a: u8, b: u8, c: u8) -> u8 {
    if a + b + c > 255 {
        (a + b + c - 256) as u8
    } else {
        (a + b + c) as u8
    }
}

/// 8-bit subtraction of `a - b - c` (with `c` the incoming borrow bit),
/// wrapping modulo 256.
pub open spec fn wrap_sub8(a: u8, b: u8, c: u8) -> u8 {
    if a >= b + c {
        (a - b - c) as u8
    } else {
        (a + 256 - b - c) as u8
    }
}

/// 16-bit addition wrapping modulo 65536.
pub open spec fn wrap_add16(a: u16, b: u16) -> u16 {
    if a + b > 0xffff {
        (a + b - 0x10000) as u16
    } else {
        (a + b) as u16
    }
}

/// 16-bit subtraction wrapping modulo 65536.
pub open spec fn wrap_sub16(a: u16, b: u16) -> u16 {
    if a >= b {
        (a - b) as u16
    } else {
        (a + 0x10000 - b) as u16
    }
}

/// The carry flag of an addition `a + b + c`: true iff the 9th bit carries.
pub open spec fn add_carry(a: u8, b: u8, c: u8) -> bool {
    a + b + c > 255
}

/// The auxiliary-carry flag of an addition: true iff the low nibbles plus
/// the incoming carry overflow past bit 3.
pub open spec fn add_aux_carry(a: u8, b: u8, c: u8) -> bool {
    (a % 16) + (b % 16) + c > 15
}

/// The carry flag of a subtraction `a - b - c`: true iff a borrow occurs.
pub open spec fn sub_borrow(a: u8, b: u8, c: u8) -> bool {
    (a as int) < b + c
}

/// The auxiliary-carry flag of a subtraction: true iff the low nibble of `a`
/// needs a borrow to subtract the low nibble of `b` plus the incoming borrow.
pub open spec fn sub_aux_borrow(a: u8, b: u8, c: u8) -> bool {
    ((a % 16) as int) < (b % 16) + c
}

/// Two bytes combined into the 16-bit value `(high << 8) | low`.
pub open spec fn make16(hi: u8, lo: u8) -> u16 {
    (hi * 256 + lo) as u16
}

/// High byte of a 16-bit value.
pub open spec fn hi8(v: u16) -> u8 {
    (v / 256) as u8
}

/// Low byte of a 16-bit value.
pub open spec fn lo8(v: u16) -> u8 {
    (v % 256) as u8
}

// ---------------------------------------------------------------------------
// Flag records
// ---------------------------------------------------------------------------

/// Number of set bits in a byte.
pub open spec fn popcount(v: u8) -> int {
    ((v >> 0) & 1) + ((v >> 1) & 1) + ((v >> 2) & 1) + ((v >> 3) & 1) + ((v >> 4) & 1) + ((v >> 5)
        & 1) + ((v >> 6) & 1) + ((v >> 7) & 1)
}

/// The parity flag value: even number of set bits.
pub open spec fn spec_parity(v: u8) -> bool {
    popcount(v) % 2 == 0
}

/// The sign flag value: bit 7 set.
pub open spec fn spec_sign(v: u8) -> bool {
    v & 0x80 != 0
}

/// The zero flag value.
pub open spec fn spec_zero(v: u8) -> bool {
    v == 0
}

/// Flags after an addition `a + b + c`: Z, S, P from the wrapped result,
/// AC and CY from the nibble and byte carries.
pub open spec fn flags_add(a: u8, b: u8, c: u8) -> Flags8080 {
    let r = wrap_add8(a, b, c);
    Flags8080 {
        z: spec_zero(r),
        s: spec_sign(r),
        p: spec_parity(r),
        ac: add_aux_carry(a, b, c),
        cy: add_carry(a, b, c),
    }
}

/// Flags after a subtraction `a - b - c`: Z, S, P from the wrapped result,
/// AC and CY from the nibble and byte borrows.
pub open spec fn flags_sub(a: u8, b: u8, c: u8) -> Flags8080 {
    let r = wrap_sub8(a, b, c);
    Flags8080 {
        z: spec_zero(r),
        s: spec_sign(r),
        p: spec_parity(r),
        ac: sub_aux_borrow(a, b, c),
        cy: sub_borrow(a, b, c),
    }
}

/// Flags after a bitwise operation with result `r`: Z, S, P from the result,
/// AC and CY cleared.
pub open spec fn flags_logic(r: u8) -> Flags8080 {
    Flags8080 { z: spec_zero(r), s: spec_sign(r), p: spec_parity(r), ac: false, cy: false }
}

/// The PSW flag byte pushed by `PUSH PSW`: S Z 0 AC 0 P 1 CY from bit 7 down
/// to bit 0 (bit 1 always reads as 1, bits 3 and 5 as 0).
pub open spec fn psw_byte(f: Flags8080) -> u8 {
    ((if f.s {
        128int
    } else {
        0int
    }) + (if f.z {
        64int
    } else {
        0int
    }) + (if f.ac {
        16int
    } else {
        0int
    }) + (if f.p {
        4int
    } else {
        0int
    }) + 2 + (if f.cy {
        1int
    } else {
        0int
    })) as u8
}

/// The flags recovered from a PSW flag byte by `POP PSW`.
pub open spec fn flags_from_byte(b: u8) -> Flags8080 {
    Flags8080 {
        z: b & 64 != 0,
        s: b & 128 != 0,
        p: b & 4 != 0,
        ac: b & 16 != 0,
        cy: b & 1 != 0,
    }
}

// ---------------------------------------------------------------------------
// State access
// ---------------------------------------------------------------------------

/// The opcode byte under the program counter.
pub open spec fn sop(s: EmuView) -> u8 {
    s.mem[s.pc as int]
}

/// The byte after the opcode, read as an 8-bit immediate.
pub open spec fn simm8(s: EmuView) -> u8 {
    s.mem[wrap_add16(s.pc, 1) as int]
}

/// The two bytes after the opcode, low byte first in the stream, combined
/// into `(high << 8) | low`.
pub open spec fn simm16(s: EmuView) -> u16 {
    make16(s.mem[wrap_add16(s.pc, 2) as int], s.mem[wrap_add16(s.pc, 1) as int])
}

/// The H:L pair read as a 16-bit memory address.
pub open spec fn shl(s: EmuView) -> u16 {
    make16(s.rh, s.rl)
}

/// The register pair selected by the two-bit field of an opcode:
/// 0 is B:C, 1 is D:E, 2 is H:L, 3 is SP.
pub open spec fn srp_of(idx: u8) -> RegPair {
    if idx == 0 {
        RegPair::BC
    } else if idx == 1 {
        RegPair::DE
    } else if idx == 2 {
        RegPair::HL
    } else {
        RegPair::SP
    }
}

/// The value of a register pair.
pub open spec fn sget_rp(s: EmuView, rp: RegPair) -> u16 {
    match rp {
        RegPair::BC => make16(s.rb, s.rc),
        RegPair::DE => make16(s.rd, s.re),
        RegPair::HL => make16(s.rh, s.rl),
        RegPair::SP => s.sp,
    }
}

/// The state with a register pair set to `v`: both backing registers are
/// written together.
pub open spec fn sset_rp(s: EmuView, rp: RegPair, v: u16) -> EmuView {
    match rp {
        RegPair::BC => EmuView { rb: hi8(v), rc: lo8(v), ..s },
        RegPair::DE => EmuView { rd: hi8(v), re: lo8(v), ..s },
        RegPair::HL => EmuView { rh: hi8(v), rl: lo8(v), ..s },
        RegPair::SP => EmuView { sp: v, ..s },
    }
}

/// The 8-bit operand selected by a three-bit register field of an opcode:
/// B, C, D, E, H, L, the byte at address H:L, A.
pub open spec fn sget_r(s: EmuView, idx: u8) -> u8 {
    if idx == 0 {
        s.rb
    } else if idx == 1 {
        s.rc
    } else if idx == 2 {
        s.rd
    } else if idx == 3 {
        s.re
    } else if idx == 4 {
        s.rh
    } else if idx == 5 {
        s.rl
    } else if idx == 6 {
        s.mem[shl(s) as int]
    } else {
        s.ra
    }
}

/// The state with the 8-bit operand of a three-bit register field written;
/// index 6 stores to memory at H:L.
pub open spec fn sset_r(s: EmuView, idx: u8, v: u8) -> EmuView {
    if idx == 0 {
        EmuView { rb: v, ..s }
    } else if idx == 1 {
        EmuView { rc: v, ..s }
    } else if idx == 2 {
        EmuView { rd: v, ..s }
    } else if idx == 3 {
        EmuView { re: v, ..s }
    } else if idx == 4 {
        EmuView { rh: v, ..s }
    } else if idx == 5 {
        EmuView { rl: v, ..s }
    } else if idx == 6 {
        EmuView { mem: s.mem.update(shl(s) as int, v), ..s }
    } else {
        EmuView { ra: v, ..s }
    }
}

/// The state with one memory byte written.
pub open spec fn swrite(s: EmuView, addr: u16, v: u8) -> EmuView {
    EmuView { mem: s.mem.update(addr as int, v), ..s }
}

/// The state with the program counter advanced by `n`, wrapping.
pub open spec fn sadv(s: EmuView, n: u16) -> EmuView {
    EmuView { pc: wrap_add16(s.pc, n), ..s }
}

/// The state with the program counter set to `pc`.
pub open spec fn with_pc(s: EmuView, pc: u16) -> EmuView {
    EmuView { pc, ..s }
}

/// The branch condition selected by a three-bit condition field:
/// NZ, Z, NC, C, PO, PE, P, M.
pub open spec fn scond(s: EmuView, idx: u8) -> bool {
    if idx == 0 {
        !s.flags.z
    } else if idx == 1 {
        s.flags.z
    } else if idx == 2 {
        !s.flags.cy
    } else if idx == 3 {
        s.flags.cy
    } else if idx == 4 {
        !s.flags.p
    } else if idx == 5 {
        s.flags.p
    } else if idx == 6 {
        !s.flags.s
    } else {
        s.flags.s
    }
}

// ---------------------------------------------------------------------------
// Instruction effects
// ---------------------------------------------------------------------------

/// `ADD`/`ADC` family: accumulator plus `v` plus the optional carry-in,
/// all five flags recomputed.
pub open spec fn sadd_a(s: EmuView, v: u8, with_carry: bool) -> EmuView {
    let c: u8 = if with_carry && s.flags.cy {
        1
    } else {
        0
    };
    EmuView { ra: wrap_add8(s.ra, v, c), flags: flags_add(s.ra, v, c), ..s }
}

/// `SUB`/`SBB` family: accumulator minus `v` minus the optional borrow-in,
/// all five flags recomputed.
pub open spec fn ssub_a(s: EmuView, v: u8, with_borrow: bool) -> EmuView {
    let c: u8 = if with_borrow && s.flags.cy {
        1
    } else {
        0
    };
    EmuView { ra: wrap_sub8(s.ra, v, c), flags: flags_sub(s.ra, v, c), ..s }
}

/// `CMP` family: the flags of `A - v`, with the accumulator kept.
pub open spec fn scmp_a(s: EmuView, v: u8) -> EmuView {
    EmuView { flags: flags_sub(s.ra, v, 0), ..s }
}

/// `ANA`/`XRA`/`ORA` family: accumulator replaced by the bitwise result `r`,
/// Z, S, P recomputed, AC and CY cleared.
pub open spec fn slog_a(s: EmuView, r: u8) -> EmuView {
    EmuView { ra: r, flags: flags_logic(r), ..s }
}

/// One arithmetic-group or logical-group operation, selected by the
/// three-bit field of opcodes `0x80`..`0xbf` and of the immediate forms:
/// ADD, ADC, SUB, SBB, ANA, XRA, ORA, CMP.
pub open spec fn salu(s: EmuView, k: u8, v: u8) -> EmuView {
    if k == 0 {
        sadd_a(s, v, false)
    } else if k == 1 {
        sadd_a(s, v, true)
    } else if k == 2 {
        ssub_a(s, v, false)
    } else if k == 3 {
        ssub_a(s, v, true)
    } else if k == 4 {
        slog_a(s, s.ra & v)
    } else if k == 5 {
        slog_a(s, s.ra ^ v)
    } else if k == 6 {
        slog_a(s, s.ra | v)
    } else {
        scmp_a(s, v)
    }
}

/// `INR`: the operand incremented; Z, S, P, AC recomputed, CY kept.
pub open spec fn sinr(s: EmuView, idx: u8) -> EmuView {
    let x = sget_r(s, idx);
    let s1 = sset_r(s, idx, wrap_add8(x, 1, 0));
    EmuView { flags: Flags8080 { cy: s.flags.cy, ..flags_add(x, 1, 0) }, ..s1 }
}

/// `DCR`: the operand decremented; Z, S, P, AC recomputed, CY kept.
pub open spec fn sdcr(s: EmuView, idx: u8) -> EmuView {
    let x = sget_r(s, idx);
    let s1 = sset_r(s, idx, wrap_sub8(x, 1, 0));
    EmuView { flags: Flags8080 { cy: s.flags.cy, ..flags_sub(x, 1, 0) }, ..s1 }
}

/// `DAD`: H:L plus a register pair, 16-bit wrapping; CY reports the 16-bit
/// overflow and no other flag moves.
pub open spec fn sdad(s: EmuView, rp: RegPair) -> EmuView {
    let a = shl(s);
    let b = sget_rp(s, rp);
    let s1 = sset_rp(s, RegPair::HL, wrap_add16(a, b));
    EmuView { flags: Flags8080 { cy: a + b > 0xffff, ..s.flags }, ..s1 }
}

/// `DAA`: the accumulator re-encoded as packed BCD. If the low nibble
/// exceeds 9 or AC is set, 6 is added; if the high nibble then exceeds 9 or
/// CY is set, 0x60 is added. AC reports the low-nibble carry of the first
/// step; CY is set by a carry out of the second step and never cleared.
pub open spec fn sdaa(s: EmuView) -> EmuView {
    let a = s.ra;
    let adj_lo: u8 = if (a % 16) > 9 || s.flags.ac {
        6
    } else {
        0
    };
    let a1 = wrap_add8(a, adj_lo, 0);
    let ac1 = add_aux_carry(a, adj_lo, 0);
    let adj_hi: u8 = if (a1 / 16) > 9 || s.flags.cy {
        0x60
    } else {
        0
    };
    let a2 = wrap_add8(a1, adj_hi, 0);
    let cy1 = s.flags.cy || add_carry(a1, adj_hi, 0);
    EmuView {
        ra: a2,
        flags: Flags8080 {
            z: spec_zero(a2),
            s: spec_sign(a2),
            p: spec_parity(a2),
            ac: ac1,
            cy: cy1,
        },
        ..s
    }
}

/// A 16-bit push: the high byte goes to `sp - 1`, the low byte to `sp - 2`,
/// and `sp` drops by two, all wrapping.
pub open spec fn spush16(s: EmuView, v: u16) -> EmuView {
    let sp1 = wrap_sub16(s.sp, 1);
    let sp2 = wrap_sub16(s.sp, 2);
    EmuView { sp: sp2, mem: s.mem.update(sp1 as int, hi8(v)).update(sp2 as int, lo8(v)), ..s }
}

/// The 16-bit value a pop reads: low byte at `sp`, high byte at `sp + 1`.
pub open spec fn spop16_val(s: EmuView) -> u16 {
    make16(s.mem[wrap_add16(s.sp, 1) as int], s.mem[s.sp as int])
}

/// The state after a pop: `sp` rises by two and nothing else moves.
pub open spec fn spop16_state(s: EmuView) -> EmuView {
    EmuView { sp: wrap_add16(s.sp, 2), ..s }
}

/// `RLC`: rotate the accumulator left one bit, circular; CY takes the bit
/// that wrapped around. Rotates move no other flag.
pub open spec fn srlc(s: EmuView) -> EmuView {
    EmuView {
        ra: (s.ra << 1) | (s.ra >> 7),
        flags: Flags8080 { cy: s.ra >> 7 != 0, ..s.flags },
        ..s
    }
}

/// `RRC`: rotate the accumulator right one bit, circular; CY takes the bit
/// that wrapped around.
pub open spec fn srrc(s: EmuView) -> EmuView {
    EmuView {
        ra: (s.ra >> 1) | (s.ra << 7),
        flags: Flags8080 { cy: s.ra & 1 != 0, ..s.flags },
        ..s
    }
}

/// `RAL`: rotate left through the carry: CY shifts into bit 0 and bit 7
/// shifts into CY.
pub open spec fn sral(s: EmuView) -> EmuView {
    EmuView {
        ra: (s.ra << 1) | (if s.flags.cy {
            1u8
        } else {
            0u8
        }),
        flags: Flags8080 { cy: s.ra >> 7 != 0, ..s.flags },
        ..s
    }
}

/// `RAR`: rotate right through the carry: CY shifts into bit 7 and bit 0
/// shifts into CY.
pub open spec fn srar(s: EmuView) -> EmuView {
    EmuView {
        ra: (s.ra >> 1) | (if s.flags.cy {
            0x80u8
        } else {
            0u8
        }),
        flags: Flags8080 { cy: s.ra & 1 != 0, ..s.flags },
        ..s
    }
}

// ---------------------------------------------------------------------------
// The step relation
// ---------------------------------------------------------------------------

/// Effect of one opcode in `0x00`..`0x3f`: the data-transfer and
/// register-pair rows, the rotates, `DAA` and the carry toggles.
/// Unassigned codes in this range act as one-byte no-ops.
pub open spec fn sstep_misc(s: EmuView, op: u8) -> EmuView {
    let col = op % 16;
    if col == 1 {
        sadv(sset_rp(s, srp_of((op / 16) % 4), simm16(s)), 3)
    } else if col == 3 {
        let rp = srp_of((op / 16) % 4);
        sadv(sset_rp(s, rp, wrap_add16(sget_rp(s, rp), 1)), 1)
    } else if col == 11 {
        let rp = srp_of((op / 16) % 4);
        sadv(sset_rp(s, rp, wrap_sub16(sget_rp(s, rp), 1)), 1)
    } else if col == 9 {
        sadv(sdad(s, srp_of((op / 16) % 4)), 1)
    } else if col == 4 || col == 12 {
        sadv(sinr(s, (op / 8) % 8), 1)
    } else if col == 5 || col == 13 {
        sadv(sdcr(s, (op / 8) % 8), 1)
    } else if col == 6 || col == 14 {
        sadv(sset_r(s, (op / 8) % 8, simm8(s)), 2)
    } else if op == 0x02 {
        sadv(swrite(s, sget_rp(s, RegPair::BC), s.ra), 1)
    } else if op == 0x12 {
        sadv(swrite(s, sget_rp(s, RegPair::DE), s.ra), 1)
    } else if op == 0x0a {
        sadv(EmuView { ra: s.mem[sget_rp(s, RegPair::BC) as int], ..s }, 1)
    } else if op == 0x1a {
        sadv(EmuView { ra: s.mem[sget_rp(s, RegPair::DE) as int], ..s }, 1)
    } else if op == 0x22 {
        let a = simm16(s);
        sadv(swrite(swrite(s, a, s.rl), wrap_add16(a, 1), s.rh), 3)
    } else if op == 0x2a {
        let a = simm16(s);
        sadv(EmuView { rl: s.mem[a as int], rh: s.mem[wrap_add16(a, 1) as int], ..s }, 3)
    } else if op == 0x32 {
        sadv(swrite(s, simm16(s), s.ra), 3)
    } else if op == 0x3a {
        sadv(EmuView { ra: s.mem[simm16(s) as int], ..s }, 3)
    } else if op == 0x07 {
        sadv(srlc(s), 1)
    } else if op == 0x17 {
        sadv(sral(s), 1)
    } else if op == 0x27 {
        sadv(sdaa(s), 1)
    } else if op == 0x37 {
        sadv(EmuView { flags: Flags8080 { cy: true, ..s.flags }, ..s }, 1)
    } else if op == 0x0f {
        sadv(srrc(s), 1)
    } else if op == 0x1f {
        sadv(srar(s), 1)
    } else if op == 0x2f {
        sadv(EmuView { ra: !s.ra, ..s }, 1)
    } else if op == 0x3f {
        sadv(EmuView { flags: Flags8080 { cy: !s.flags.cy, ..s.flags }, ..s }, 1)
    } else {
        sadv(s, 1)
    }
}

/// Effect of one opcode in `0x40`..`0x7f`: the `MOV` block, with `HLT` in
/// the slot `MOV M, M` would occupy.
pub open spec fn sstep_mov(s: EmuView, op: u8) -> EmuView {
    if op == 0x76 {
        EmuView { halted: true, ..sadv(s, 1) }
    } else {
        sadv(sset_r(s, (op / 8) % 8, sget_r(s, op % 8)), 1)
    }
}

/// Effect of one opcode in `0x80`..`0xbf`: the register and memory forms of
/// the arithmetic and logical groups.
pub open spec fn sstep_alu(s: EmuView, op: u8) -> EmuView {
    sadv(salu(s, (op / 8) % 8, sget_r(s, op % 8)), 1)
}

/// Effect of one opcode in `0xc0`..`0xff`: branches, calls, returns, the
/// stack group, the immediate arithmetic forms, and the control latches.
/// Unassigned codes in this range act as one-byte no-ops.
pub open spec fn sstep_ctrl(s: EmuView, op: u8) -> EmuView {
    let col = op % 16;
    if col == 0 || col == 8 {
        if scond(s, (op / 8) % 8) {
            with_pc(spop16_state(s), spop16_val(s))
        } else {
            sadv(s, 1)
        }
    } else if col == 2 || col == 10 {
        if scond(s, (op / 8) % 8) {
            with_pc(s, simm16(s))
        } else {
            sadv(s, 3)
        }
    } else if col == 4 || col == 12 {
        if scond(s, (op / 8) % 8) {
            with_pc(spush16(s, wrap_add16(s.pc, 3)), simm16(s))
        } else {
            sadv(s, 3)
        }
    } else if col == 6 || col == 14 {
        sadv(salu(s, (op / 8) % 8, simm8(s)), 2)
    } else if col == 7 || col == 15 {
        with_pc(spush16(s, wrap_add16(s.pc, 1)), (((op / 8) % 8) * 8) as u16)
    } else if col == 1 {
        if op == 0xf1 {
            let v = spop16_val(s);
            sadv(EmuView { ra: hi8(v), flags: flags_from_byte(lo8(v)), ..spop16_state(s) }, 1)
        } else {
            sadv(sset_rp(spop16_state(s), srp_of((op / 16) % 4), spop16_val(s)), 1)
        }
    } else if col == 5 {
        if op == 0xf5 {
            sadv(spush16(s, make16(s.ra, psw_byte(s.flags))), 1)
        } else {
            sadv(spush16(s, sget_rp(s, srp_of((op / 16) % 4))), 1)
        }
    } else if op == 0xc3 {
        with_pc(s, simm16(s))
    } else if op == 0xc9 {
        with_pc(spop16_state(s), spop16_val(s))
    } else if op == 0xcd {
        with_pc(spush16(s, wrap_add16(s.pc, 3)), simm16(s))
    } else if op == 0xd3 {
        sadv(s, 2)
    } else if op == 0xdb {
        sadv(s, 2)
    } else if op == 0xe3 {
        let sp1 = wrap_add16(s.sp, 1);
        sadv(
            EmuView {
                rl: s.mem[s.sp as int],
                rh: s.mem[sp1 as int],
                mem: s.mem.update(s.sp as int, s.rl).update(sp1 as int, s.rh),
                ..s
            },
            1,
        )
    } else if op == 0xe9 {
        with_pc(s, shl(s))
    } else if op == 0xeb {
        sadv(EmuView { rh: s.rd, rl: s.re, rd: s.rh, re: s.rl, ..s }, 1)
    } else if op == 0xf3 {
        sadv(EmuView { enable: false, ..s }, 1)
    } else if op == 0xf9 {
        sadv(EmuView { sp: shl(s), ..s }, 1)
    } else if op == 0xfb {
        sadv(EmuView { enable: true, ..s }, 1)
    } else {
        sadv(s, 1)
    }
}

/// Effect of one instruction on the whole processor state: fetch the byte
/// under the program counter, apply its documented effect, and advance or
/// redirect the counter. Total over all 256 opcode values; unassigned codes
/// are one-byte no-ops.
pub open spec fn spec_step(s: EmuView) -> EmuView {
    let op = sop(s);
    if op < 0x40 {
        sstep_misc(s, op)
    } else if op < 0x80 {
        sstep_mov(s, op)
    } else if op < 0xc0 {
        sstep_alu(s, op)
    } else {
        sstep_ctrl(s, op)
    }
}

/// The driving loop, unrolled `fuel` times at most: step until the halt
/// latch is set or the program counter leaves the loaded image of `end`
/// bytes.
pub open spec fn spec_run(s: EmuView, end: u16, fuel: nat) -> EmuView
    decreases fuel,
{
    if fuel == 0 || s.halted || s.pc >= end {
        s
    } else {
        spec_run(spec_step(s), end, (fuel - 1) as nat)
    }
}

} // verus!
