//! Laws of the instruction set that relate several operations, proved over
//! the transforms of [`crate::model`].

use vstd::prelude::*;
use crate::emulator::{EmuView, Flags8080, RegPair};
use crate::model::{
    add_carry, flags_from_byte, hi8, lo8, make16, psw_byte, sadd_a, sadv, sget_rp, sop,
    spec_step, spop16_state, spop16_val, spush16, sset_rp, ssub_a, sub_borrow, wrap_add16,
    wrap_add8, wrap_sub16, wrap_sub8,
};

verus! {

/// The opcode values the 8080 leaves unassigned.
pub open spec fn unassigned(op: u8) -> bool {
    op == 0x08 || op == 0x10 || op == 0x18 || op == 0x20 || op == 0x28 || op == 0x30 || op == 0x38
        || op == 0xcb || op == 0xd9 || op == 0xdd || op == 0xed || op == 0xfd
}

/// An unassigned opcode executes as a one-byte no-op: the program counter
/// advances by one and nothing else in the state moves.
pub proof fn lemma_unassigned_is_no_op(s: EmuView)
    requires
        s.wf(),
        unassigned(sop(s)),
    ensures
        spec_step(s) == sadv(s, 1),
{
}

/// Adding a byte to the accumulator and subtracting the same byte again
/// restores the accumulator, for every starting state and every operand —
/// both steps taken without carry-in, so the CY flag left by the first
/// step cannot leak into the second.
pub proof fn lemma_add_sub_round_trip(s: EmuView, v: u8)
    ensures
        ssub_a(sadd_a(s, v, false), v, false).ra == s.ra,
{
    assert(wrap_sub8(wrap_add8(s.ra, v, 0), v, 0) == s.ra);
}

/// The comparison rule of [`crate::emulator::Emulator8080::carry`] agrees
/// with true 9th-bit carry detection for an addition without carry-in: the
/// wrapped sum fell below the first operand exactly when the wide sum
/// overflowed 8 bits.
pub proof fn lemma_carry_matches_add(a: u8, b: u8)
    ensures
        (wrap_add8(a, b, 0) < a) == add_carry(a, b, 0),
{
}

/// The comparison rule agrees with true borrow detection for a subtraction
/// without borrow-in: the wrapped difference rose above the first operand
/// exactly when a borrow occurred.
pub proof fn lemma_carry_matches_sub(a: u8, b: u8)
    ensures
        (wrap_sub8(a, b, 0) > a) == sub_borrow(a, b, 0),
{
}

/// Splitting a 16-bit value into its bytes and joining them again is the
/// identity.
pub proof fn lemma_split_join(v: u16)
    ensures
        make16(hi8(v), lo8(v)) == v,
{
}

/// Stepping the stack pointer down by two and up by two again returns it
/// to its starting value, wrapping included.
pub proof fn lemma_sp_round_trip(sp: u16)
    ensures
        wrap_add16(wrap_sub16(sp, 2), 2) == sp,
{
}

/// A 16-bit push followed by a pop yields back the pushed value and
/// returns the stack pointer to its starting value, for every starting
/// state, stack pointer and value — the stack round-trip invariant behind
/// `PUSH r` / `POP r`.
pub proof fn lemma_push_pop(s: EmuView, v: u16)
    requires
        s.wf(),
    ensures
        spop16_val(spush16(s, v)) == v,
        spop16_state(spush16(s, v)).sp == s.sp,
{
    let pushed = spush16(s, v);
    assert(wrap_add16(pushed.sp, 1) == wrap_sub16(s.sp, 1));
    assert(pushed.mem[wrap_sub16(s.sp, 1) as int] == hi8(v));
    assert(pushed.mem[wrap_sub16(s.sp, 2) as int] == lo8(v));
    lemma_split_join(v);
}

/// `PUSH r` then `POP r` restores the register pair exactly and leaves the
/// stack pointer where it started, for every state and every pair.
pub proof fn lemma_push_pop_pair(s: EmuView, rp: RegPair)
    requires
        s.wf(),
    ensures
        ({
            let pushed = spush16(s, sget_rp(s, rp));
            let restored = sset_rp(spop16_state(pushed), rp, spop16_val(pushed));
            sget_rp(restored, rp) == sget_rp(s, rp) && restored.sp == s.sp
        }),
{
    lemma_push_pop(s, sget_rp(s, rp));
    lemma_split_join(sget_rp(s, rp));
}

/// The flag byte written by `PUSH PSW` decodes back to the same five
/// flags under `POP PSW`: the PSW round trip loses nothing.
pub proof fn lemma_flags_byte_round_trip(f: Flags8080)
    ensures
        flags_from_byte(psw_byte(f)) == f,
{
    let sb: u8 = if f.s {
        1
    } else {
        0
    };
    let zb: u8 = if f.z {
        1
    } else {
        0
    };
    let ab: u8 = if f.ac {
        1
    } else {
        0
    };
    let pb: u8 = if f.p {
        1
    } else {
        0
    };
    let cb: u8 = if f.cy {
        1
    } else {
        0
    };
    let x: u8 = (128 * sb + 64 * zb + 16 * ab + 4 * pb + 2 + cb) as u8;
    assert(x == psw_byte(f));
    assert((x & 128 != 0) == (sb == 1) && (x & 64 != 0) == (zb == 1) && (x & 16 != 0) == (ab == 1)
        && (x & 4 != 0) == (pb == 1) && (x & 1 != 0) == (cb == 1)) by (bit_vector)
        requires
            sb <= 1 && zb <= 1 && ab <= 1 && pb <= 1 && cb <= 1,
            x == 128 * sb + 64 * zb + 16 * ab + 4 * pb + 2 + cb,
    ;
}

/// `PUSH PSW` then `POP PSW` restores the accumulator and all five flags,
/// and leaves the stack pointer where it started.
pub proof fn lemma_push_pop_psw(s: EmuView)
    requires
        s.wf(),
    ensures
        ({
            let pushed = spush16(s, make16(s.ra, psw_byte(s.flags)));
            hi8(spop16_val(pushed)) == s.ra && flags_from_byte(lo8(spop16_val(pushed))) == s.flags
                && spop16_state(pushed).sp == s.sp
        }),
{
    lemma_push_pop(s, make16(s.ra, psw_byte(s.flags)));
    lemma_flags_byte_round_trip(s.flags);
}

} // verus!
