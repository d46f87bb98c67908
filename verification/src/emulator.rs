//! Processor state, flag primitives, and the execution engine of the 8080.
//!
//! Every mutating method is proved against the transforms of [`crate::model`];
//! the engine entry point [`Emulator8080::emulate_instruction`] implements
//! [`crate::model::spec_step`] exactly and returns the decoded length of the
//! instruction it executed.

use vstd::prelude::*;
use crate::MEMORY_SIZE;
use crate::decode::spec_len;
use crate::model::{
    add_aux_carry, flags_add, flags_sub, hi8, lo8, make16, sadd_a, sadv, salu, scmp_a, scond,
    sdaa, sdad, sdcr, sget_r, sget_rp, shl, simm16, simm8, sinr, slog_a, sop, spec_parity,
    spec_run, spec_sign, spec_step, spec_zero, spop16_state, spop16_val, spush16, sral, srar,
    srlc, srp_of, srrc, sset_r, sset_rp, ssub_a, sub_aux_borrow, swrite, wrap_add16, wrap_add8,
    wrap_sub16, wrap_sub8,
};

verus! {

/// One of the 16-bit register pairs: B:C, D:E, H:L, or the stack pointer.
#[derive(Clone, Copy, Debug)]
pub enum RegPair {
    BC,
    DE,
    HL,
    SP,
}

/// The five 8080 condition flags.
#[derive(Clone, Copy, Debug, PartialEq, Eq, Structural)]
pub struct Flags8080 {
    /// Zero flag: the last affecting result was 0.
    pub z: bool,
    /// Sign flag: bit 7 of the last affecting result.
    pub s: bool,
    /// Parity flag: the last affecting result has an even number of set bits.
    pub p: bool,
    /// Auxiliary carry: carry or borrow across the low-nibble boundary.
    pub ac: bool,
    /// Carry flag: carry out of, or borrow into, bit 7.
    pub cy: bool,
}

impl Flags8080 {
    /// All flags cleared, the reset state.
    pub fn new() -> (r: Self)
        ensures
            r == (Flags8080 { z: false, s: false, p: false, ac: false, cy: false }),
    {
        Self { z: false, s: false, p: false, ac: false, cy: false }
    }
}

/// Ghost image of the whole processor state, used by every contract.
#[verifier::ext_equal]
pub ghost struct EmuView {
    pub pc: u16,
    pub sp: u16,
    pub ra: u8,
    pub rb: u8,
    pub rc: u8,
    pub rd: u8,
    pub re: u8,
    pub rh: u8,
    pub rl: u8,
    pub flags: Flags8080,
    pub mem: Seq<u8>,
    pub enable: bool,
    pub halted: bool,
}

impl EmuView {
    /// Well-formed states carry exactly the 64 KiB the address space reaches.
    pub open spec fn wf(self) -> bool {
        self.mem.len() == MEMORY_SIZE
    }
}

/// The 8080 processor state: registers, flags, stack pointer, program
/// counter, the flat memory image, the interrupt-enable latch, and the halt
/// latch set by `HLT`.
#[derive(Debug)]
pub struct Emulator8080 {
    /// Program counter.
    pub pc: u16,
    /// Stack pointer.
    pub sp: u16,
    /// Register A, the accumulator.
    pub ra: u8,
    /// Register B.
    pub rb: u8,
    /// Register C.
    pub rc: u8,
    /// Register D.
    pub rd: u8,
    /// Register E.
    pub re: u8,
    /// Register H.
    pub rh: u8,
    /// Register L.
    pub rl: u8,
    /// Condition flags.
    pub flags: Flags8080,
    /// The flat 64 KiB memory image.
    pub memory: Vec<u8>,
    /// Interrupt-enable latch, toggled by `EI` and `DI`.
    pub enable: bool,
    /// Set once `HLT` executes; the run loop stops here.
    pub halted: bool,
}

impl View for Emulator8080 {
    type V = EmuView;

    open spec fn view(&self) -> EmuView {
        EmuView {
            pc: self.pc,
            sp: self.sp,
            ra: self.ra,
            rb: self.rb,
            rc: self.rc,
            rd: self.rd,
            re: self.re,
            rh: self.rh,
            rl: self.rl,
            flags: self.flags,
            mem: self.memory@,
            enable: self.enable,
            halted: self.halted,
        }
    }
}

// ---------------------------------------------------------------------------
// Wrapping arithmetic, computed on widened intermediates
// ---------------------------------------------------------------------------

/// 8-bit wrapping addition with a carry-in bit, computed in 16 bits so the
/// carry is read off the widened sum rather than the truncated result.
fn wadd8(a: u8, b: u8, c: u8) -> (r: u8)
    requires
        c <= 1,
    ensures
        r == wrap_add8(a, b, c),
{
    let wide: u16 = a as u16 + b as u16 + c as u16;
    if wide > 255 {
        (wide - 256) as u8
    } else {
        wide as u8
    }
}

/// 8-bit wrapping subtraction with a borrow-in bit.
fn wsub8(a: u8, b: u8, c: u8) -> (r: u8)
    requires
        c <= 1,
    ensures
        r == wrap_sub8(a, b, c),
{
    let bc: u16 = b as u16 + c as u16;
    if a as u16 >= bc {
        (a as u16 - bc) as u8
    } else {
        (a as u16 + 256 - bc) as u8
    }
}

/// 16-bit wrapping addition, computed in 32 bits.
fn wadd16(a: u16, b: u16) -> (r: u16)
    ensures
        r == wrap_add16(a, b),
{
    let wide: u32 = a as u32 + b as u32;
    if wide > 0xffff {
        (wide - 0x10000) as u16
    } else {
        wide as u16
    }
}

/// 16-bit wrapping subtraction.
fn wsub16(a: u16, b: u16) -> (r: u16)
    ensures
        r == wrap_sub16(a, b),
{
    if a >= b {
        a - b
    } else {
        let wide: u32 = a as u32 + 0x10000 - b as u32;
        wide as u16
    }
}

/// Two bytes joined as `(high << 8) | low`.
fn join16(hi: u8, lo: u8) -> (r: u16)
    ensures
        r == make16(hi, lo),
{
    hi as u16 * 256 + lo as u16
}

/// High byte of a 16-bit value.
fn hi_byte(v: u16) -> (r: u8)
    ensures
        r == hi8(v),
{
    (v / 256) as u8
}

/// Low byte of a 16-bit value.
fn lo_byte(v: u16) -> (r: u8)
    ensures
        r == lo8(v),
{
    (v % 256) as u8
}

// ---------------------------------------------------------------------------
// Flag primitives
// ---------------------------------------------------------------------------

impl Emulator8080 {
    /// The states this library works on: memory covers the address space.
    pub open spec fn wf(&self) -> bool {
        self@.wf()
    }

    /// A zeroed processor with blank memory: the reset state.
    pub fn empty() -> (r: Self)
        ensures
            r.wf(),
            r.pc == 0 && r.sp == 0,
            r.ra == 0 && r.rb == 0 && r.rc == 0 && r.rd == 0 && r.re == 0 && r.rh == 0 && r.rl
                == 0,
            r.flags == (Flags8080 { z: false, s: false, p: false, ac: false, cy: false }),
            forall|i: int| 0 <= i < r@.mem.len() ==> r@.mem[i] == 0,
            r.enable,
            !r.halted,
    {
        Self {
            pc: 0,
            sp: 0,
            ra: 0,
            rb: 0,
            rc: 0,
            rd: 0,
            re: 0,
            rl: 0,
            rh: 0,
            flags: Flags8080::new(),
            memory: vec![0u8; MEMORY_SIZE],
            enable: true,
            halted: false,
        }
    }

    /// The parity check used by the P flag: true on an even number of set
    /// bits in `value`.
    pub fn parity(value: u8) -> (r: bool)
        ensures
            r == spec_parity(value),
    {
        let mut folded: u8 = value ^ (value >> 4);
        folded = folded ^ (folded >> 2);
        folded = folded ^ (folded >> 1);
        let r = (!folded & 0x1) != 0;
        proof {
            assert(r == spec_parity(value)) by (bit_vector)
                requires
                    folded == ((value ^ (value >> 4)) ^ ((value ^ (value >> 4)) >> 2)) ^ (((value
                        ^ (value >> 4)) ^ ((value ^ (value >> 4)) >> 2)) >> 1),
                    r == ((!folded & 0x1) != 0),
            ;
        }
        r
    }

    /// The sign flag of a result: true iff bit 7 is set.
    pub fn sign(value: u8) -> (r: bool)
        ensures
            r == spec_sign(value),
            r == ((value & 0x80) != 0),
    {
        (value & 0x80) != 0
    }

    /// The zero flag of a result.
    pub fn zero(value: u8) -> (r: bool)
        ensures
            r == spec_zero(value),
            r == (value == 0),
    {
        value == 0
    }

    /// Comparison-based carry detection over an already-wrapped result:
    /// after an addition the 8-bit result wrapped below the pre-operation
    /// operand exactly when the 9th bit carried, and after a subtraction it
    /// wrapped above it exactly when a borrow occurred. Exact for
    /// operations without a carry-in; see
    /// [`crate::props::lemma_carry_matches_add`].
    pub fn carry(value: u8, compare_to: u8, subtraction: bool) -> (r: bool)
        ensures
            r == if subtraction {
                value > compare_to
            } else {
                value < compare_to
            },
    {
        if subtraction {
            value > compare_to
        } else {
            value < compare_to
        }
    }

    /// The auxiliary-carry flag of `a + b + carry_in` (or of the borrow
    /// form when `subtraction` is set), computed from the low nibbles of
    /// both operands plus the incoming carry bit.
    pub fn aux_carry(a: u8, b: u8, carry_in: bool, subtraction: bool) -> (r: bool)
        ensures
            r == if subtraction {
                sub_aux_borrow(a, b, if carry_in { 1u8 } else { 0u8 })
            } else {
                add_aux_carry(a, b, if carry_in { 1u8 } else { 0u8 })
            },
    {
        let c: u8 = if carry_in {
            1
        } else {
            0
        };
        if subtraction {
            (a % 16) < (b % 16) + c
        } else {
            (a % 16) + (b % 16) + c > 15
        }
    }

    /// Recompute Z, S and P from `result` and set AC and CY to the carries
    /// the caller derived from its operands. Each instruction passes
    /// exactly the flags it documents affecting; a kept flag is passed
    /// back unchanged.
    fn set_flags(&mut self, result: u8, ac: bool, cy: bool)
        ensures
            final(self)@ == (EmuView {
                flags: Flags8080 {
                    z: spec_zero(result),
                    s: spec_sign(result),
                    p: spec_parity(result),
                    ac: ac,
                    cy: cy,
                },
                ..old(self)@
            }),
    {
        self.flags.z = Self::zero(result);
        self.flags.s = Self::sign(result);
        self.flags.p = Self::parity(result);
        self.flags.ac = ac;
        self.flags.cy = cy;
    }
}

// ---------------------------------------------------------------------------
// State access
// ---------------------------------------------------------------------------

impl Emulator8080 {
    /// One byte of memory.
    fn read_mem(&self, addr: u16) -> (r: u8)
        requires
            self.wf(),
        ensures
            r == self@.mem[addr as int],
    {
        self.memory[addr as usize]
    }

    /// Store one byte of memory.
    fn write_mem(&mut self, addr: u16, v: u8)
        requires
            old(self).wf(),
        ensures
            final(self)@.wf(),
            final(self)@ == swrite(old(self)@, addr, v),
    {
        self.memory.set(addr as usize, v);
    }

    /// The address held in H:L.
    fn get_address(&self) -> (r: u16)
        ensures
            r == shl(self@),
    {
        join16(self.rh, self.rl)
    }

    /// The register pair a two-bit opcode field selects.
    fn rp_of(idx: u8) -> (r: RegPair)
        ensures
            r == srp_of(idx),
    {
        if idx == 0 {
            RegPair::BC
        } else if idx == 1 {
            RegPair::DE
        } else if idx == 2 {
            RegPair::HL
        } else {
            RegPair::SP
        }
    }

    /// The content of `reg_pair` as one 16-bit value.
    fn get_reg_pair(&self, reg_pair: RegPair) -> (r: u16)
        ensures
            r == sget_rp(self@, reg_pair),
    {
        match reg_pair {
            RegPair::BC => join16(self.rb, self.rc),
            RegPair::DE => join16(self.rd, self.re),
            RegPair::HL => join16(self.rh, self.rl),
            RegPair::SP => self.sp,
        }
    }

    /// Set `reg_pair` to `value`: both backing registers are written, so no
    /// caller can observe a half-updated pair.
    fn set_reg_pair(&mut self, value: u16, reg_pair: RegPair)
        ensures
            final(self)@ == sset_rp(old(self)@, reg_pair, value),
    {
        let hi = hi_byte(value);
        let lo = lo_byte(value);
        match reg_pair {
            RegPair::BC => {
                self.rb = hi;
                self.rc = lo;
            },
            RegPair::DE => {
                self.rd = hi;
                self.re = lo;
            },
            RegPair::HL => {
                self.rh = hi;
                self.rl = lo;
            },
            RegPair::SP => {
                self.sp = value;
            },
        }
    }

    /// The 8-bit operand a three-bit opcode field selects; index 6 reads
    /// memory at H:L.
    fn get_reg8(&self, idx: u8) -> (r: u8)
        requires
            idx < 8,
            self.wf(),
        ensures
            r == sget_r(self@, idx),
    {
        if idx == 0 {
            self.rb
        } else if idx == 1 {
            self.rc
        } else if idx == 2 {
            self.rd
        } else if idx == 3 {
            self.re
        } else if idx == 4 {
            self.rh
        } else if idx == 5 {
            self.rl
        } else if idx == 6 {
            self.read_mem(self.get_address())
        } else {
            self.ra
        }
    }

    /// Write the 8-bit operand a three-bit opcode field selects; index 6
    /// stores to memory at H:L.
    fn set_reg8(&mut self, idx: u8, v: u8)
        requires
            idx < 8,
            old(self).wf(),
        ensures
            final(self)@.wf(),
            final(self)@ == sset_r(old(self)@, idx, v),
    {
        if idx == 0 {
            self.rb = v;
        } else if idx == 1 {
            self.rc = v;
        } else if idx == 2 {
            self.rd = v;
        } else if idx == 3 {
            self.re = v;
        } else if idx == 4 {
            self.rh = v;
        } else if idx == 5 {
            self.rl = v;
        } else if idx == 6 {
            let a = self.get_address();
            self.write_mem(a, v);
        } else {
            self.ra = v;
        }
    }

    /// The 8-bit immediate after the opcode.
    fn read_imm8(&self) -> (r: u8)
        requires
            self.wf(),
        ensures
            r == simm8(self@),
    {
        self.read_mem(wadd16(self.pc, 1))
    }

    /// The 16-bit immediate or address after the opcode: low byte first in
    /// the stream, recombined as `(high << 8) | low`.
    fn read_imm16(&self) -> (r: u16)
        requires
            self.wf(),
        ensures
            r == simm16(self@),
    {
        let lo = self.read_mem(wadd16(self.pc, 1));
        let hi = self.read_mem(wadd16(self.pc, 2));
        join16(hi, lo)
    }

    /// Advance the program counter past the instruction.
    fn adv(&mut self, n: u16)
        ensures
            final(self)@ == sadv(old(self)@, n),
    {
        self.pc = wadd16(self.pc, n);
    }

    /// Push a 16-bit value: high byte to `sp - 1`, low byte to `sp - 2`,
    /// `sp` down by two.
    fn push16(&mut self, v: u16)
        requires
            old(self).wf(),
        ensures
            final(self)@.wf(),
            final(self)@ == spush16(old(self)@, v),
    {
        let sp1 = wsub16(self.sp, 1);
        let sp2 = wsub16(self.sp, 2);
        let hi = hi_byte(v);
        let lo = lo_byte(v);
        self.write_mem(sp1, hi);
        self.write_mem(sp2, lo);
        self.sp = sp2;
    }

    /// Pop a 16-bit value: low byte from `sp`, high byte from `sp + 1`,
    /// `sp` up by two.
    fn pop16(&mut self) -> (r: u16)
        requires
            old(self).wf(),
        ensures
            final(self)@.wf(),
            r == spop16_val(old(self)@),
            final(self)@ == spop16_state(old(self)@),
    {
        let lo = self.read_mem(self.sp);
        let hi = self.read_mem(wadd16(self.sp, 1));
        self.sp = wadd16(self.sp, 2);
        join16(hi, lo)
    }

    /// The branch condition a three-bit opcode field selects:
    /// NZ, Z, NC, C, PO, PE, P, M.
    fn test_cond(&self, idx: u8) -> (r: bool)
        requires
            idx < 8,
        ensures
            r == scond(self@, idx),
    {
        if idx == 0 {
            !self.flags.z
        } else if idx == 1 {
            self.flags.z
        } else if idx == 2 {
            !self.flags.cy
        } else if idx == 3 {
            self.flags.cy
        } else if idx == 4 {
            !self.flags.p
        } else if idx == 5 {
            self.flags.p
        } else if idx == 6 {
            !self.flags.s
        } else {
            self.flags.s
        }
    }
}

// ---------------------------------------------------------------------------
// Arithmetic group
// ---------------------------------------------------------------------------

impl Emulator8080 {
    /// `lhs + rhs`, plus the CY flag when `with_carry` is set, wrapping.
    fn add(&self, lhs: u8, rhs: u8, with_carry: bool) -> (r: u8)
        ensures
            r == wrap_add8(
                lhs,
                rhs,
                if with_carry && self.flags.cy {
                    1u8
                } else {
                    0u8
                },
            ),
    {
        let c: u8 = if with_carry && self.flags.cy {
            1
        } else {
            0
        };
        wadd8(lhs, rhs, c)
    }

    /// `lhs - rhs`, minus the CY flag when `with_borrow` is set, wrapping.
    fn sub(&self, lhs: u8, rhs: u8, with_borrow: bool) -> (r: u8)
        ensures
            r == wrap_sub8(
                lhs,
                rhs,
                if with_borrow && self.flags.cy {
                    1u8
                } else {
                    0u8
                },
            ),
    {
        let c: u8 = if with_borrow && self.flags.cy {
            1
        } else {
            0
        };
        wsub8(lhs, rhs, c)
    }

    /// `ADD`/`ADC`/`ADI`/`ACI`: add `value` (plus CY when `with_carry`) to
    /// the accumulator; Z, S, P, AC and CY are all recomputed.
    pub fn add_a(&mut self, value: u8, with_carry: bool)
        ensures
            final(self)@ == sadd_a(old(self)@, value, with_carry),
    {
        let c: u8 = if with_carry && self.flags.cy {
            1
        } else {
            0
        };
        let result = self.add(self.ra, value, with_carry);
        let ac = Self::aux_carry(self.ra, value, c == 1, false);
        let cy = self.ra as u16 + value as u16 + c as u16 > 255;
        self.set_flags(result, ac, cy);
        self.ra = result;
    }

    /// `ADD M`/`ADC M`: add the byte at address H:L to the accumulator.
    pub fn add_mem(&mut self, with_carry: bool)
        requires
            old(self).wf(),
        ensures
            final(self)@.wf(),
            final(self)@ == sadd_a(old(self)@, sget_r(old(self)@, 6), with_carry),
    {
        let address = self.get_address();
        let v = self.read_mem(address);
        self.add_a(v, with_carry);
    }

    /// `SUB`/`SBB`/`SUI`/`SBI`: subtract `value` (plus CY when
    /// `with_borrow`) from the accumulator; Z, S, P, AC and CY are all
    /// recomputed.
    pub fn sub_a(&mut self, value: u8, with_borrow: bool)
        ensures
            final(self)@ == ssub_a(old(self)@, value, with_borrow),
    {
        let c: u8 = if with_borrow && self.flags.cy {
            1
        } else {
            0
        };
        let result = self.sub(self.ra, value, with_borrow);
        let ac = Self::aux_carry(self.ra, value, c == 1, true);
        let cy = (self.ra as u16) < value as u16 + c as u16;
        self.set_flags(result, ac, cy);
        self.ra = result;
    }

    /// `SUB M`/`SBB M`: subtract the byte at address H:L from the
    /// accumulator.
    pub fn sub_mem(&mut self, with_borrow: bool)
        requires
            old(self).wf(),
        ensures
            final(self)@.wf(),
            final(self)@ == ssub_a(old(self)@, sget_r(old(self)@, 6), with_borrow),
    {
        let address = self.get_address();
        let v = self.read_mem(address);
        self.sub_a(v, with_borrow);
    }

    /// `INR` on a register value: returns the incremented byte and sets
    /// Z, S, P and AC from it; CY is never touched by `INR`.
    pub fn inc_reg(&mut self, reg: u8) -> (r: u8)
        ensures
            r == wrap_add8(reg, 1, 0),
            final(self)@ == (EmuView {
                flags: Flags8080 { cy: old(self)@.flags.cy, ..flags_add(reg, 1, 0) },
                ..old(self)@
            }),
    {
        let result = self.add(reg, 1, false);
        let ac = Self::aux_carry(reg, 1, false, false);
        let cy = self.flags.cy;
        self.set_flags(result, ac, cy);
        result
    }

    /// `INR M`: increment the byte at address H:L in place; Z, S, P and AC
    /// are recomputed and CY is kept.
    pub fn inc_mem(&mut self)
        requires
            old(self).wf(),
        ensures
            final(self)@.wf(),
            final(self)@ == sinr(old(self)@, 6),
    {
        let address = self.get_address();
        let value = self.read_mem(address);
        let result = self.inc_reg(value);
        self.write_mem(address, result);
    }

    /// `DCR` on a register value: returns the decremented byte and sets
    /// Z, S, P and AC from it; CY is never touched by `DCR`.
    pub fn dec_reg(&mut self, reg: u8) -> (r: u8)
        ensures
            r == wrap_sub8(reg, 1, 0),
            final(self)@ == (EmuView {
                flags: Flags8080 { cy: old(self)@.flags.cy, ..flags_sub(reg, 1, 0) },
                ..old(self)@
            }),
    {
        let result = self.sub(reg, 1, false);
        let ac = Self::aux_carry(reg, 1, false, true);
        let cy = self.flags.cy;
        self.set_flags(result, ac, cy);
        result
    }

    /// `DCR M`: decrement the byte at address H:L in place; Z, S, P and AC
    /// are recomputed and CY is kept.
    pub fn dec_mem(&mut self)
        requires
            old(self).wf(),
        ensures
            final(self)@.wf(),
            final(self)@ == sdcr(old(self)@, 6),
    {
        let address = self.get_address();
        let value = self.read_mem(address);
        let result = self.dec_reg(value);
        self.write_mem(address, result);
    }

    /// The 16-bit value of `rh:rl` incremented or decremented, wrapping.
    fn get_inc_or_dec_reg_pair(rh: u8, rl: u8, increment: bool) -> (r: u16)
        ensures
            r == if increment {
                wrap_add16(make16(rh, rl), 1)
            } else {
                wrap_sub16(make16(rh, rl), 1)
            },
    {
        let value = join16(rh, rl);
        if increment {
            wadd16(value, 1)
        } else {
            wsub16(value, 1)
        }
    }

    /// `INX`/`DCX`: step a register pair up or down by one, wrapping at
    /// both ends of the 16-bit range. No flag moves.
    pub fn inc_or_dec_reg_pair(&mut self, reg_pair: RegPair, increment: bool)
        ensures
            final(self)@ == sset_rp(
                old(self)@,
                reg_pair,
                if increment {
                    wrap_add16(sget_rp(old(self)@, reg_pair), 1)
                } else {
                    wrap_sub16(sget_rp(old(self)@, reg_pair), 1)
                },
            ),
            final(self).flags == old(self).flags,
    {
        match reg_pair {
            RegPair::BC => {
                let result = Self::get_inc_or_dec_reg_pair(self.rb, self.rc, increment);
                self.set_reg_pair(result, RegPair::BC);
            },
            RegPair::DE => {
                let result = Self::get_inc_or_dec_reg_pair(self.rd, self.re, increment);
                self.set_reg_pair(result, RegPair::DE);
            },
            RegPair::HL => {
                let result = Self::get_inc_or_dec_reg_pair(self.rh, self.rl, increment);
                self.set_reg_pair(result, RegPair::HL);
            },
            RegPair::SP => {
                if increment {
                    self.sp = wadd16(self.sp, 1);
                } else {
                    self.sp = wsub16(self.sp, 1);
                }
            },
        }
    }

    /// `DAD`: add `reg_pair` into H:L, wrapping at 16 bits. CY reports
    /// whether the unwrapped sum exceeds `0xffff`; no other flag moves.
    pub fn dad(&mut self, reg_pair: RegPair)
        ensures
            final(self)@ == sdad(old(self)@, reg_pair),
            final(self).flags.cy == (shl(old(self)@) + sget_rp(old(self)@, reg_pair) > 0xffff),
            final(self).flags.z == old(self).flags.z && final(self).flags.s == old(self).flags.s
                && final(self).flags.p == old(self).flags.p && final(self).flags.ac == old(self).flags.ac,
    {
        let a = self.get_reg_pair(RegPair::HL);
        let b = self.get_reg_pair(reg_pair);
        let wide: u32 = a as u32 + b as u32;
        self.flags.cy = wide > 0xffff;
        let result = if wide > 0xffff {
            (wide - 0x10000) as u16
        } else {
            wide as u16
        };
        self.set_reg_pair(result, RegPair::HL);
    }

    /// `DAA`: adjust the accumulator to packed BCD. If the low nibble
    /// exceeds 9 or AC is set, 6 is added (AC reports that step's nibble
    /// carry); if the high nibble then exceeds 9 or CY is set, `0x60` is
    /// added (a carry out of that step sets CY, which is never cleared).
    pub fn daa(&mut self)
        ensures
            final(self)@ == sdaa(old(self)@),
    {
        let a = self.ra;
        let adj_lo: u8 = if (a % 16) > 9 || self.flags.ac {
            6
        } else {
            0
        };
        let a1 = wadd8(a, adj_lo, 0);
        let ac1 = (a % 16) + (adj_lo % 16) > 15;
        let adj_hi: u8 = if (a1 / 16) > 9 || self.flags.cy {
            0x60
        } else {
            0
        };
        let a2 = wadd8(a1, adj_hi, 0);
        let cy1 = self.flags.cy || a1 as u16 + adj_hi as u16 > 255;
        self.set_flags(a2, ac1, cy1);
        self.ra = a2;
    }
}

// ---------------------------------------------------------------------------
// Logical group
// ---------------------------------------------------------------------------

impl Emulator8080 {
    /// `ANA`/`ANI`: accumulator AND `value`; Z, S, P recomputed, AC and CY
    /// cleared.
    pub fn ana_a(&mut self, value: u8)
        ensures
            final(self)@ == slog_a(old(self)@, old(self).ra & value),
    {
        let r = self.ra & value;
        self.set_flags(r, false, false);
        self.ra = r;
    }

    /// `XRA`/`XRI`: accumulator XOR `value`; Z, S, P recomputed, AC and CY
    /// cleared.
    pub fn xra_a(&mut self, value: u8)
        ensures
            final(self)@ == slog_a(old(self)@, old(self).ra ^ value),
    {
        let r = self.ra ^ value;
        self.set_flags(r, false, false);
        self.ra = r;
    }

    /// `ORA`/`ORI`: accumulator OR `value`; Z, S, P recomputed, AC and CY
    /// cleared.
    pub fn ora_a(&mut self, value: u8)
        ensures
            final(self)@ == slog_a(old(self)@, old(self).ra | value),
    {
        let r = self.ra | value;
        self.set_flags(r, false, false);
        self.ra = r;
    }

    /// `CMP`/`CPI`: the flags of `A - value`, with the accumulator kept.
    pub fn cmp_a(&mut self, value: u8)
        ensures
            final(self)@ == scmp_a(old(self)@, value),
    {
        let result = wsub8(self.ra, value, 0);
        let ac = Self::aux_carry(self.ra, value, false, true);
        let cy = (self.ra as u16) < (value as u16);
        self.set_flags(result, ac, cy);
    }

    /// `RLC`: rotate the accumulator left, circular; CY takes the wrapped
    /// bit. No other flag moves.
    pub fn rlc(&mut self)
        ensures
            final(self)@ == srlc(old(self)@),
    {
        let a = self.ra;
        self.flags.cy = (a >> 7) != 0;
        self.ra = (a << 1) | (a >> 7);
    }

    /// `RRC`: rotate the accumulator right, circular; CY takes the wrapped
    /// bit.
    pub fn rrc(&mut self)
        ensures
            final(self)@ == srrc(old(self)@),
    {
        let a = self.ra;
        self.flags.cy = (a & 1) != 0;
        self.ra = (a >> 1) | (a << 7);
    }

    /// `RAL`: rotate left through the carry.
    pub fn ral(&mut self)
        ensures
            final(self)@ == sral(old(self)@),
    {
        let a = self.ra;
        let c: u8 = if self.flags.cy {
            1
        } else {
            0
        };
        self.flags.cy = (a >> 7) != 0;
        self.ra = (a << 1) | c;
    }

    /// `RAR`: rotate right through the carry.
    pub fn rar(&mut self)
        ensures
            final(self)@ == srar(old(self)@),
    {
        let a = self.ra;
        let c: u8 = if self.flags.cy {
            0x80
        } else {
            0
        };
        self.flags.cy = (a & 1) != 0;
        self.ra = (a >> 1) | c;
    }
}

// ---------------------------------------------------------------------------
// The execution engine
// ---------------------------------------------------------------------------

impl Emulator8080 {
    /// Opcodes `0x00`..`0x3f`: data transfers, register-pair steps, the
    /// rotates, `DAA` and the carry toggles.
    #[verifier::rlimit(60)]
    fn step_misc(&mut self, op: u8) -> (len: u16)
        requires
            old(self).wf(),
            op == sop(old(self)@),
            op < 0x40,
        ensures
            final(self)@.wf(),
            final(self)@ == spec_step(old(self)@),
            len == spec_len(op),
    {
        let col = op % 16;
        if col == 1 {
            let v = self.read_imm16();
            let rp = Self::rp_of((op / 16) % 4);
            self.set_reg_pair(v, rp);
            self.adv(3);
            3
        } else if col == 3 {
            let rp = Self::rp_of((op / 16) % 4);
            self.inc_or_dec_reg_pair(rp, true);
            self.adv(1);
            1
        } else if col == 11 {
            let rp = Self::rp_of((op / 16) % 4);
            self.inc_or_dec_reg_pair(rp, false);
            self.adv(1);
            1
        } else if col == 9 {
            let rp = Self::rp_of((op / 16) % 4);
            self.dad(rp);
            self.adv(1);
            1
        } else if col == 4 || col == 12 {
            let idx = (op / 8) % 8;
            if idx == 6 {
                self.inc_mem();
            } else {
                let x = self.get_reg8(idx);
                let r = self.inc_reg(x);
                self.set_reg8(idx, r);
            }
            self.adv(1);
            1
        } else if col == 5 || col == 13 {
            let idx = (op / 8) % 8;
            if idx == 6 {
                self.dec_mem();
            } else {
                let x = self.get_reg8(idx);
                let r = self.dec_reg(x);
                self.set_reg8(idx, r);
            }
            self.adv(1);
            1
        } else if col == 6 || col == 14 {
            let idx = (op / 8) % 8;
            let v = self.read_imm8();
            self.set_reg8(idx, v);
            self.adv(2);
            2
        } else if op == 0x02 {
            let a = self.get_reg_pair(RegPair::BC);
            let v = self.ra;
            self.write_mem(a, v);
            self.adv(1);
            1
        } else if op == 0x12 {
            let a = self.get_reg_pair(RegPair::DE);
            let v = self.ra;
            self.write_mem(a, v);
            self.adv(1);
            1
        } else if op == 0x0a {
            let a = self.get_reg_pair(RegPair::BC);
            self.ra = self.read_mem(a);
            self.adv(1);
            1
        } else if op == 0x1a {
            let a = self.get_reg_pair(RegPair::DE);
            self.ra = self.read_mem(a);
            self.adv(1);
            1
        } else if op == 0x22 {
            let a = self.read_imm16();
            let l = self.rl;
            let h = self.rh;
            self.write_mem(a, l);
            self.write_mem(wadd16(a, 1), h);
            self.adv(3);
            3
        } else if op == 0x2a {
            let a = self.read_imm16();
            self.rl = self.read_mem(a);
            self.rh = self.read_mem(wadd16(a, 1));
            self.adv(3);
            3
        } else if op == 0x32 {
            let a = self.read_imm16();
            let v = self.ra;
            self.write_mem(a, v);
            self.adv(3);
            3
        } else if op == 0x3a {
            let a = self.read_imm16();
            self.ra = self.read_mem(a);
            self.adv(3);
            3
        } else if op == 0x07 {
            self.rlc();
            self.adv(1);
            1
        } else if op == 0x17 {
            self.ral();
            self.adv(1);
            1
        } else if op == 0x27 {
            self.daa();
            self.adv(1);
            1
        } else if op == 0x37 {
            self.flags.cy = true;
            self.adv(1);
            1
        } else if op == 0x0f {
            self.rrc();
            self.adv(1);
            1
        } else if op == 0x1f {
            self.rar();
            self.adv(1);
            1
        } else if op == 0x2f {
            self.ra = !self.ra;
            self.adv(1);
            1
        } else if op == 0x3f {
            self.flags.cy = !self.flags.cy;
            self.adv(1);
            1
        } else {
            self.adv(1);
            1
        }
    }

    /// Opcodes `0x40`..`0x7f`: the `MOV` block, with `HLT` in the slot
    /// `MOV M, M` would occupy.
    fn step_mov(&mut self, op: u8) -> (len: u16)
        requires
            old(self).wf(),
            op == sop(old(self)@),
            0x40 <= op < 0x80,
        ensures
            final(self)@.wf(),
            final(self)@ == spec_step(old(self)@),
            len == spec_len(op),
    {
        if op == 0x76 {
            self.halted = true;
            self.adv(1);
            1
        } else {
            let src = op % 8;
            let dst = (op / 8) % 8;
            let v = self.get_reg8(src);
            self.set_reg8(dst, v);
            self.adv(1);
            1
        }
    }

    /// Opcodes `0x80`..`0xbf`: the register and memory forms of the
    /// arithmetic and logical groups.
    fn step_alu(&mut self, op: u8) -> (len: u16)
        requires
            old(self).wf(),
            op == sop(old(self)@),
            0x80 <= op < 0xc0,
        ensures
            final(self)@.wf(),
            final(self)@ == spec_step(old(self)@),
            len == spec_len(op),
    {
        let k = (op / 8) % 8;
        let v = self.get_reg8(op % 8);
        self.alu(k, v);
        self.adv(1);
        1
    }

    /// One arithmetic-group or logical-group operation against the
    /// accumulator, selected by the three-bit field shared by the register
    /// forms and the immediate forms.
    fn alu(&mut self, k: u8, v: u8)
        requires
            old(self).wf(),
        ensures
            final(self)@.wf(),
            final(self)@ == salu(old(self)@, k, v),
    {
        if k == 0 {
            self.add_a(v, false);
        } else if k == 1 {
            self.add_a(v, true);
        } else if k == 2 {
            self.sub_a(v, false);
        } else if k == 3 {
            self.sub_a(v, true);
        } else if k == 4 {
            self.ana_a(v);
        } else if k == 5 {
            self.xra_a(v);
        } else if k == 6 {
            self.ora_a(v);
        } else {
            self.cmp_a(v);
        }
    }

    /// Opcodes `0xc0`..`0xff`: branches, calls, returns, the stack group,
    /// the immediate arithmetic forms, and the control latches.
    #[verifier::rlimit(60)]
    fn step_ctrl(&mut self, op: u8) -> (len: u16)
        requires
            old(self).wf(),
            op == sop(old(self)@),
            0xc0 <= op,
        ensures
            final(self)@.wf(),
            final(self)@ == spec_step(old(self)@),
            len == spec_len(op),
    {
        let col = op % 16;
        if col == 0 || col == 8 {
            if self.test_cond((op / 8) % 8) {
                let t = self.pop16();
                self.pc = t;
            } else {
                self.adv(1);
            }
            1
        } else if col == 2 || col == 10 {
            let t = self.read_imm16();
            if self.test_cond((op / 8) % 8) {
                self.pc = t;
            } else {
                self.adv(3);
            }
            3
        } else if col == 4 || col == 12 {
            let t = self.read_imm16();
            if self.test_cond((op / 8) % 8) {
                let ret = wadd16(self.pc, 3);
                self.push16(ret);
                self.pc = t;
            } else {
                self.adv(3);
            }
            3
        } else if col == 6 || col == 14 {
            let k = (op / 8) % 8;
            let v = self.read_imm8();
            self.alu(k, v);
            self.adv(2);
            2
        } else if col == 7 || col == 15 {
            let ret = wadd16(self.pc, 1);
            self.push16(ret);
            self.pc = ((op / 8) % 8) as u16 * 8;
            1
        } else if col == 1 {
            if op == 0xf1 {
                let v = self.pop16();
                self.ra = hi_byte(v);
                let b = lo_byte(v);
                self.flags = Flags8080 {
                    z: b & 64 != 0,
                    s: b & 128 != 0,
                    p: b & 4 != 0,
                    ac: b & 16 != 0,
                    cy: b & 1 != 0,
                };
                self.adv(1);
                1
            } else {
                let v = self.pop16();
                let rp = Self::rp_of((op / 16) % 4);
                self.set_reg_pair(v, rp);
                self.adv(1);
                1
            }
        } else if col == 5 {
            if op == 0xf5 {
                let f = self.flags;
                let psw: u8 = (if f.s {
                    128
                } else {
                    0
                }) + (if f.z {
                    64
                } else {
                    0
                }) + (if f.ac {
                    16
                } else {
                    0
                }) + (if f.p {
                    4
                } else {
                    0
                }) + 2 + (if f.cy {
                    1
                } else {
                    0
                });
                let v = join16(self.ra, psw);
                self.push16(v);
                self.adv(1);
                1
            } else {
                let rp = Self::rp_of((op / 16) % 4);
                let v = self.get_reg_pair(rp);
                self.push16(v);
                self.adv(1);
                1
            }
        } else if op == 0xc3 {
            let t = self.read_imm16();
            self.pc = t;
            3
        } else if op == 0xc9 {
            let t = self.pop16();
            self.pc = t;
            1
        } else if op == 0xcd {
            let t = self.read_imm16();
            let ret = wadd16(self.pc, 3);
            self.push16(ret);
            self.pc = t;
            3
        } else if op == 0xd3 || op == 0xdb {
            self.adv(2);
            2
        } else if op == 0xe3 {
            let sp1 = wadd16(self.sp, 1);
            let ml = self.read_mem(self.sp);
            let mh = self.read_mem(sp1);
            let l = self.rl;
            let h = self.rh;
            let sp0 = self.sp;
            self.write_mem(sp0, l);
            self.write_mem(sp1, h);
            self.rl = ml;
            self.rh = mh;
            self.adv(1);
            1
        } else if op == 0xe9 {
            let t = self.get_address();
            self.pc = t;
            1
        } else if op == 0xeb {
            let h = self.rh;
            let l = self.rl;
            self.rh = self.rd;
            self.rl = self.re;
            self.rd = h;
            self.re = l;
            self.adv(1);
            1
        } else if op == 0xf3 {
            self.enable = false;
            self.adv(1);
            1
        } else if op == 0xf9 {
            let t = self.get_address();
            self.sp = t;
            self.adv(1);
            1
        } else if op == 0xfb {
            self.enable = true;
            self.adv(1);
            1
        } else {
            self.adv(1);
            1
        }
    }

    /// Execute the instruction under the program counter: decode the byte,
    /// apply its documented effect on registers, flags and memory, and
    /// advance or redirect the counter. Returns the instruction's encoded
    /// length — the same length [`crate::decode::decode`] predicts for the
    /// opcode — so a driver may account for the bytes consumed. Every
    /// opcode value is handled; codes the 8080 leaves unassigned execute
    /// as one-byte no-ops.
    pub fn emulate_instruction(&mut self) -> (len: u16)
        requires
            old(self).wf(),
        ensures
            final(self)@.wf(),
            final(self)@ == spec_step(old(self)@),
            len == spec_len(sop(old(self)@)),
    {
        let op = self.read_mem(self.pc);
        if op < 0x40 {
            self.step_misc(op)
        } else if op < 0x80 {
            self.step_mov(op)
        } else if op < 0xc0 {
            self.step_alu(op)
        } else {
            self.step_ctrl(op)
        }
    }

    /// Load a program image into memory starting at address 0, leaving the
    /// rest of memory as it was. An image larger than the address space is
    /// refused and the state is untouched; the caller reports that as a
    /// fatal load error.
    pub fn load(&mut self, image: &Vec<u8>) -> (ok: bool)
        requires
            old(self).wf(),
        ensures
            final(self)@.wf(),
            ok == (image@.len() <= MEMORY_SIZE),
            (EmuView { mem: old(self)@.mem, ..final(self)@ }) == old(self)@,
            ok ==> forall|i: int|
                0 <= i < image@.len() ==> final(self)@.mem[i] == image@[i],
            ok ==> forall|i: int|
                image@.len() <= i < MEMORY_SIZE ==> final(self)@.mem[i] == old(self)@.mem[i],
            !ok ==> final(self)@ == old(self)@,
    {
        if image.len() > MEMORY_SIZE {
            return false;
        }
        let mut i: usize = 0;
        while i < image.len()
            invariant
                self.wf(),
                i <= image@.len() <= MEMORY_SIZE,
                (EmuView { mem: old(self)@.mem, ..self@ }) == old(self)@,
                forall|j: int| 0 <= j < i ==> self@.mem[j] == image@[j],
                forall|j: int| i <= j < MEMORY_SIZE ==> self@.mem[j] == old(self)@.mem[j],
            decreases image@.len() - i,
        {
            let b = image[i];
            self.memory.set(i, b);
            i = i + 1;
        }
        true
    }

    /// Drive the engine: execute instructions until the halt latch is set,
    /// the program counter leaves the first `end` bytes of memory (the
    /// loaded image), or `max_steps` instructions have run — the cap makes
    /// the loop total even on images that never halt. Returns how many
    /// instructions ran.
    pub fn run(&mut self, end: u16, max_steps: u64) -> (steps: u64)
        requires
            old(self).wf(),
        ensures
            final(self)@.wf(),
            final(self)@ == spec_run(old(self)@, end, max_steps as nat),
            steps <= max_steps,
    {
        let mut steps: u64 = 0;
        while steps < max_steps && !self.halted && self.pc < end
            invariant
                self.wf(),
                steps <= max_steps,
                spec_run(old(self)@, end, max_steps as nat) == spec_run(
                    self@,
                    end,
                    (max_steps - steps) as nat,
                ),
            decreases max_steps - steps,
        {
            self.emulate_instruction();
            steps = steps + 1;
        }
        steps
    }
}

} // verus!
