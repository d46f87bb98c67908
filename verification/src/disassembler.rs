//! A pure disassembler over the shared decode table: it renders one line
//! per instruction instead of executing effects, and never mutates state.

use vstd::prelude::*;
use vstd::string::StringExecFns;
use crate::MEMORY_SIZE;
use crate::decode::{decode, spec_len, spec_text};

verus! {

/// The lower-case hex digit of a value below 16.
pub open spec fn spec_hex_digit(v: u8) -> Seq<char> {
    if v == 0 {
        "0"@
    } else if v == 1 {
        "1"@
    } else if v == 2 {
        "2"@
    } else if v == 3 {
        "3"@
    } else if v == 4 {
        "4"@
    } else if v == 5 {
        "5"@
    } else if v == 6 {
        "6"@
    } else if v == 7 {
        "7"@
    } else if v == 8 {
        "8"@
    } else if v == 9 {
        "9"@
    } else if v == 10 {
        "a"@
    } else if v == 11 {
        "b"@
    } else if v == 12 {
        "c"@
    } else if v == 13 {
        "d"@
    } else if v == 14 {
        "e"@
    } else {
        "f"@
    }
}

/// A byte rendered as two lower-case hex digits, high nibble first.
pub open spec fn spec_hex2(b: u8) -> Seq<char> {
    spec_hex_digit(b / 16) + spec_hex_digit(b % 16)
}

/// The rendered line of the instruction at `pc`: the decode-table text,
/// then the trailing operand bytes as hex — for a 16-bit operand the high
/// byte before the low byte, the reverse of their order in the stream.
pub open spec fn spec_line(mem: Seq<u8>, pc: int) -> Seq<char>
    recommends
        0 <= pc,
        pc + spec_len(mem[pc]) <= mem.len(),
{
    let op = mem[pc];
    if spec_len(op) == 2 {
        spec_text(op) + spec_hex2(mem[pc + 1])
    } else if spec_len(op) == 3 {
        spec_text(op) + spec_hex2(mem[pc + 2]) + spec_hex2(mem[pc + 1])
    } else {
        spec_text(op)
    }
}

/// Every instruction line of the stream from `pc` on, stopping at the end
/// of the buffer or at the first instruction whose operand bytes would run
/// past it.
pub open spec fn spec_disasm(mem: Seq<u8>, pc: int) -> Seq<Seq<char>>
    decreases mem.len() - pc,
        when 0 <= pc <= mem.len()
{
    if pc >= mem.len() || pc + spec_len(mem[pc]) > mem.len() {
        Seq::empty()
    } else {
        seq![spec_line(mem, pc)] + spec_disasm(mem, pc + spec_len(mem[pc]))
    }
}

/// The hex digit of a nibble, as text.
fn hex_digit(v: u8) -> (r: &'static str)
    requires
        v < 16,
    ensures
        r@ == spec_hex_digit(v),
{
    if v == 0 {
        "0"
    } else if v == 1 {
        "1"
    } else if v == 2 {
        "2"
    } else if v == 3 {
        "3"
    } else if v == 4 {
        "4"
    } else if v == 5 {
        "5"
    } else if v == 6 {
        "6"
    } else if v == 7 {
        "7"
    } else if v == 8 {
        "8"
    } else if v == 9 {
        "9"
    } else if v == 10 {
        "a"
    } else if v == 11 {
        "b"
    } else if v == 12 {
        "c"
    } else if v == 13 {
        "d"
    } else if v == 14 {
        "e"
    } else {
        "f"
    }
}

/// Append a byte to `line` as two lower-case hex digits.
fn push_hex2(line: &mut String, b: u8)
    ensures
        final(line)@ == old(line)@ + spec_hex2(b),
{
    line.append(hex_digit(b / 16));
    line.append(hex_digit(b % 16));
    proof {
        assert(final(line)@ == old(line)@ + spec_hex2(b)) by {
            assert(old(line)@ + spec_hex_digit(b / 16) + spec_hex_digit(b % 16) =~= old(line)@
                + spec_hex2(b));
        }
    }
}

/// Disassemble the instruction at `pc` in `buffer`: its rendered text line
/// and its encoded length, so the caller can advance to the next
/// instruction. Reads only the bytes of this instruction; the caller keeps
/// `pc` and the operand bytes inside the buffer.
pub fn disassemble_8080_op(buffer: &Vec<u8>, pc: usize) -> (r: (String, u16))
    requires
        pc < buffer@.len(),
        pc + spec_len(buffer@[pc as int]) <= buffer@.len(),
    ensures
        r.1 == spec_len(buffer@[pc as int]),
        r.0@ == spec_line(buffer@, pc as int),
{
    let n = buffer.len();
    let op = buffer[pc];
    let info = decode(op);
    let mut line = info.text.to_owned();
    if info.length == 2 {
        assert(pc + 1 < n);
        let b = buffer[pc + 1];
        push_hex2(&mut line, b);
    } else if info.length == 3 {
        assert(pc + 2 < n);
        let b3 = buffer[pc + 2];
        let b2 = buffer[pc + 1];
        push_hex2(&mut line, b3);
        push_hex2(&mut line, b2);
    }
    (line, info.length)
}

/// Disassemble a whole image: one rendered line per instruction, from
/// address 0 to the end of the buffer, stopping early if a final truncated
/// instruction would read past it. Pure: where the lines go is the
/// caller's business.
pub fn disassemble_program(buffer: &Vec<u8>) -> (r: Vec<String>)
    requires
        buffer@.len() <= MEMORY_SIZE,
    ensures
        r@.map_values(|s: String| s@) == spec_disasm(buffer@, 0),
{
    let mut lines: Vec<String> = Vec::new();
    let mut pc: usize = 0;
    loop
        invariant
            pc <= buffer@.len() <= MEMORY_SIZE,
            lines@.map_values(|s: String| s@) + spec_disasm(buffer@, pc as int) == spec_disasm(
                buffer@,
                0,
            ),
        ensures
            lines@.map_values(|s: String| s@) == spec_disasm(buffer@, 0),
        decreases buffer@.len() - pc,
    {
        if pc >= buffer.len() {
            proof {
                assert(lines@.map_values(|s: String| s@) + spec_disasm(buffer@, pc as int)
                    =~= lines@.map_values(|s: String| s@));
            }
            break ;
        }
        let info = decode(buffer[pc]);
        if pc + info.length as usize > buffer.len() {
            proof {
                assert(lines@.map_values(|s: String| s@) + spec_disasm(buffer@, pc as int)
                    =~= lines@.map_values(|s: String| s@));
            }
            break ;
        }
        let (line, len) = disassemble_8080_op(buffer, pc);
        proof {
            assert(lines@.push(line).map_values(|s: String| s@) + spec_disasm(
                buffer@,
                pc + spec_len(buffer@[pc as int]),
            ) =~= lines@.map_values(|s: String| s@) + spec_disasm(buffer@, pc as int));
        }
        lines.push(line);
        pc = pc + len as usize;
    }
    lines
}

} // verus!
