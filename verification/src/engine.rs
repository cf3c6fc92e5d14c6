//! The decode-and-format engine.
//!
//! Given a byte buffer and a cursor, [`decode_one`] identifies the
//! instruction at the cursor, renders one listing line and returns the
//! instruction's total length so the caller can advance the cursor.
//! [`disassemble`] drives it sequentially from offset zero until the
//! cursor reaches the buffer length. A multi-byte instruction whose
//! operand bytes would lie past the end of the buffer is reported as a
//! [`TruncatedInstructionError`] rather than read out of bounds.
//!
//! One listing line has the shape
//! `AAAA OO PP QQ MNEMONIC OPERAND` followed, for relative branches
//! only, by a tabbed `; $TTTT` comment with the absolute target
//! address. `AAAA` is the display address (a configurable base address
//! plus the cursor, wrapped to 16 bits), `OO PP QQ` are the raw
//! instruction bytes with blank padding for the byte slots an
//! instruction does not use, and two-byte operands are printed high
//! byte first, that is in the reverse of the little-endian order in
//! which they are stored.

use vstd::arithmetic::div_mod::{lemma_fundamental_div_mod, lemma_mod_multiples_vanish};
use vstd::prelude::*;

use crate::hex::{
    push_hex2_lower, push_hex2_upper, push_hex4_lower, push_hex4_upper, spec_hex2_lower,
    spec_hex2_upper, spec_hex4_lower, spec_hex4_upper,
};
use crate::instr::{
    classify, mnemonic_str, mode_len, spec_classify, spec_instr_len, spec_mnemonic_view, AddrMode,
};

verus! {

/// The default display base address: the ROM load address that
/// listings assume unless a caller chooses another.
pub const DEFAULT_BASE_ADDRESS: u16 = 0x5000;

/// A decode step at the tail of the buffer needed operand bytes beyond
/// the buffer end: `needed` bytes were required at `cursor` but only
/// `available` remained.
#[derive(Clone, Copy, PartialEq, Eq, Structural, Debug)]
pub struct TruncatedInstructionError {
    pub cursor: usize,
    pub needed: usize,
    pub available: usize,
}

/// The operand byte of a relative branch read as a signed 8-bit
/// displacement.
pub open spec fn spec_sign_val(b: u8) -> int {
    if b < 128 {
        b as int
    } else {
        b as int - 256
    }
}

/// The address shown for the instruction at `cursor`: the base address
/// plus the cursor, wrapped to the 16-bit address space.
pub open spec fn spec_display_addr(base: u16, cursor: int) -> u16 {
    ((base + cursor) % 0x10000) as u16
}

/// The absolute target of a two-byte relative branch at `cursor`: the
/// address of the next instruction plus the signed displacement,
/// wrapped to the 16-bit address space.
pub open spec fn spec_branch_target(base: u16, cursor: int, operand: u8) -> u16 {
    ((base + cursor + 2 + spec_sign_val(operand)) % 0x10000) as u16
}

/// The operand text of an instruction, by addressing mode. Two-byte
/// operands print the second byte read (`b2`, the high byte) before
/// the first (`b1`).
pub open spec fn spec_operand_view(op: u8, mode: AddrMode, b1: u8, b2: u8) -> Seq<char> {
    match mode {
        AddrMode::Implied => Seq::empty(),
        AddrMode::Accumulator => " A"@,
        AddrMode::Immediate => " #$"@ + spec_hex2_lower(b1),
        AddrMode::ZeroPage => " $"@ + spec_hex2_lower(b1),
        AddrMode::ZeroPageX => " $"@ + spec_hex2_lower(b1) + ",X"@,
        AddrMode::ZeroPageY => " $"@ + spec_hex2_lower(b1) + ",Y"@,
        AddrMode::IndirectX => " ($"@ + spec_hex2_lower(b1) + ",X)"@,
        AddrMode::IndirectY => " ($"@ + spec_hex2_lower(b1) + "),Y"@,
        AddrMode::Relative => " $"@ + spec_hex2_lower(b1),
        AddrMode::Absolute => " $"@ + spec_hex2_lower(b2) + spec_hex2_lower(b1),
        AddrMode::AbsoluteX => " $"@ + spec_hex2_lower(b2) + spec_hex2_lower(b1) + ",X"@,
        AddrMode::AbsoluteY => " $"@ + spec_hex2_lower(b2) + spec_hex2_lower(b1) + ",Y"@,
        AddrMode::Indirect => " ($"@ + spec_hex2_lower(b2) + spec_hex2_lower(b1) + ")"@,
        AddrMode::Raw => " $"@ + spec_hex2_lower(op),
    }
}

/// The mnemonic and operand text of an instruction: a function of its
/// raw bytes alone, independent of where in the buffer they stand.
pub open spec fn spec_text_view(op: u8, b1: u8, b2: u8) -> Seq<char> {
    spec_mnemonic_view(spec_classify(op).0) + spec_operand_view(op, spec_classify(op).1, b1, b2)
}

/// The raw-byte field of a listing line: up to three two-digit byte
/// values, each followed by a space, with three blanks for each byte
/// slot the instruction does not use.
pub open spec fn spec_bytes_view(op: u8, len: int, b1: u8, b2: u8) -> Seq<char> {
    spec_hex2_upper(op) + " "@ + (if len >= 2 {
        spec_hex2_upper(b1) + " "@
    } else {
        "   "@
    }) + (if len >= 3 {
        spec_hex2_upper(b2) + " "@
    } else {
        "   "@
    })
}

/// The trailing target-address comment, present exactly for the
/// relative-branch instructions and empty otherwise.
pub open spec fn spec_annotation_view(base: u16, cursor: int, op: u8, b1: u8) -> Seq<char> {
    if spec_classify(op).1 == AddrMode::Relative {
        "\t\t; $"@ + spec_hex4_lower(spec_branch_target(base, cursor, b1))
    } else {
        Seq::empty()
    }
}

/// The operand byte at `cursor + 1`, meaningful for instructions of
/// length two or more.
pub open spec fn spec_byte1(buf: Seq<u8>, cursor: int) -> u8 {
    if spec_instr_len(buf[cursor]) >= 2 {
        buf[cursor + 1]
    } else {
        0u8
    }
}

/// The operand byte at `cursor + 2`, meaningful for instructions of
/// length three.
pub open spec fn spec_byte2(buf: Seq<u8>, cursor: int) -> u8 {
    if spec_instr_len(buf[cursor]) >= 3 {
        buf[cursor + 2]
    } else {
        0u8
    }
}

/// The full listing line for the instruction at `cursor`.
pub open spec fn spec_line_view(buf: Seq<u8>, cursor: int, base: u16) -> Seq<char> {
    let op = buf[cursor];
    let len = spec_instr_len(op);
    let b1 = spec_byte1(buf, cursor);
    let b2 = spec_byte2(buf, cursor);
    spec_hex4_upper(spec_display_addr(base, cursor)) + " "@ + spec_bytes_view(op, len, b1, b2)
        + spec_text_view(op, b1, b2) + spec_annotation_view(base, cursor, op, b1)
}

/// Whether a sequential pass from `cursor` reaches the buffer end
/// exactly, with every instruction's operand bytes in bounds.
pub open spec fn spec_pass_ok(buf: Seq<u8>, cursor: int) -> bool
    decreases buf.len() - cursor,
    when 0 <= cursor <= buf.len()
{
    if cursor == buf.len() {
        true
    } else if cursor + spec_instr_len(buf[cursor]) > buf.len() {
        false
    } else {
        spec_pass_ok(buf, cursor + spec_instr_len(buf[cursor]))
    }
}

/// The listing lines a pass from `cursor` produces, up to the buffer
/// end or the first truncated instruction.
pub open spec fn spec_lines_view(buf: Seq<u8>, base: u16, cursor: int) -> Seq<Seq<char>>
    decreases buf.len() - cursor,
    when 0 <= cursor <= buf.len()
{
    if cursor == buf.len() {
        Seq::empty()
    } else if cursor + spec_instr_len(buf[cursor]) > buf.len() {
        Seq::empty()
    } else {
        seq![spec_line_view(buf, cursor, base)] + spec_lines_view(
            buf,
            base,
            cursor + spec_instr_len(buf[cursor]),
        )
    }
}

/// The cursor at which a pass from `cursor` stops: the buffer length
/// when the pass succeeds, else the start of the truncated instruction.
pub open spec fn spec_fail_pos(buf: Seq<u8>, cursor: int) -> int
    decreases buf.len() - cursor,
    when 0 <= cursor <= buf.len()
{
    if cursor == buf.len() {
        cursor
    } else if cursor + spec_instr_len(buf[cursor]) > buf.len() {
        cursor
    } else {
        spec_fail_pos(buf, cursor + spec_instr_len(buf[cursor]))
    }
}

fn display_addr(base: u16, cursor: usize) -> (a: u16)
    ensures
        a == spec_display_addr(base, cursor as int),
{
    let c: u64 = (cursor as u64) % 65536;
    let a: u64 = ((base as u64) + c) % 65536;
    proof {
        let m: int = 0x10000;
        lemma_fundamental_div_mod(cursor as int, m);
        let k: int = cursor as int / m;
        lemma_mod_multiples_vanish(k, base + (cursor as int) % m, m);
        assert(m * k + (base + (cursor as int) % m) == base + cursor as int);
    }
    a as u16
}

fn branch_target(base: u16, cursor: usize, operand: u8) -> (t: u16)
    ensures
        t == spec_branch_target(base, cursor as int, operand),
{
    let c: u64 = (cursor as u64) % 65536;
    let d: u64 = if operand < 128 {
        operand as u64
    } else {
        (operand as u64) + 0xFF00
    };
    let t: u64 = ((base as u64) + c + 2 + d) % 65536;
    proof {
        let m: int = 0x10000;
        lemma_fundamental_div_mod(cursor as int, m);
        let k: int = cursor as int / m;
        let x: int = base + cursor as int + 2 + spec_sign_val(operand);
        if operand < 128 {
            lemma_mod_multiples_vanish(-k, x, m);
            assert(m * (-k) + x == base + (cursor as int) % m + 2 + d);
        } else {
            lemma_mod_multiples_vanish(1 - k, x, m);
            assert(m * (1 - k) + x == base + (cursor as int) % m + 2 + d);
        }
    }
    t as u16
}

fn push_operand(s: &mut String, op: u8, mode: AddrMode, b1: u8, b2: u8)
    ensures
        final(s)@ == old(s)@ + spec_operand_view(op, mode, b1, b2),
{
    match mode {
        AddrMode::Implied => {},
        AddrMode::Accumulator => {
            s.append(" A");
        },
        AddrMode::Immediate => {
            s.append(" #$");
            push_hex2_lower(s, b1);
        },
        AddrMode::ZeroPage => {
            s.append(" $");
            push_hex2_lower(s, b1);
        },
        AddrMode::ZeroPageX => {
            s.append(" $");
            push_hex2_lower(s, b1);
            s.append(",X");
        },
        AddrMode::ZeroPageY => {
            s.append(" $");
            push_hex2_lower(s, b1);
            s.append(",Y");
        },
        AddrMode::IndirectX => {
            s.append(" ($");
            push_hex2_lower(s, b1);
            s.append(",X)");
        },
        AddrMode::IndirectY => {
            s.append(" ($");
            push_hex2_lower(s, b1);
            s.append("),Y");
        },
        AddrMode::Relative => {
            s.append(" $");
            push_hex2_lower(s, b1);
        },
        AddrMode::Absolute => {
            s.append(" $");
            push_hex2_lower(s, b2);
            push_hex2_lower(s, b1);
        },
        AddrMode::AbsoluteX => {
            s.append(" $");
            push_hex2_lower(s, b2);
            push_hex2_lower(s, b1);
            s.append(",X");
        },
        AddrMode::AbsoluteY => {
            s.append(" $");
            push_hex2_lower(s, b2);
            push_hex2_lower(s, b1);
            s.append(",Y");
        },
        AddrMode::Indirect => {
            s.append(" ($");
            push_hex2_lower(s, b2);
            push_hex2_lower(s, b1);
            s.append(")");
        },
        AddrMode::Raw => {
            s.append(" $");
            push_hex2_lower(s, op);
        },
    }
    proof {
        assert(s@ =~= old(s)@ + spec_operand_view(op, mode, b1, b2));
    }
}

/// Decodes the single instruction at `cursor` and renders its listing
/// line. Succeeds exactly when the instruction's operand bytes lie
/// within the buffer; a dangling multi-byte instruction at the tail is
/// reported as a [`TruncatedInstructionError`]. On success the returned
/// length (1, 2 or 3) is the amount by which the caller must advance
/// the cursor.
#[verifier::rlimit(100)]
pub fn decode_one(buffer: &Vec<u8>, cursor: usize, base: u16) -> (r: Result<
    (String, usize),
    TruncatedInstructionError,
>)
    requires
        cursor < buffer@.len(),
    ensures
        r is Ok <==> cursor + spec_instr_len(buffer@[cursor as int]) <= buffer@.len(),
        (match r {
            Ok(p) => p.1 == spec_instr_len(buffer@[cursor as int]) && p.0@ == spec_line_view(
                buffer@,
                cursor as int,
                base,
            ),
            Err(e) => e.cursor == cursor && e.needed == spec_instr_len(buffer@[cursor as int])
                && e.available == buffer@.len() - cursor,
        }),
{
    let op = buffer[cursor];
    let (mnemonic, mode) = classify(op);
    let len = mode_len(mode);
    if buffer.len() - cursor < len {
        return Err(
            TruncatedInstructionError { cursor, needed: len, available: buffer.len() - cursor },
        );
    }
    let b1: u8 = if len >= 2 {
        buffer[cursor + 1]
    } else {
        0
    };
    let b2: u8 = if len >= 3 {
        buffer[cursor + 2]
    } else {
        0
    };
    let mut line = String::new();
    push_hex4_upper(&mut line, display_addr(base, cursor));
    line.append(" ");
    push_hex2_upper(&mut line, op);
    line.append(" ");
    if len >= 2 {
        push_hex2_upper(&mut line, b1);
        line.append(" ");
    } else {
        line.append("   ");
    }
    if len >= 3 {
        push_hex2_upper(&mut line, b2);
        line.append(" ");
    } else {
        line.append("   ");
    }
    line.append(mnemonic_str(mnemonic));
    push_operand(&mut line, op, mode, b1, b2);
    if mode == AddrMode::Relative {
        line.append("\t\t; $");
        push_hex4_lower(&mut line, branch_target(base, cursor, b1));
    }
    proof {
        let b = buffer@;
        let c = cursor as int;
        assert(len == spec_instr_len(b[c]));
        assert(b1 == spec_byte1(b, c));
        assert(b2 == spec_byte2(b, c));
        assert(mode == spec_classify(b[c]).1);
        assert(line@ =~= spec_line_view(b, c, base));
    }
    Ok((line, len))
}

/// Disassembles the whole buffer: decodes from offset zero, advancing
/// by each returned length, until the cursor reaches the buffer length.
/// Returns the listing lines in address order, or the truncation error
/// of the first (and only possible) out-of-bounds decode step.
pub fn disassemble(buffer: &Vec<u8>, base: u16) -> (r: Result<
    Vec<String>,
    TruncatedInstructionError,
>)
    ensures
        r is Ok <==> spec_pass_ok(buffer@, 0),
        (match r {
            Ok(lines) => lines@.map_values(|s: String| s@) == spec_lines_view(buffer@, base, 0),
            Err(e) => {
                let p = spec_fail_pos(buffer@, 0);
                &&& e.cursor == p
                &&& e.needed == spec_instr_len(buffer@[p])
                &&& e.available == buffer@.len() - p
            },
        }),
{
    let mut lines: Vec<String> = Vec::new();
    let mut cursor: usize = 0;
    while cursor < buffer.len()
        invariant
            cursor <= buffer@.len(),
            spec_pass_ok(buffer@, 0) == spec_pass_ok(buffer@, cursor as int),
            spec_fail_pos(buffer@, 0) == spec_fail_pos(buffer@, cursor as int),
            spec_lines_view(buffer@, base, 0) == lines@.map_values(|s: String| s@)
                + spec_lines_view(buffer@, base, cursor as int),
        decreases buffer@.len() - cursor,
    {
        let ghost lines_before = lines@;
        let ghost cursor_before = cursor as int;
        match decode_one(buffer, cursor, base) {
            Ok((line, len)) => {
                let ghost line_v = line@;
                lines.push(line);
                cursor = cursor + len;
                proof {
                    assert(lines@.map_values(|s: String| s@) =~= lines_before.map_values(
                        |s: String| s@,
                    ) + seq![line_v]);
                    assert(lines_before.map_values(|s: String| s@) + (seq![line_v]
                        + spec_lines_view(buffer@, base, cursor as int)) =~= lines@.map_values(
                        |s: String| s@,
                    ) + spec_lines_view(buffer@, base, cursor as int));
                }
            },
            Err(e) => {
                return Err(e);
            },
        }
    }
    proof {
        assert(spec_lines_view(buffer@, base, 0) =~= lines@.map_values(|s: String| s@));
    }
    Ok(lines)
}

/// Exhaustiveness of classification: every opcode byte value decodes
/// to an instruction length of 1, 2 or 3, and the formatted line for
/// any in-bounds instruction is non-empty.
pub proof fn lemma_decode_total(buf: Seq<u8>, cursor: int, base: u16)
    requires
        0 <= cursor < buf.len(),
    ensures
        1 <= spec_instr_len(buf[cursor]) <= 3,
        spec_line_view(buf, cursor, base).len() > 0,
{
    assert(spec_hex4_upper(spec_display_addr(base, cursor)).len() == 4);
}

/// The instruction lengths a successful pass from `cursor` reports.
pub open spec fn spec_lengths_view(buf: Seq<u8>, cursor: int) -> Seq<int>
    decreases buf.len() - cursor,
    when 0 <= cursor <= buf.len()
{
    if cursor == buf.len() {
        Seq::empty()
    } else if cursor + spec_instr_len(buf[cursor]) > buf.len() {
        Seq::empty()
    } else {
        seq![spec_instr_len(buf[cursor])] + spec_lengths_view(
            buf,
            cursor + spec_instr_len(buf[cursor]),
        )
    }
}

/// The sum of a sequence of integers.
pub open spec fn spec_sum(s: Seq<int>) -> int
    decreases s.len(),
{
    if s.len() == 0 {
        0
    } else {
        s[0] + spec_sum(s.drop_first())
    }
}

proof fn lemma_total_length_from(buf: Seq<u8>, cursor: int)
    requires
        0 <= cursor <= buf.len(),
        spec_pass_ok(buf, cursor),
    ensures
        spec_sum(spec_lengths_view(buf, cursor)) == buf.len() - cursor,
    decreases buf.len() - cursor,
{
    if cursor == buf.len() {
    } else {
        let len = spec_instr_len(buf[cursor]);
        lemma_total_length_from(buf, cursor + len);
        assert(spec_lengths_view(buf, cursor).drop_first() =~= spec_lengths_view(
            buf,
            cursor + len,
        ));
    }
}

/// Total length coverage: over a successful full pass the returned
/// instruction lengths sum to the buffer length exactly — the decoded
/// instructions tile the buffer with no gap and no overlap.
pub proof fn lemma_total_length_coverage(buf: Seq<u8>)
    requires
        spec_pass_ok(buf, 0),
    ensures
        spec_sum(spec_lengths_view(buf, 0)) == buf.len(),
{
    lemma_total_length_from(buf, 0);
}

/// The mnemonic and operand text of the in-bounds instruction at
/// `cursor`, without the address, raw-byte and annotation segments.
pub open spec fn spec_instr_text(buf: Seq<u8>, cursor: int) -> Seq<char> {
    spec_text_view(buf[cursor], spec_byte1(buf, cursor), spec_byte2(buf, cursor))
}

/// Formatting is position-independent: the mnemonic and operand text
/// of an instruction is a function of its raw bytes alone, so decoding
/// equal byte slices at two different cursor positions yields
/// identical text — by the shape of [`spec_line_view`] the two lines
/// differ only in the displayed address and, for branches, in the
/// target-address annotation.
pub proof fn lemma_format_position_independent(buf1: Seq<u8>, c1: int, buf2: Seq<u8>, c2: int)
    requires
        0 <= c1 < buf1.len(),
        0 <= c2 < buf2.len(),
        c1 + spec_instr_len(buf1[c1]) <= buf1.len(),
        c2 + spec_instr_len(buf2[c2]) <= buf2.len(),
        buf1.subrange(c1, c1 + spec_instr_len(buf1[c1])) == buf2.subrange(
            c2,
            c2 + spec_instr_len(buf2[c2]),
        ),
    ensures
        spec_instr_text(buf1, c1) == spec_instr_text(buf2, c2),
{
    assert(buf1[c1] == buf1.subrange(c1, c1 + spec_instr_len(buf1[c1]))[0]);
    assert(buf2[c2] == buf2.subrange(c2, c2 + spec_instr_len(buf2[c2]))[0]);
    let len = spec_instr_len(buf1[c1]);
    if len >= 2 {
        assert(buf1[c1 + 1] == buf1.subrange(c1, c1 + len)[1]);
        assert(buf2[c2 + 1] == buf2.subrange(c2, c2 + len)[1]);
    }
    if len >= 3 {
        assert(buf1[c1 + 2] == buf1.subrange(c1, c1 + len)[2]);
        assert(buf2[c2 + 2] == buf2.subrange(c2, c2 + len)[2]);
    }
}

/// Branch-target correctness: the annotated target is the base address
/// plus the cursor plus the branch instruction's length of 2 plus the
/// operand byte read as a signed displacement in -128..=127, wrapped to
/// the 16-bit address space — never the unsigned byte value.
pub proof fn lemma_branch_target_signed(base: u16, cursor: int, operand: u8)
    ensures
        -128 <= spec_sign_val(operand) <= 127,
        operand < 128 ==> spec_branch_target(base, cursor, operand) == ((base + cursor + 2
            + operand) % 0x10000) as u16,
        operand >= 128 ==> spec_branch_target(base, cursor, operand) == ((base + cursor + 2
            + operand - 256) % 0x10000) as u16,
{
}

/// The relative-branch instructions are exactly the eight conditional
/// branches on the carry, zero, negative and overflow flags.
pub proof fn lemma_relative_branch_set(op: u8)
    ensures
        (spec_classify(op).1 == AddrMode::Relative) <==> (op == 0x10 || op == 0x30 || op == 0x50
            || op == 0x70 || op == 0x90 || op == 0xb0 || op == 0xd0 || op == 0xf0),
{
}

} // verus!
