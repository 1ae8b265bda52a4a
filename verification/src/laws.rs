//! Laws of the instruction set that hold for all inputs: totality of
//! decoding, the encode/decode round trip, stability of the pure lookups,
//! the arithmetic and shift identities, and the two branch-addressing
//! guarantees.

use vstd::prelude::*;

use crate::instruction::{Instruction, spec_base_byte, spec_decode, spec_encode};
use crate::opcode::{Opcode, spec_mnemonic, spec_opcode_len, spec_opcode_of_byte};
use crate::state::CpuView;
use crate::executor::{
    short_branch_target, spec_step_op, step_add, step_br, step_idl, step_lbr, step_shl, step_shr,
    step_sm,
};

verus! {

/// Decoding is total over the byte domain: any slice that holds a full
/// 3-byte fetch window decodes to some instruction, whatever its bytes.
/// Reserved byte values alias to defined operations rather than failing.
pub proof fn lemma_decode_window_total(bytes: Seq<u8>)
    requires
        bytes.len() >= 3,
    ensures
        spec_decode(bytes) is Some,
{
}

/// Every byte names an operation of length 1, 2 or 3.
pub proof fn lemma_opcode_total(b: u8)
    ensures
        1 <= spec_opcode_len(spec_opcode_of_byte(b)) <= 3,
{
}

/// The register values for which a 1-byte operation's encoding carries the
/// register field faithfully.  Register-keyed families accept their whole
/// range, except where a byte value aliases: LDN register 0 is the IDL
/// byte, OUT port 0 and INP port 0 are the two IRX bytes.  A singleton
/// operation round-trips only with the register field its own byte's low
/// nibble shows.
pub open spec fn round_trips_register(op: Opcode, register: u8) -> bool {
    match op {
        Opcode::IDL => register == 0,
        Opcode::LDN => 1 <= register < 16,
        Opcode::INC => register < 16,
        Opcode::DEC => register < 16,
        Opcode::LDA => register < 16,
        Opcode::STR => register < 16,
        Opcode::GLO => register < 16,
        Opcode::GHI => register < 16,
        Opcode::PLO => register < 16,
        Opcode::PHI => register < 16,
        Opcode::SEP => register < 16,
        Opcode::SEX => register < 16,
        Opcode::IRX => register == 0,
        Opcode::OUT => 1 <= register <= 7,
        Opcode::INP => 9 <= register <= 15,
        Opcode::RET => register == 0,
        Opcode::DIS => register == 1,
        Opcode::LDXA => register == 2,
        Opcode::STXD => register == 3,
        Opcode::ADC => register == 4,
        Opcode::SDB => register == 5,
        Opcode::SHRC => register == 6,
        Opcode::SMB => register == 7,
        Opcode::SAV => register == 8,
        Opcode::MARK => register == 9,
        Opcode::REQ => register == 10,
        Opcode::SEQ => register == 11,
        Opcode::NOP => register == 4,
        Opcode::LDX => register == 0,
        Opcode::OR => register == 1,
        Opcode::AND => register == 2,
        Opcode::XOR => register == 3,
        Opcode::ADD => register == 4,
        Opcode::SD => register == 5,
        Opcode::SHR => register == 6,
        Opcode::SM => register == 7,
        Opcode::SHL => register == 14,
        _ => false,
    }
}

proof fn lemma_or_nibble(r: u8)
    requires
        r < 16,
    ensures
        r & 0x0F == r,
        (0x10u8 | r) & 0x0F == r && (0x10u8 | r) == 0x10 + r,
        (0x20u8 | r) & 0x0F == r && (0x20u8 | r) == 0x20 + r,
        (0x40u8 | r) & 0x0F == r && (0x40u8 | r) == 0x40 + r,
        (0x50u8 | r) & 0x0F == r && (0x50u8 | r) == 0x50 + r,
        (0x60u8 | r) & 0x0F == r && (0x60u8 | r) == 0x60 + r,
        r >= 8 ==> (0x68u8 | r) == 0x60 + r && (0x68u8 | r) & 0x0F == r,
        (0x80u8 | r) & 0x0F == r && (0x80u8 | r) == 0x80 + r,
        (0x90u8 | r) & 0x0F == r && (0x90u8 | r) == 0x90 + r,
        (0xA0u8 | r) & 0x0F == r && (0xA0u8 | r) == 0xA0 + r,
        (0xB0u8 | r) & 0x0F == r && (0xB0u8 | r) == 0xB0 + r,
        (0xD0u8 | r) & 0x0F == r && (0xD0u8 | r) == 0xD0 + r,
        (0xE0u8 | r) & 0x0F == r && (0xE0u8 | r) == 0xE0 + r,
{
    assert(r < 16 ==> (r & 0x0F == r && (0x10u8 | r) & 0x0F == r && (0x10u8 | r) == 0x10 + r && (
    0x20u8 | r) & 0x0F == r && (0x20u8 | r) == 0x20 + r && (0x40u8 | r) & 0x0F == r && (0x40u8 | r)
        == 0x40 + r && (0x50u8 | r) & 0x0F == r && (0x50u8 | r) == 0x50 + r && (0x60u8 | r) & 0x0F
        == r && (0x60u8 | r) == 0x60 + r && (r >= 8 ==> (0x68u8 | r) == 0x60 + r && (0x68u8 | r)
        & 0x0F == r) && (0x80u8 | r) & 0x0F == r && (0x80u8 | r) == 0x80 + r && (0x90u8 | r) & 0x0F
        == r && (0x90u8 | r) == 0x90 + r && (0xA0u8 | r) & 0x0F == r && (0xA0u8 | r) == 0xA0 + r
        && (0xB0u8 | r) & 0x0F == r && (0xB0u8 | r) == 0xB0 + r && (0xD0u8 | r) & 0x0F == r && (
    0xD0u8 | r) == 0xD0 + r && (0xE0u8 | r) & 0x0F == r && (0xE0u8 | r) == 0xE0 + r)) by (bit_vector);
}

proof fn lemma_singleton_nibbles()
    ensures
        0x00u8 & 0x0F == 0,
        0x60u8 & 0x0F == 0,
        0x70u8 & 0x0F == 0,
        0x71u8 & 0x0F == 1,
        0x72u8 & 0x0F == 2,
        0x73u8 & 0x0F == 3,
        0x74u8 & 0x0F == 4,
        0x75u8 & 0x0F == 5,
        0x76u8 & 0x0F == 6,
        0x77u8 & 0x0F == 7,
        0x78u8 & 0x0F == 8,
        0x79u8 & 0x0F == 9,
        0x7Au8 & 0x0F == 10,
        0x7Bu8 & 0x0F == 11,
        0xC4u8 & 0x0F == 4,
        0xF0u8 & 0x0F == 0,
        0xF1u8 & 0x0F == 1,
        0xF2u8 & 0x0F == 2,
        0xF3u8 & 0x0F == 3,
        0xF4u8 & 0x0F == 4,
        0xF5u8 & 0x0F == 5,
        0xF6u8 & 0x0F == 6,
        0xF7u8 & 0x0F == 7,
        0xFEu8 & 0x0F == 14,
{
    assert(0x00u8 & 0x0F == 0 && 0x60u8 & 0x0F == 0 && 0x70u8 & 0x0F == 0 && 0x71u8 & 0x0F == 1
        && 0x72u8 & 0x0F == 2 && 0x73u8 & 0x0F == 3 && 0x74u8 & 0x0F == 4 && 0x75u8 & 0x0F == 5
        && 0x76u8 & 0x0F == 6 && 0x77u8 & 0x0F == 7 && 0x78u8 & 0x0F == 8 && 0x79u8 & 0x0F == 9
        && 0x7Au8 & 0x0F == 10 && 0x7Bu8 & 0x0F == 11 && 0xC4u8 & 0x0F == 4 && 0xF0u8 & 0x0F == 0
        && 0xF1u8 & 0x0F == 1 && 0xF2u8 & 0x0F == 2 && 0xF3u8 & 0x0F == 3 && 0xF4u8 & 0x0F == 4
        && 0xF5u8 & 0x0F == 5 && 0xF6u8 & 0x0F == 6 && 0xF7u8 & 0x0F == 7 && 0xFEu8 & 0x0F == 14)
        by (bit_vector);
}

/// Round trip for the 1-byte operations: encoding an instruction and
/// decoding the encoded byte gives back the same operation, with the
/// register field equal to the low 4 bits of the encoded byte.  The
/// excluded register values are exactly those whose encoding is another
/// operation's byte (LDN register 0 encodes as the IDL byte; OUT port 0
/// encodes as the IRX byte) or another register field of the same
/// operation.
#[verifier::rlimit(60)]
pub proof fn lemma_one_byte_round_trip(op: Opcode, register: u8)
    requires
        spec_opcode_len(op) == 1,
        round_trips_register(op, register),
    ensures
        spec_decode(
            spec_encode(Instruction { opcode: op, register, immediate: None, address: None }),
        ) == Some(Instruction { opcode: op, register, immediate: None, address: None }),
{
    lemma_or_nibble(register);
    lemma_singleton_nibbles();
    let b = spec_base_byte(op, register);
    assert(spec_encode(Instruction { opcode: op, register, immediate: None, address: None })
        =~= seq![b]);
}

/// The pure lookups are referentially stable: mnemonic and length are
/// functions of the operation alone, so repeated calls on the same
/// operation agree.
pub proof fn lemma_lookups_stable(a: Opcode, b: Opcode)
    requires
        a == b,
    ensures
        spec_mnemonic(a) == spec_mnemonic(b),
        spec_opcode_len(a) == spec_opcode_len(b),
{
}

/// Everything of the state but the accumulator and DF: what an arithmetic,
/// logical or shift operation must leave untouched.
pub open spec fn same_but_d_df(a: CpuView, b: CpuView) -> bool {
    &&& a.regs == b.regs
    &&& a.mem == b.mem
    &&& a.p == b.p
    &&& a.x == b.x
    &&& a.ie == b.ie
    &&& a.q == b.q
    &&& a.halted == b.halted
    &&& a.cycles == b.cycles
    &&& a.instructions_executed == b.instructions_executed
}

/// Addition: the accumulator becomes `(a + b) mod 256`, DF is set exactly
/// when the sum reaches 256, and nothing else moves.
pub proof fn lemma_add_law(s: CpuView, operand: u8)
    ensures
        step_add(s, operand).d == (s.d + operand) % 256,
        step_add(s, operand).df == (s.d + operand >= 256),
        same_but_d_df(step_add(s, operand), s),
{
}

/// Subtraction of the operand from the accumulator: the accumulator
/// becomes `(a - b) mod 256`, DF is set exactly when no borrow occurred,
/// that is when `a >= b`, and nothing else moves.
pub proof fn lemma_subtract_law(s: CpuView, operand: u8)
    ensures
        step_sm(s, operand).d == (s.d - operand) % 256,
        step_sm(s, operand).d == (s.d + 256 - operand) % 256,
        step_sm(s, operand).df == (s.d >= operand),
        same_but_d_df(step_sm(s, operand), s),
{
}

proof fn lemma_shift_bits(d: u8)
    ensures
        d >> 1 == d / 2,
        ((d & 1) != 0) == (d % 2 == 1),
        ((d & 0x80) != 0) == (d >= 128),
{
    assert(d >> 1 == d / 2 && ((d & 1) != 0) == (d % 2 == 1) && ((d & 0x80) != 0) == (d >= 128))
        by (bit_vector);
}

/// Shift right: the accumulator becomes `a >> 1` (its half), DF receives
/// the bit shifted out (`a & 1`), and nothing else moves.
pub proof fn lemma_shift_right_law(s: CpuView)
    ensures
        step_shr(s).d == s.d >> 1,
        step_shr(s).d == s.d / 2,
        step_shr(s).df == ((s.d & 1) != 0),
        step_shr(s).df == (s.d % 2 == 1),
        same_but_d_df(step_shr(s), s),
{
    lemma_shift_bits(s.d);
}

/// Shift left: the accumulator becomes `(2a) mod 256` and DF receives the
/// bit shifted out, the old high bit (`a & 0x80`); nothing else moves.
pub proof fn lemma_shift_left_law(s: CpuView)
    ensures
        step_shl(s).d == (2 * s.d) % 256,
        step_shl(s).df == ((s.d & 0x80) != 0),
        step_shl(s).df == (s.d >= 128),
        same_but_d_df(step_shl(s), s),
{
    lemma_shift_bits(s.d);
}

proof fn lemma_short_target_bits(pc: u16, off: u16)
    requires
        off < 256,
    ensures
        ((pc & 0xFF00) | off) >> 8 == pc >> 8,
        ((pc & 0xFF00) | off) & 0xFF == off,
{
    assert(off < 256 ==> (((pc & 0xFF00) | off) >> 8 == pc >> 8 && ((pc & 0xFF00) | off) & 0xFF
        == off)) by (bit_vector);
}

/// A short branch only ever changes the low byte of the counter register:
/// the high byte of the program counter survives, the low byte becomes the
/// offset, and no other register moves.
/// Everything of the state but the register file: what a branch must leave
/// untouched.
pub open spec fn same_but_regs(a: CpuView, b: CpuView) -> bool {
    &&& a.d == b.d
    &&& a.df == b.df
    &&& a.mem == b.mem
    &&& a.p == b.p
    &&& a.x == b.x
    &&& a.ie == b.ie
    &&& a.q == b.q
    &&& a.halted == b.halted
    &&& a.cycles == b.cycles
    &&& a.instructions_executed == b.instructions_executed
}

pub proof fn lemma_short_branch_law(s: CpuView, offset: u8)
    requires
        s.wf(),
    ensures
        step_br(s, offset).regs[s.p as int] >> 8 == s.pc() >> 8,
        step_br(s, offset).regs[s.p as int] & 0xFF == offset as u16,
        forall|j: int| 0 <= j < 16 && j != s.p ==> step_br(s, offset).regs[j] == s.regs[j],
        same_but_regs(step_br(s, offset), s),
{
    lemma_short_target_bits(s.pc(), offset as u16);
    assert(short_branch_target(s.pc(), offset) == (s.pc() & 0xFF00) | (offset as u16));
}

/// A long branch sets the full 16-bit counter register to the target
/// address, and no other register moves.
pub proof fn lemma_long_branch_law(s: CpuView, address: u16)
    requires
        s.wf(),
    ensures
        step_lbr(s, address).regs[s.p as int] == address,
        forall|j: int| 0 <= j < 16 && j != s.p ==> step_lbr(s, address).regs[j] == s.regs[j],
        same_but_regs(step_lbr(s, address), s),
{
}

/// The idle operation sets the halt latch and changes nothing else.
pub proof fn lemma_idle_law(s: CpuView)
    ensures
        step_idl(s).halted,
        step_idl(s).regs == s.regs && step_idl(s).mem == s.mem,
        step_idl(s).d == s.d && step_idl(s).df == s.df,
        step_idl(s).p == s.p && step_idl(s).x == s.x,
        step_idl(s).ie == s.ie && step_idl(s).q == s.q,
{
}

/// The halt latch is one-way: no operation clears it.  Execution on a
/// halted CPU is refused outright, and even the per-operation transitions
/// never reset the latch; only `Cpu::reset` returns it to power-on state.
pub proof fn lemma_halt_latch_one_way(s: CpuView, i: Instruction)
    requires
        s.halted,
    ensures
        spec_step_op(s, i).halted,
{
}

} // verus!
