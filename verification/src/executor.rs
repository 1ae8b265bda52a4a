//! The executor: the state transition that one decoded instruction applies
//! to a CPU state.
//!
//! Execution fails only when the halt latch is already set; for every other
//! operation it is unconditional and atomic.  A successful execution applies
//! the operation's effect and increments the cycle and instruction counters
//! by exactly one each.  Branch targets are written over a program counter
//! that the caller has already advanced past the instruction.

use vstd::prelude::*;

use crate::instruction::{Instruction, spec_decode};
use crate::opcode::{Opcode, spec_opcode_len};
use crate::state::{Cpu, CpuError, CpuView};

verus! {

/// The immediate operand of an instruction, 0 when absent.
pub open spec fn imm_of(i: Instruction) -> u8 {
    match i.immediate {
        Some(v) => v,
        None => 0,
    }
}

/// The address operand of an instruction, 0 when absent.
pub open spec fn addr_of(i: Instruction) -> u16 {
    match i.address {
        Some(v) => v,
        None => 0,
    }
}

/// 16-bit wrapping addition.
pub open spec fn wrap_add16(a: u16, b: u16) -> u16 {
    ((a + b) % 0x10000) as u16
}

/// 16-bit wrapping decrement.
pub open spec fn wrap_dec16(a: u16) -> u16 {
    ((a + 0xFFFF) % 0x10000) as u16
}

/// 8-bit wrapping sum.
pub open spec fn add8(a: u8, b: u8) -> u8 {
    ((a + b) % 256) as u8
}

/// Carry-out of an 8-bit addition.
pub open spec fn carry8(a: u8, b: u8) -> bool {
    a + b >= 256
}

/// 8-bit wrapping sum with carry-in.
pub open spec fn addc8(a: u8, b: u8, c: bool) -> u8 {
    ((a + b + (if c {
        1int
    } else {
        0int
    })) % 256) as u8
}

/// Carry-out of an 8-bit addition with carry-in: the carry of either step.
pub open spec fn carryc8(a: u8, b: u8, c: bool) -> bool {
    a + b + (if c {
        1int
    } else {
        0int
    }) >= 256
}

/// 8-bit wrapping difference `a - b`.
pub open spec fn sub8(a: u8, b: u8) -> u8 {
    ((a + 256 - b) % 256) as u8
}

/// The inverted borrow convention: DF = 1 exactly when no borrow occurred.
pub open spec fn no_borrow8(a: u8, b: u8) -> bool {
    a >= b
}

/// 8-bit left shift: `(2 * a) mod 256`.
pub open spec fn shl8(a: u8) -> u8 {
    ((2 * a) % 256) as u8
}

/// A short branch replaces only the low byte of the program counter.
pub open spec fn short_branch_target(pc: u16, offset: u8) -> u16 {
    (pc & 0xFF00) | (offset as u16)
}

/// IDL: set the halt latch.
pub open spec fn step_idl(s: CpuView) -> CpuView {
    CpuView { halted: true, ..s }
}

/// LDN: D = M(RN).
pub open spec fn step_ldn(s: CpuView, n: u8) -> CpuView {
    CpuView { d: s.mem[s.regs[n as int] as int], ..s }
}

/// LDA: D = M(RN), then RN += 1.
pub open spec fn step_lda(s: CpuView, n: u8) -> CpuView {
    CpuView {
        d: s.mem[s.regs[n as int] as int],
        regs: s.regs.update(n as int, wrap_add16(s.regs[n as int], 1)),
        ..s
    }
}

/// LDX: D = M(RX).
pub open spec fn step_ldx(s: CpuView) -> CpuView {
    CpuView { d: s.mem[s.rx() as int], ..s }
}

/// LDXA: D = M(RX), then RX += 1.
pub open spec fn step_ldxa(s: CpuView) -> CpuView {
    CpuView {
        d: s.mem[s.rx() as int],
        regs: s.regs.update(s.x as int, wrap_add16(s.rx(), 1)),
        ..s
    }
}

/// STR: M(RN) = D.
pub open spec fn step_str(s: CpuView, n: u8) -> CpuView {
    s.with_mem(s.regs[n as int] as int, s.d)
}

/// STXD: M(RX) = D, then RX -= 1.
pub open spec fn step_stxd(s: CpuView) -> CpuView {
    CpuView { mem: s.mem.update(s.rx() as int, s.d), regs: s.regs.update(s.x as int, wrap_dec16(s.rx())), ..s }
}

/// LDI: D = immediate.
pub open spec fn step_ldi(s: CpuView, immediate: u8) -> CpuView {
    CpuView { d: immediate, ..s }
}

/// INC: RN += 1, 16-bit wraparound.
pub open spec fn step_inc(s: CpuView, n: u8) -> CpuView {
    s.with_reg(n as int, wrap_add16(s.regs[n as int], 1))
}

/// DEC: RN -= 1, 16-bit wraparound.
pub open spec fn step_dec(s: CpuView, n: u8) -> CpuView {
    s.with_reg(n as int, wrap_dec16(s.regs[n as int]))
}

/// IRX: RX += 1.
pub open spec fn step_irx(s: CpuView) -> CpuView {
    s.with_reg(s.x as int, wrap_add16(s.rx(), 1))
}

/// GLO: D = low byte of RN.
pub open spec fn step_glo(s: CpuView, n: u8) -> CpuView {
    CpuView { d: (s.regs[n as int] & 0xFF) as u8, ..s }
}

/// GHI: D = high byte of RN.
pub open spec fn step_ghi(s: CpuView, n: u8) -> CpuView {
    CpuView { d: ((s.regs[n as int] >> 8) & 0xFF) as u8, ..s }
}

/// PLO: low byte of RN = D, high byte unchanged.
pub open spec fn step_plo(s: CpuView, n: u8) -> CpuView {
    s.with_reg(n as int, (s.regs[n as int] & 0xFF00) | (s.d as u16))
}

/// PHI: high byte of RN = D, low byte unchanged.
pub open spec fn step_phi(s: CpuView, n: u8) -> CpuView {
    s.with_reg(n as int, (s.regs[n as int] & 0x00FF) | ((s.d as u16) << 8))
}

/// SEP: select RN as program counter.
pub open spec fn step_sep(s: CpuView, n: u8) -> CpuView {
    CpuView { p: n & 0x0F, ..s }
}

/// SEX: select RN as index register.
pub open spec fn step_sex(s: CpuView, n: u8) -> CpuView {
    CpuView { x: n & 0x0F, ..s }
}

/// ADD/ADI: D = D + operand mod 256, DF = carry-out.
pub open spec fn step_add(s: CpuView, operand: u8) -> CpuView {
    CpuView { d: add8(s.d, operand), df: carry8(s.d, operand), ..s }
}

/// ADC/ADCI: D = D + operand + DF mod 256, DF = carry-out of either step.
pub open spec fn step_adc(s: CpuView, operand: u8) -> CpuView {
    CpuView { d: addc8(s.d, operand, s.df), df: carryc8(s.d, operand, s.df), ..s }
}

/// SD/SDI: D = operand - D mod 256, DF = 1 when no borrow occurred.
pub open spec fn step_sd(s: CpuView, operand: u8) -> CpuView {
    CpuView { d: sub8(operand, s.d), df: no_borrow8(operand, s.d), ..s }
}

/// SM/SMI: D = D - operand mod 256, DF = 1 when no borrow occurred.
pub open spec fn step_sm(s: CpuView, operand: u8) -> CpuView {
    CpuView { d: sub8(s.d, operand), df: no_borrow8(s.d, operand), ..s }
}

/// AND/ANI: D = D & operand.
pub open spec fn step_and(s: CpuView, operand: u8) -> CpuView {
    CpuView { d: s.d & operand, ..s }
}

/// OR/ORI: D = D | operand.
pub open spec fn step_or(s: CpuView, operand: u8) -> CpuView {
    CpuView { d: s.d | operand, ..s }
}

/// XOR/XRI: D = D ^ operand.
pub open spec fn step_xor(s: CpuView, operand: u8) -> CpuView {
    CpuView { d: s.d ^ operand, ..s }
}

/// SHR: D shifted right by one; the bit shifted out becomes DF.
pub open spec fn step_shr(s: CpuView) -> CpuView {
    CpuView { d: s.d >> 1, df: (s.d & 1) != 0, ..s }
}

/// SHL: D shifted left by one; the bit shifted out becomes DF.
pub open spec fn step_shl(s: CpuView) -> CpuView {
    CpuView { d: shl8(s.d), df: (s.d & 0x80) != 0, ..s }
}

/// SHRC: as SHR, but the old DF is shifted into bit 7.
pub open spec fn step_shrc(s: CpuView) -> CpuView {
    CpuView {
        d: (s.d >> 1) | (if s.df {
            0x80u8
        } else {
            0u8
        }),
        df: (s.d & 1) != 0,
        ..s
    }
}

/// SHLC: as SHL, but the old DF is shifted into bit 0.
pub open spec fn step_shlc(s: CpuView) -> CpuView {
    CpuView {
        d: shl8(s.d) | (if s.df {
            1u8
        } else {
            0u8
        }),
        df: (s.d & 0x80) != 0,
        ..s
    }
}

/// BR and the taken case of every short branch: only the low byte of the
/// program counter changes.
pub open spec fn step_br(s: CpuView, offset: u8) -> CpuView {
    s.with_reg(s.p as int, short_branch_target(s.pc(), offset))
}

/// A conditional short branch: taken exactly when `cond` holds.
pub open spec fn step_short_branch(s: CpuView, offset: u8, cond: bool) -> CpuView {
    if cond {
        step_br(s, offset)
    } else {
        s
    }
}

/// SKP: advance the program counter past the next byte.
pub open spec fn step_skp(s: CpuView) -> CpuView {
    s.with_reg(s.p as int, wrap_add16(s.pc(), 1))
}

/// LBR and the taken case of every long branch: the full 16-bit program
/// counter is replaced.
pub open spec fn step_lbr(s: CpuView, address: u16) -> CpuView {
    s.with_reg(s.p as int, address)
}

/// A conditional long branch: taken exactly when `cond` holds.
pub open spec fn step_long_branch(s: CpuView, address: u16, cond: bool) -> CpuView {
    if cond {
        step_lbr(s, address)
    } else {
        s
    }
}

/// LSKP: advance the program counter past the next two bytes.
pub open spec fn step_lskp(s: CpuView) -> CpuView {
    s.with_reg(s.p as int, wrap_add16(s.pc(), 2))
}

/// REQ: Q = 0.
pub open spec fn step_req(s: CpuView) -> CpuView {
    CpuView { q: false, ..s }
}

/// SEQ: Q = 1.
pub open spec fn step_seq(s: CpuView) -> CpuView {
    CpuView { q: true, ..s }
}

/// The effect of one operation on the CPU state, before the counters are
/// bumped.  Operations the simulator does not model (I/O ports, interrupt
/// return, the with-borrow arithmetic, external-flag branches and the
/// conditional long skips) leave the state unchanged.
pub open spec fn spec_step_op(s: CpuView, i: Instruction) -> CpuView {
    match i.opcode {
        Opcode::IDL => step_idl(s),
        Opcode::LDN => step_ldn(s, i.register),
        Opcode::INC => step_inc(s, i.register),
        Opcode::DEC => step_dec(s, i.register),
        Opcode::LDA => step_lda(s, i.register),
        Opcode::STR => step_str(s, i.register),
        Opcode::GLO => step_glo(s, i.register),
        Opcode::GHI => step_ghi(s, i.register),
        Opcode::PLO => step_plo(s, i.register),
        Opcode::PHI => step_phi(s, i.register),
        Opcode::SEP => step_sep(s, i.register),
        Opcode::SEX => step_sex(s, i.register),
        Opcode::LDX => step_ldx(s),
        Opcode::LDXA => step_ldxa(s),
        Opcode::STXD => step_stxd(s),
        Opcode::IRX => step_irx(s),
        Opcode::LDI => step_ldi(s, imm_of(i)),
        Opcode::ADD => step_add(s, s.mem[s.rx() as int]),
        Opcode::ADI => step_add(s, imm_of(i)),
        Opcode::ADC => step_adc(s, s.mem[s.rx() as int]),
        Opcode::ADCI => step_adc(s, imm_of(i)),
        Opcode::SD => step_sd(s, s.mem[s.rx() as int]),
        Opcode::SDI => step_sd(s, imm_of(i)),
        Opcode::SM => step_sm(s, s.mem[s.rx() as int]),
        Opcode::SMI => step_sm(s, imm_of(i)),
        Opcode::AND => step_and(s, s.mem[s.rx() as int]),
        Opcode::ANI => step_and(s, imm_of(i)),
        Opcode::OR => step_or(s, s.mem[s.rx() as int]),
        Opcode::ORI => step_or(s, imm_of(i)),
        Opcode::XOR => step_xor(s, s.mem[s.rx() as int]),
        Opcode::XRI => step_xor(s, imm_of(i)),
        Opcode::SHR => step_shr(s),
        Opcode::SHL => step_shl(s),
        Opcode::SHRC => step_shrc(s),
        Opcode::SHLC => step_shlc(s),
        Opcode::BR => step_br(s, imm_of(i)),
        Opcode::BZ => step_short_branch(s, imm_of(i), s.d == 0),
        Opcode::BNZ => step_short_branch(s, imm_of(i), s.d != 0),
        Opcode::BDF => step_short_branch(s, imm_of(i), s.df),
        Opcode::BNF => step_short_branch(s, imm_of(i), !s.df),
        Opcode::BQ => step_short_branch(s, imm_of(i), s.q),
        Opcode::BNQ => step_short_branch(s, imm_of(i), !s.q),
        Opcode::SKP => step_skp(s),
        Opcode::LBR => step_lbr(s, addr_of(i)),
        Opcode::LBZ => step_long_branch(s, addr_of(i), s.d == 0),
        Opcode::LBNZ => step_long_branch(s, addr_of(i), s.d != 0),
        Opcode::LBDF => step_long_branch(s, addr_of(i), s.df),
        Opcode::LBNF => step_long_branch(s, addr_of(i), !s.df),
        Opcode::LBQ => step_long_branch(s, addr_of(i), s.q),
        Opcode::LBNQ => step_long_branch(s, addr_of(i), !s.q),
        Opcode::LSKP => step_lskp(s),
        Opcode::REQ => step_req(s),
        Opcode::SEQ => step_seq(s),
        _ => s,
    }
}

/// Both execution counters advanced by one.
pub open spec fn bump_counters(s: CpuView) -> CpuView {
    CpuView {
        cycles: (s.cycles + 1) as u64,
        instructions_executed: (s.instructions_executed + 1) as u64,
        ..s
    }
}

/// The full effect of executing one instruction on a non-halted CPU.
pub open spec fn spec_execute(s: CpuView, i: Instruction) -> CpuView {
    bump_counters(spec_step_op(s, i))
}

proof fn lemma_low_nibble(b: u8)
    ensures
        b & 0x0F < 16,
{
    assert(b & 0x0F < 16) by (bit_vector);
}

proof fn lemma_low_byte(v: u16)
    ensures
        v & 0xFF < 256,
{
    assert(v & 0xFF < 256) by (bit_vector);
}

proof fn lemma_high_byte(v: u16)
    ensures
        (v >> 8) & 0xFF < 256,
{
    assert((v >> 8) & 0xFF < 256) by (bit_vector);
}

/// Execute a single instruction on the CPU.
///
/// Fails, changing nothing, exactly when the halt latch is set.  Otherwise
/// the instruction's effect is applied atomically and both counters advance
/// by one.
pub fn execute_instruction(cpu: &mut Cpu, instruction: &Instruction) -> (r: Result<(), CpuError>)
    requires
        old(cpu).wf(),
        instruction.register < 16,
        old(cpu)@.cycles < u64::MAX,
        old(cpu)@.instructions_executed < u64::MAX,
    ensures
        final(cpu).wf(),
        old(cpu)@.halted ==> r == Err::<(), CpuError>(CpuError::Halted) && *final(cpu)
            == *old(cpu),
        !old(cpu)@.halted ==> r == Ok::<(), CpuError>(()) && final(cpu)@ == spec_execute(
            old(cpu)@,
            *instruction,
        ),
        !old(cpu)@.halted ==> final(cpu)@.cycles == old(cpu)@.cycles + 1
            && final(cpu)@.instructions_executed == old(cpu)@.instructions_executed + 1,
{
    if cpu.is_halted() {
        return Err(CpuError::Halted);
    }
    let res = match instruction.opcode {
        Opcode::IDL => execute_idl(cpu),
        Opcode::LDN => execute_ldn(cpu, instruction.register),
        Opcode::INC => execute_inc(cpu, instruction.register),
        Opcode::DEC => execute_dec(cpu, instruction.register),
        Opcode::LDA => execute_lda(cpu, instruction.register),
        Opcode::STR => execute_str(cpu, instruction.register),
        Opcode::GLO => execute_glo(cpu, instruction.register),
        Opcode::GHI => execute_ghi(cpu, instruction.register),
        Opcode::PLO => execute_plo(cpu, instruction.register),
        Opcode::PHI => execute_phi(cpu, instruction.register),
        Opcode::SEP => execute_sep(cpu, instruction.register),
        Opcode::SEX => execute_sex(cpu, instruction.register),
        Opcode::LDX => execute_ldx(cpu),
        Opcode::LDXA => execute_ldxa(cpu),
        Opcode::STXD => execute_stxd(cpu),
        Opcode::IRX => execute_irx(cpu),
        Opcode::LDI => execute_ldi(cpu, instruction.immediate.unwrap_or(0)),
        Opcode::ADD => execute_add(cpu),
        Opcode::ADI => execute_adi(cpu, instruction.immediate.unwrap_or(0)),
        Opcode::ADC => execute_adc(cpu),
        Opcode::ADCI => execute_adci(cpu, instruction.immediate.unwrap_or(0)),
        Opcode::SD => execute_sd(cpu),
        Opcode::SDI => execute_sdi(cpu, instruction.immediate.unwrap_or(0)),
        Opcode::SM => execute_sm(cpu),
        Opcode::SMI => execute_smi(cpu, instruction.immediate.unwrap_or(0)),
        Opcode::AND => execute_and(cpu),
        Opcode::ANI => execute_ani(cpu, instruction.immediate.unwrap_or(0)),
        Opcode::OR => execute_or(cpu),
        Opcode::ORI => execute_ori(cpu, instruction.immediate.unwrap_or(0)),
        Opcode::XOR => execute_xor(cpu),
        Opcode::XRI => execute_xri(cpu, instruction.immediate.unwrap_or(0)),
        Opcode::SHR => execute_shr(cpu),
        Opcode::SHL => execute_shl(cpu),
        Opcode::SHRC => execute_shrc(cpu),
        Opcode::SHLC => execute_shlc(cpu),
        Opcode::BR => execute_br(cpu, instruction.immediate.unwrap_or(0)),
        Opcode::BZ => execute_bz(cpu, instruction.immediate.unwrap_or(0)),
        Opcode::BNZ => execute_bnz(cpu, instruction.immediate.unwrap_or(0)),
        Opcode::BDF => execute_bdf(cpu, instruction.immediate.unwrap_or(0)),
        Opcode::BNF => execute_bnf(cpu, instruction.immediate.unwrap_or(0)),
        Opcode::BQ => execute_bq(cpu, instruction.immediate.unwrap_or(0)),
        Opcode::BNQ => execute_bnq(cpu, instruction.immediate.unwrap_or(0)),
        Opcode::SKP => execute_skp(cpu),
        Opcode::LBR => execute_lbr(cpu, instruction.address.unwrap_or(0)),
        Opcode::LBZ => execute_lbz(cpu, instruction.address.unwrap_or(0)),
        Opcode::LBNZ => execute_lbnz(cpu, instruction.address.unwrap_or(0)),
        Opcode::LBDF => execute_lbdf(cpu, instruction.address.unwrap_or(0)),
        Opcode::LBNF => execute_lbnf(cpu, instruction.address.unwrap_or(0)),
        Opcode::LBQ => execute_lbq(cpu, instruction.address.unwrap_or(0)),
        Opcode::LBNQ => execute_lbnq(cpu, instruction.address.unwrap_or(0)),
        Opcode::LSKP => execute_lskp(cpu),
        Opcode::REQ => execute_req(cpu),
        Opcode::SEQ => execute_seq(cpu),
        Opcode::NOP => Ok(()),
        _ => Ok(()),
    };
    match res {
        Ok(()) => {},
        Err(e) => {
            return Err(e);
        },
    }
    cpu.cycles = cpu.cycles + 1;
    cpu.instructions_executed = cpu.instructions_executed + 1;
    assert(cpu@ =~= spec_execute(old(cpu)@, *instruction));
    Ok(())
}

/// IDL - idle: set the halt latch.
fn execute_idl(cpu: &mut Cpu) -> (r: Result<(), CpuError>)
    requires
        old(cpu).wf(),
    ensures
        final(cpu).wf(),
        r == Ok::<(), CpuError>(()),
        final(cpu)@ == step_idl(old(cpu)@),
{
    cpu.halt();
    Ok(())
}

/// LDN - load via N: D = M(RN).
fn execute_ldn(cpu: &mut Cpu, n: u8) -> (r: Result<(), CpuError>)
    requires
        old(cpu).wf(),
        n < 16,
    ensures
        final(cpu).wf(),
        r == Ok::<(), CpuError>(()),
        final(cpu)@ == step_ldn(old(cpu)@, n),
{
    let addr = match cpu.get_register(n) {
        Ok(v) => v,
        Err(e) => {
            return Err(e);
        },
    };
    let v = match cpu.read_byte(addr) {
        Ok(v) => v,
        Err(e) => {
            return Err(e);
        },
    };
    cpu.d = v;
    assert(cpu@ =~= step_ldn(old(cpu)@, n));
    Ok(())
}

/// LDA - load advance: D = M(RN), RN += 1.
fn execute_lda(cpu: &mut Cpu, n: u8) -> (r: Result<(), CpuError>)
    requires
        old(cpu).wf(),
        n < 16,
    ensures
        final(cpu).wf(),
        r == Ok::<(), CpuError>(()),
        final(cpu)@ == step_lda(old(cpu)@, n),
{
    let addr = match cpu.get_register(n) {
        Ok(v) => v,
        Err(e) => {
            return Err(e);
        },
    };
    let v = match cpu.read_byte(addr) {
        Ok(v) => v,
        Err(e) => {
            return Err(e);
        },
    };
    cpu.d = v;
    let res = cpu.set_register(n, addr.wrapping_add(1));
    match res {
        Ok(()) => {},
        Err(e) => {
            return Err(e);
        },
    }
    assert(cpu@ =~= step_lda(old(cpu)@, n));
    Ok(())
}

/// LDX - load via X: D = M(RX).
fn execute_ldx(cpu: &mut Cpu) -> (r: Result<(), CpuError>)
    requires
        old(cpu).wf(),
    ensures
        final(cpu).wf(),
        r == Ok::<(), CpuError>(()),
        final(cpu)@ == step_ldx(old(cpu)@),
{
    let addr = cpu.get_x_register();
    let v = match cpu.read_byte(addr) {
        Ok(v) => v,
        Err(e) => {
            return Err(e);
        },
    };
    cpu.d = v;
    assert(cpu@ =~= step_ldx(old(cpu)@));
    Ok(())
}

/// LDXA - load via X and advance: D = M(RX), RX += 1.
fn execute_ldxa(cpu: &mut Cpu) -> (r: Result<(), CpuError>)
    requires
        old(cpu).wf(),
    ensures
        final(cpu).wf(),
        r == Ok::<(), CpuError>(()),
        final(cpu)@ == step_ldxa(old(cpu)@),
{
    let addr = cpu.get_x_register();
    let v = match cpu.read_byte(addr) {
        Ok(v) => v,
        Err(e) => {
            return Err(e);
        },
    };
    cpu.d = v;
    cpu.set_x_register(addr.wrapping_add(1));
    assert(cpu@ =~= step_ldxa(old(cpu)@));
    Ok(())
}

/// STR - store via N: M(RN) = D.
fn execute_str(cpu: &mut Cpu, n: u8) -> (r: Result<(), CpuError>)
    requires
        old(cpu).wf(),
        n < 16,
    ensures
        final(cpu).wf(),
        r == Ok::<(), CpuError>(()),
        final(cpu)@ == step_str(old(cpu)@, n),
{
    let addr = match cpu.get_register(n) {
        Ok(v) => v,
        Err(e) => {
            return Err(e);
        },
    };
    let d = cpu.d;
    let res = cpu.write_byte(addr, d);
    match res {
        Ok(()) => {},
        Err(e) => {
            return Err(e);
        },
    }
    assert(cpu@ =~= step_str(old(cpu)@, n));
    Ok(())
}

/// STXD - store via X and decrement: M(RX) = D, RX -= 1.
fn execute_stxd(cpu: &mut Cpu) -> (r: Result<(), CpuError>)
    requires
        old(cpu).wf(),
    ensures
        final(cpu).wf(),
        r == Ok::<(), CpuError>(()),
        final(cpu)@ == step_stxd(old(cpu)@),
{
    let addr = cpu.get_x_register();
    let d = cpu.d;
    let res = cpu.write_byte(addr, d);
    match res {
        Ok(()) => {},
        Err(e) => {
            return Err(e);
        },
    }
    cpu.set_x_register(addr.wrapping_sub(1));
    assert(cpu@ =~= step_stxd(old(cpu)@));
    Ok(())
}

/// LDI - load immediate: D = immediate.
fn execute_ldi(cpu: &mut Cpu, immediate: u8) -> (r: Result<(), CpuError>)
    requires
        old(cpu).wf(),
    ensures
        final(cpu).wf(),
        r == Ok::<(), CpuError>(()),
        final(cpu)@ == step_ldi(old(cpu)@, immediate),
{
    cpu.d = immediate;
    assert(cpu@ =~= step_ldi(old(cpu)@, immediate));
    Ok(())
}

/// INC - increment register: RN += 1.
fn execute_inc(cpu: &mut Cpu, n: u8) -> (r: Result<(), CpuError>)
    requires
        old(cpu).wf(),
        n < 16,
    ensures
        final(cpu).wf(),
        r == Ok::<(), CpuError>(()),
        final(cpu)@ == step_inc(old(cpu)@, n),
{
    let val = match cpu.get_register(n) {
        Ok(v) => v,
        Err(e) => {
            return Err(e);
        },
    };
    let res = cpu.set_register(n, val.wrapping_add(1));
    match res {
        Ok(()) => {},
        Err(e) => {
            return Err(e);
        },
    }
    assert(cpu@ =~= step_inc(old(cpu)@, n));
    Ok(())
}

/// DEC - decrement register: RN -= 1.
fn execute_dec(cpu: &mut Cpu, n: u8) -> (r: Result<(), CpuError>)
    requires
        old(cpu).wf(),
        n < 16,
    ensures
        final(cpu).wf(),
        r == Ok::<(), CpuError>(()),
        final(cpu)@ == step_dec(old(cpu)@, n),
{
    let val = match cpu.get_register(n) {
        Ok(v) => v,
        Err(e) => {
            return Err(e);
        },
    };
    let res = cpu.set_register(n, val.wrapping_sub(1));
    match res {
        Ok(()) => {},
        Err(e) => {
            return Err(e);
        },
    }
    assert(cpu@ =~= step_dec(old(cpu)@, n));
    Ok(())
}

/// IRX - increment register X: RX += 1.
fn execute_irx(cpu: &mut Cpu) -> (r: Result<(), CpuError>)
    requires
        old(cpu).wf(),
    ensures
        final(cpu).wf(),
        r == Ok::<(), CpuError>(()),
        final(cpu)@ == step_irx(old(cpu)@),
{
    let addr = cpu.get_x_register();
    cpu.set_x_register(addr.wrapping_add(1));
    assert(cpu@ =~= step_irx(old(cpu)@));
    Ok(())
}

/// GLO - get low byte of RN: D = RN & 0xFF.
fn execute_glo(cpu: &mut Cpu, n: u8) -> (r: Result<(), CpuError>)
    requires
        old(cpu).wf(),
        n < 16,
    ensures
        final(cpu).wf(),
        r == Ok::<(), CpuError>(()),
        final(cpu)@ == step_glo(old(cpu)@, n),
{
    let val = match cpu.get_register(n) {
        Ok(v) => v,
        Err(e) => {
            return Err(e);
        },
    };
    proof {
        lemma_low_byte(val);
    }
    cpu.d = (val & 0xFF) as u8;
    assert(cpu@ =~= step_glo(old(cpu)@, n));
    Ok(())
}

/// GHI - get high byte of RN: D = (RN >> 8) & 0xFF.
fn execute_ghi(cpu: &mut Cpu, n: u8) -> (r: Result<(), CpuError>)
    requires
        old(cpu).wf(),
        n < 16,
    ensures
        final(cpu).wf(),
        r == Ok::<(), CpuError>(()),
        final(cpu)@ == step_ghi(old(cpu)@, n),
{
    let val = match cpu.get_register(n) {
        Ok(v) => v,
        Err(e) => {
            return Err(e);
        },
    };
    proof {
        lemma_high_byte(val);
    }
    cpu.d = ((val >> 8) & 0xFF) as u8;
    assert(cpu@ =~= step_ghi(old(cpu)@, n));
    Ok(())
}

/// PLO - put low byte: RN = (RN & 0xFF00) | D.
fn execute_plo(cpu: &mut Cpu, n: u8) -> (r: Result<(), CpuError>)
    requires
        old(cpu).wf(),
        n < 16,
    ensures
        final(cpu).wf(),
        r == Ok::<(), CpuError>(()),
        final(cpu)@ == step_plo(old(cpu)@, n),
{
    let val = match cpu.get_register(n) {
        Ok(v) => v,
        Err(e) => {
            return Err(e);
        },
    };
    let new_val = (val & 0xFF00) | (cpu.d as u16);
    let res = cpu.set_register(n, new_val);
    match res {
        Ok(()) => {},
        Err(e) => {
            return Err(e);
        },
    }
    assert(cpu@ =~= step_plo(old(cpu)@, n));
    Ok(())
}

/// PHI - put high byte: RN = (RN & 0x00FF) | (D << 8).
fn execute_phi(cpu: &mut Cpu, n: u8) -> (r: Result<(), CpuError>)
    requires
        old(cpu).wf(),
        n < 16,
    ensures
        final(cpu).wf(),
        r == Ok::<(), CpuError>(()),
        final(cpu)@ == step_phi(old(cpu)@, n),
{
    let val = match cpu.get_register(n) {
        Ok(v) => v,
        Err(e) => {
            return Err(e);
        },
    };
    let new_val = (val & 0x00FF) | ((cpu.d as u16) << 8);
    let res = cpu.set_register(n, new_val);
    match res {
        Ok(()) => {},
        Err(e) => {
            return Err(e);
        },
    }
    assert(cpu@ =~= step_phi(old(cpu)@, n));
    Ok(())
}

/// SEP - set P: select RN as program counter.
fn execute_sep(cpu: &mut Cpu, n: u8) -> (r: Result<(), CpuError>)
    requires
        old(cpu).wf(),
    ensures
        final(cpu).wf(),
        r == Ok::<(), CpuError>(()),
        final(cpu)@ == step_sep(old(cpu)@, n),
{
    proof {
        lemma_low_nibble(n);
    }
    cpu.p = n & 0x0F;
    assert(cpu@ =~= step_sep(old(cpu)@, n));
    Ok(())
}

/// SEX - set X: select RN as index register.
fn execute_sex(cpu: &mut Cpu, n: u8) -> (r: Result<(), CpuError>)
    requires
        old(cpu).wf(),
    ensures
        final(cpu).wf(),
        r == Ok::<(), CpuError>(()),
        final(cpu)@ == step_sex(old(cpu)@, n),
{
    proof {
        lemma_low_nibble(n);
    }
    cpu.x = n & 0x0F;
    assert(cpu@ =~= step_sex(old(cpu)@, n));
    Ok(())
}

/// The byte that the index register points at.
fn read_x_operand(cpu: &Cpu) -> (r: u8)
    requires
        cpu.wf(),
    ensures
        r == cpu@.mem[cpu@.rx() as int],
{
    let addr = cpu.get_x_register();
    match cpu.read_byte(addr) {
        Ok(v) => v,
        Err(_) => 0,
    }
}

/// ADD - add: D = D + M(RX), DF = carry.
fn execute_add(cpu: &mut Cpu) -> (r: Result<(), CpuError>)
    requires
        old(cpu).wf(),
    ensures
        final(cpu).wf(),
        r == Ok::<(), CpuError>(()),
        final(cpu)@ == step_add(old(cpu)@, old(cpu)@.mem[old(cpu)@.rx() as int]),
{
    let mem_val = read_x_operand(cpu);
    execute_adi(cpu, mem_val)
}

/// ADI - add immediate: D = D + operand, DF = carry.
fn execute_adi(cpu: &mut Cpu, immediate: u8) -> (r: Result<(), CpuError>)
    requires
        old(cpu).wf(),
    ensures
        final(cpu).wf(),
        r == Ok::<(), CpuError>(()),
        final(cpu)@ == step_add(old(cpu)@, immediate),
{
    let sum = cpu.d as u16 + immediate as u16;
    cpu.d = (sum % 256) as u8;
    cpu.df = sum >= 256;
    assert(cpu@ =~= step_add(old(cpu)@, immediate));
    Ok(())
}

/// ADC - add with carry: D = D + M(RX) + DF, DF = carry of either step.
fn execute_adc(cpu: &mut Cpu) -> (r: Result<(), CpuError>)
    requires
        old(cpu).wf(),
    ensures
        final(cpu).wf(),
        r == Ok::<(), CpuError>(()),
        final(cpu)@ == step_adc(old(cpu)@, old(cpu)@.mem[old(cpu)@.rx() as int]),
{
    let mem_val = read_x_operand(cpu);
    execute_adci(cpu, mem_val)
}

/// ADCI - add with carry immediate: D = D + operand + DF.
fn execute_adci(cpu: &mut Cpu, immediate: u8) -> (r: Result<(), CpuError>)
    requires
        old(cpu).wf(),
    ensures
        final(cpu).wf(),
        r == Ok::<(), CpuError>(()),
        final(cpu)@ == step_adc(old(cpu)@, immediate),
{
    let carry_in: u16 = if cpu.df {
        1
    } else {
        0
    };
    let sum = cpu.d as u16 + immediate as u16 + carry_in;
    cpu.d = (sum % 256) as u8;
    cpu.df = sum >= 256;
    assert(cpu@ =~= step_adc(old(cpu)@, immediate));
    Ok(())
}

/// SD - subtract D: D = M(RX) - D, DF = 1 when no borrow.
fn execute_sd(cpu: &mut Cpu) -> (r: Result<(), CpuError>)
    requires
        old(cpu).wf(),
    ensures
        final(cpu).wf(),
        r == Ok::<(), CpuError>(()),
        final(cpu)@ == step_sd(old(cpu)@, old(cpu)@.mem[old(cpu)@.rx() as int]),
{
    let mem_val = read_x_operand(cpu);
    execute_sdi(cpu, mem_val)
}

/// SDI - subtract D immediate: D = operand - D, DF = 1 when no borrow.
fn execute_sdi(cpu: &mut Cpu, immediate: u8) -> (r: Result<(), CpuError>)
    requires
        old(cpu).wf(),
    ensures
        final(cpu).wf(),
        r == Ok::<(), CpuError>(()),
        final(cpu)@ == step_sd(old(cpu)@, immediate),
{
    let a = immediate as u16;
    let b = cpu.d as u16;
    cpu.df = a >= b;
    cpu.d = ((a + 256 - b) % 256) as u8;
    assert(cpu@ =~= step_sd(old(cpu)@, immediate));
    Ok(())
}

/// SM - subtract memory: D = D - M(RX), DF = 1 when no borrow.
fn execute_sm(cpu: &mut Cpu) -> (r: Result<(), CpuError>)
    requires
        old(cpu).wf(),
    ensures
        final(cpu).wf(),
        r == Ok::<(), CpuError>(()),
        final(cpu)@ == step_sm(old(cpu)@, old(cpu)@.mem[old(cpu)@.rx() as int]),
{
    let mem_val = read_x_operand(cpu);
    execute_smi(cpu, mem_val)
}

/// SMI - subtract memory immediate: D = D - operand.
fn execute_smi(cpu: &mut Cpu, immediate: u8) -> (r: Result<(), CpuError>)
    requires
        old(cpu).wf(),
    ensures
        final(cpu).wf(),
        r == Ok::<(), CpuError>(()),
        final(cpu)@ == step_sm(old(cpu)@, immediate),
{
    let a = cpu.d as u16;
    let b = immediate as u16;
    cpu.df = a >= b;
    cpu.d = ((a + 256 - b) % 256) as u8;
    assert(cpu@ =~= step_sm(old(cpu)@, immediate));
    Ok(())
}

/// AND - logical AND: D = D & M(RX).
fn execute_and(cpu: &mut Cpu) -> (r: Result<(), CpuError>)
    requires
        old(cpu).wf(),
    ensures
        final(cpu).wf(),
        r == Ok::<(), CpuError>(()),
        final(cpu)@ == step_and(old(cpu)@, old(cpu)@.mem[old(cpu)@.rx() as int]),
{
    let mem_val = read_x_operand(cpu);
    execute_ani(cpu, mem_val)
}

/// ANI - AND immediate: D = D & operand.
fn execute_ani(cpu: &mut Cpu, immediate: u8) -> (r: Result<(), CpuError>)
    requires
        old(cpu).wf(),
    ensures
        final(cpu).wf(),
        r == Ok::<(), CpuError>(()),
        final(cpu)@ == step_and(old(cpu)@, immediate),
{
    cpu.d = cpu.d & immediate;
    assert(cpu@ =~= step_and(old(cpu)@, immediate));
    Ok(())
}

/// OR - logical OR: D = D | M(RX).
fn execute_or(cpu: &mut Cpu) -> (r: Result<(), CpuError>)
    requires
        old(cpu).wf(),
    ensures
        final(cpu).wf(),
        r == Ok::<(), CpuError>(()),
        final(cpu)@ == step_or(old(cpu)@, old(cpu)@.mem[old(cpu)@.rx() as int]),
{
    let mem_val = read_x_operand(cpu);
    execute_ori(cpu, mem_val)
}

/// ORI - OR immediate: D = D | operand.
fn execute_ori(cpu: &mut Cpu, immediate: u8) -> (r: Result<(), CpuError>)
    requires
        old(cpu).wf(),
    ensures
        final(cpu).wf(),
        r == Ok::<(), CpuError>(()),
        final(cpu)@ == step_or(old(cpu)@, immediate),
{
    cpu.d = cpu.d | immediate;
    assert(cpu@ =~= step_or(old(cpu)@, immediate));
    Ok(())
}

/// XOR - logical XOR: D = D ^ M(RX).
fn execute_xor(cpu: &mut Cpu) -> (r: Result<(), CpuError>)
    requires
        old(cpu).wf(),
    ensures
        final(cpu).wf(),
        r == Ok::<(), CpuError>(()),
        final(cpu)@ == step_xor(old(cpu)@, old(cpu)@.mem[old(cpu)@.rx() as int]),
{
    let mem_val = read_x_operand(cpu);
    execute_xri(cpu, mem_val)
}

/// XRI - XOR immediate: D = D ^ operand.
fn execute_xri(cpu: &mut Cpu, immediate: u8) -> (r: Result<(), CpuError>)
    requires
        old(cpu).wf(),
    ensures
        final(cpu).wf(),
        r == Ok::<(), CpuError>(()),
        final(cpu)@ == step_xor(old(cpu)@, immediate),
{
    cpu.d = cpu.d ^ immediate;
    assert(cpu@ =~= step_xor(old(cpu)@, immediate));
    Ok(())
}

/// SHR - shift right: bit 0 becomes DF, D = D >> 1.
fn execute_shr(cpu: &mut Cpu) -> (r: Result<(), CpuError>)
    requires
        old(cpu).wf(),
    ensures
        final(cpu).wf(),
        r == Ok::<(), CpuError>(()),
        final(cpu)@ == step_shr(old(cpu)@),
{
    cpu.df = (cpu.d & 1) != 0;
    cpu.d = cpu.d >> 1;
    assert(cpu@ =~= step_shr(old(cpu)@));
    Ok(())
}

/// SHL - shift left: bit 7 becomes DF, D = (2 * D) mod 256.
fn execute_shl(cpu: &mut Cpu) -> (r: Result<(), CpuError>)
    requires
        old(cpu).wf(),
    ensures
        final(cpu).wf(),
        r == Ok::<(), CpuError>(()),
        final(cpu)@ == step_shl(old(cpu)@),
{
    cpu.df = (cpu.d & 0x80) != 0;
    cpu.d = ((cpu.d as u16 * 2) % 256) as u8;
    assert(cpu@ =~= step_shl(old(cpu)@));
    Ok(())
}

/// SHRC - shift right with carry: old DF enters bit 7, bit 0 becomes DF.
fn execute_shrc(cpu: &mut Cpu) -> (r: Result<(), CpuError>)
    requires
        old(cpu).wf(),
    ensures
        final(cpu).wf(),
        r == Ok::<(), CpuError>(()),
        final(cpu)@ == step_shrc(old(cpu)@),
{
    let old_carry = cpu.df;
    let carry_bit: u8 = if old_carry {
        0x80
    } else {
        0
    };
    cpu.df = (cpu.d & 1) != 0;
    cpu.d = (cpu.d >> 1) | carry_bit;
    assert(cpu@ =~= step_shrc(old(cpu)@));
    Ok(())
}

/// SHLC - shift left with carry: old DF enters bit 0, bit 7 becomes DF.
fn execute_shlc(cpu: &mut Cpu) -> (r: Result<(), CpuError>)
    requires
        old(cpu).wf(),
    ensures
        final(cpu).wf(),
        r == Ok::<(), CpuError>(()),
        final(cpu)@ == step_shlc(old(cpu)@),
{
    let old_carry = cpu.df;
    let carry_bit: u8 = if old_carry {
        1
    } else {
        0
    };
    cpu.df = (cpu.d & 0x80) != 0;
    cpu.d = (((cpu.d as u16 * 2) % 256) as u8) | carry_bit;
    assert(cpu@ =~= step_shlc(old(cpu)@));
    Ok(())
}

/// BR - short branch: the low byte of the program counter becomes the
/// offset; the high byte is untouched.
fn execute_br(cpu: &mut Cpu, offset: u8) -> (r: Result<(), CpuError>)
    requires
        old(cpu).wf(),
    ensures
        final(cpu).wf(),
        r == Ok::<(), CpuError>(()),
        final(cpu)@ == step_br(old(cpu)@, offset),
{
    let pc = cpu.get_pc();
    let new_pc = (pc & 0xFF00) | (offset as u16);
    cpu.set_pc(new_pc);
    assert(cpu@ =~= step_br(old(cpu)@, offset));
    Ok(())
}

/// BZ - short branch if D = 0.
fn execute_bz(cpu: &mut Cpu, offset: u8) -> (r: Result<(), CpuError>)
    requires
        old(cpu).wf(),
    ensures
        final(cpu).wf(),
        r == Ok::<(), CpuError>(()),
        final(cpu)@ == step_short_branch(old(cpu)@, offset, old(cpu)@.d == 0),
{
    if cpu.d == 0 {
        return execute_br(cpu, offset);
    }
    Ok(())
}

/// BNZ - short branch if D != 0.
fn execute_bnz(cpu: &mut Cpu, offset: u8) -> (r: Result<(), CpuError>)
    requires
        old(cpu).wf(),
    ensures
        final(cpu).wf(),
        r == Ok::<(), CpuError>(()),
        final(cpu)@ == step_short_branch(old(cpu)@, offset, old(cpu)@.d != 0),
{
    if cpu.d != 0 {
        return execute_br(cpu, offset);
    }
    Ok(())
}

/// BDF - short branch if DF = 1.
fn execute_bdf(cpu: &mut Cpu, offset: u8) -> (r: Result<(), CpuError>)
    requires
        old(cpu).wf(),
    ensures
        final(cpu).wf(),
        r == Ok::<(), CpuError>(()),
        final(cpu)@ == step_short_branch(old(cpu)@, offset, old(cpu)@.df),
{
    if cpu.df {
        return execute_br(cpu, offset);
    }
    Ok(())
}

/// BNF - short branch if DF = 0.
fn execute_bnf(cpu: &mut Cpu, offset: u8) -> (r: Result<(), CpuError>)
    requires
        old(cpu).wf(),
    ensures
        final(cpu).wf(),
        r == Ok::<(), CpuError>(()),
        final(cpu)@ == step_short_branch(old(cpu)@, offset, !old(cpu)@.df),
{
    if !cpu.df {
        return execute_br(cpu, offset);
    }
    Ok(())
}

/// BQ - short branch if Q = 1.
fn execute_bq(cpu: &mut Cpu, offset: u8) -> (r: Result<(), CpuError>)
    requires
        old(cpu).wf(),
    ensures
        final(cpu).wf(),
        r == Ok::<(), CpuError>(()),
        final(cpu)@ == step_short_branch(old(cpu)@, offset, old(cpu)@.q),
{
    if cpu.q {
        return execute_br(cpu, offset);
    }
    Ok(())
}

/// BNQ - short branch if Q = 0.
fn execute_bnq(cpu: &mut Cpu, offset: u8) -> (r: Result<(), CpuError>)
    requires
        old(cpu).wf(),
    ensures
        final(cpu).wf(),
        r == Ok::<(), CpuError>(()),
        final(cpu)@ == step_short_branch(old(cpu)@, offset, !old(cpu)@.q),
{
    if !cpu.q {
        return execute_br(cpu, offset);
    }
    Ok(())
}

/// SKP - skip: advance the program counter past the next byte.
fn execute_skp(cpu: &mut Cpu) -> (r: Result<(), CpuError>)
    requires
        old(cpu).wf(),
    ensures
        final(cpu).wf(),
        r == Ok::<(), CpuError>(()),
        final(cpu)@ == step_skp(old(cpu)@),
{
    let pc = cpu.get_pc();
    cpu.set_pc(pc.wrapping_add(1));
    assert(cpu@ =~= step_skp(old(cpu)@));
    Ok(())
}

/// LBR - long branch: the full 16-bit program counter becomes the address.
fn execute_lbr(cpu: &mut Cpu, address: u16) -> (r: Result<(), CpuError>)
    requires
        old(cpu).wf(),
    ensures
        final(cpu).wf(),
        r == Ok::<(), CpuError>(()),
        final(cpu)@ == step_lbr(old(cpu)@, address),
{
    cpu.set_pc(address);
    assert(cpu@ =~= step_lbr(old(cpu)@, address));
    Ok(())
}

/// LBZ - long branch if D = 0.
fn execute_lbz(cpu: &mut Cpu, address: u16) -> (r: Result<(), CpuError>)
    requires
        old(cpu).wf(),
    ensures
        final(cpu).wf(),
        r == Ok::<(), CpuError>(()),
        final(cpu)@ == step_long_branch(old(cpu)@, address, old(cpu)@.d == 0),
{
    if cpu.d == 0 {
        return execute_lbr(cpu, address);
    }
    Ok(())
}

/// LBNZ - long branch if D != 0.
fn execute_lbnz(cpu: &mut Cpu, address: u16) -> (r: Result<(), CpuError>)
    requires
        old(cpu).wf(),
    ensures
        final(cpu).wf(),
        r == Ok::<(), CpuError>(()),
        final(cpu)@ == step_long_branch(old(cpu)@, address, old(cpu)@.d != 0),
{
    if cpu.d != 0 {
        return execute_lbr(cpu, address);
    }
    Ok(())
}

/// LBDF - long branch if DF = 1.
fn execute_lbdf(cpu: &mut Cpu, address: u16) -> (r: Result<(), CpuError>)
    requires
        old(cpu).wf(),
    ensures
        final(cpu).wf(),
        r == Ok::<(), CpuError>(()),
        final(cpu)@ == step_long_branch(old(cpu)@, address, old(cpu)@.df),
{
    if cpu.df {
        return execute_lbr(cpu, address);
    }
    Ok(())
}

/// LBNF - long branch if DF = 0.
fn execute_lbnf(cpu: &mut Cpu, address: u16) -> (r: Result<(), CpuError>)
    requires
        old(cpu).wf(),
    ensures
        final(cpu).wf(),
        r == Ok::<(), CpuError>(()),
        final(cpu)@ == step_long_branch(old(cpu)@, address, !old(cpu)@.df),
{
    if !cpu.df {
        return execute_lbr(cpu, address);
    }
    Ok(())
}

/// LBQ - long branch if Q = 1.
fn execute_lbq(cpu: &mut Cpu, address: u16) -> (r: Result<(), CpuError>)
    requires
        old(cpu).wf(),
    ensures
        final(cpu).wf(),
        r == Ok::<(), CpuError>(()),
        final(cpu)@ == step_long_branch(old(cpu)@, address, old(cpu)@.q),
{
    if cpu.q {
        return execute_lbr(cpu, address);
    }
    Ok(())
}

/// LBNQ - long branch if Q = 0.
fn execute_lbnq(cpu: &mut Cpu, address: u16) -> (r: Result<(), CpuError>)
    requires
        old(cpu).wf(),
    ensures
        final(cpu).wf(),
        r == Ok::<(), CpuError>(()),
        final(cpu)@ == step_long_branch(old(cpu)@, address, !old(cpu)@.q),
{
    if !cpu.q {
        return execute_lbr(cpu, address);
    }
    Ok(())
}

/// LSKP - long skip: advance the program counter past the next two bytes.
fn execute_lskp(cpu: &mut Cpu) -> (r: Result<(), CpuError>)
    requires
        old(cpu).wf(),
    ensures
        final(cpu).wf(),
        r == Ok::<(), CpuError>(()),
        final(cpu)@ == step_lskp(old(cpu)@),
{
    let pc = cpu.get_pc();
    cpu.set_pc(pc.wrapping_add(2));
    assert(cpu@ =~= step_lskp(old(cpu)@));
    Ok(())
}

/// REQ - reset Q: Q = 0.
fn execute_req(cpu: &mut Cpu) -> (r: Result<(), CpuError>)
    requires
        old(cpu).wf(),
    ensures
        final(cpu).wf(),
        r == Ok::<(), CpuError>(()),
        final(cpu)@ == step_req(old(cpu)@),
{
    cpu.q = false;
    assert(cpu@ =~= step_req(old(cpu)@));
    Ok(())
}

/// The three bytes in the fetch window at the program counter; addresses
/// wrap at 16 bits.
pub open spec fn spec_fetched(s: CpuView) -> Seq<u8> {
    seq![
        s.mem[s.pc() as int],
        s.mem[wrap_add16(s.pc(), 1) as int],
        s.mem[wrap_add16(s.pc(), 2) as int],
    ]
}

/// One fetch-decode-execute step of a non-halted CPU.  The program counter
/// is advanced past the instruction before execution, so a taken branch
/// overwrites the advanced value.
pub open spec fn spec_step(s: CpuView) -> CpuView {
    let i = spec_decode(spec_fetched(s))->Some_0;
    spec_execute(
        s.with_reg(s.p as int, wrap_add16(s.pc(), spec_opcode_len(i.opcode) as u16)),
        i,
    )
}

/// Repeated stepping: stops when the CPU halts or the fuel runs out.
pub open spec fn spec_run(s: CpuView, fuel: nat) -> CpuView
    decreases fuel,
{
    if fuel == 0 || s.halted {
        s
    } else {
        spec_run(spec_step(s), (fuel - 1) as nat)
    }
}

impl Cpu {
    /// Decode the instruction at the program counter, advance the counter by
    /// the instruction's length, and execute it.
    ///
    /// Fails, changing nothing, exactly when the halt latch is set.
    pub fn step(&mut self) -> (r: Result<(), CpuError>)
        requires
            old(self).wf(),
            old(self)@.cycles < u64::MAX,
            old(self)@.instructions_executed < u64::MAX,
        ensures
            final(self).wf(),
            old(self)@.halted ==> r == Err::<(), CpuError>(CpuError::Halted) && *final(self)
                == *old(self),
            !old(self)@.halted ==> r == Ok::<(), CpuError>(()) && final(self)@ == spec_step(
                old(self)@,
            ),
            !old(self)@.halted ==> final(self)@.cycles == old(self)@.cycles + 1
                && final(self)@.instructions_executed == old(self)@.instructions_executed + 1,
    {
        if self.is_halted() {
            return Err(CpuError::Halted);
        }
        let pc = self.get_pc();
        let b0 = match self.read_byte(pc) {
            Ok(v) => v,
            Err(e) => {
                return Err(e);
            },
        };
        let b1 = match self.read_byte(pc.wrapping_add(1)) {
            Ok(v) => v,
            Err(e) => {
                return Err(e);
            },
        };
        let b2 = match self.read_byte(pc.wrapping_add(2)) {
            Ok(v) => v,
            Err(e) => {
                return Err(e);
            },
        };
        let mut bytes: Vec<u8> = Vec::new();
        bytes.push(b0);
        bytes.push(b1);
        bytes.push(b2);
        assert(bytes@ =~= spec_fetched(self@));
        let instruction = match Instruction::decode(bytes.as_slice()) {
            Some(i) => i,
            None => {
                return Err(CpuError::InvalidInstruction(pc));
            },
        };
        proof {
            lemma_low_nibble(b0);
        }
        let instruction_length = instruction.opcode.length() as u16;
        self.set_pc(pc.wrapping_add(instruction_length));
        let res = execute_instruction(self, &instruction);
        match res {
            Ok(()) => {},
            Err(e) => {
                return Err(e);
            },
        }
        assert(self@ =~= spec_step(old(self)@));
        Ok(())
    }

    /// Step repeatedly until the CPU halts or `max_cycles` cycles have been
    /// spent.  The cycle budget is the only guard against a program that
    /// never halts.
    pub fn run(&mut self, max_cycles: u32) -> (r: Result<(), CpuError>)
        requires
            old(self).wf(),
            old(self)@.cycles + max_cycles <= u64::MAX,
            old(self)@.instructions_executed + max_cycles <= u64::MAX,
        ensures
            final(self).wf(),
            r == Ok::<(), CpuError>(()),
            final(self)@ == spec_run(old(self)@, max_cycles as nat),
    {
        let start_cycles = self.cycles;
        while !self.halted && self.cycles - start_cycles < max_cycles as u64
            invariant
                self.wf(),
                start_cycles <= self@.cycles,
                self@.cycles - start_cycles <= max_cycles,
                self@.cycles + (max_cycles - (self@.cycles - start_cycles)) <= u64::MAX,
                self@.instructions_executed + (max_cycles - (self@.cycles - start_cycles))
                    <= u64::MAX,
                spec_run(old(self)@, max_cycles as nat) == spec_run(
                    self@,
                    (max_cycles - (self@.cycles - start_cycles)) as nat,
                ),
            decreases max_cycles - (self@.cycles - start_cycles),
        {
            let res = self.step();
            match res {
                Ok(()) => {},
                Err(e) => {
                    return Err(e);
                },
            }
        }
        Ok(())
    }
}

/// SEQ - set Q: Q = 1.
fn execute_seq(cpu: &mut Cpu) -> (r: Result<(), CpuError>)
    requires
        old(cpu).wf(),
    ensures
        final(cpu).wf(),
        r == Ok::<(), CpuError>(()),
        final(cpu)@ == step_seq(old(cpu)@),
{
    cpu.q = true;
    assert(cpu@ =~= step_seq(old(cpu)@));
    Ok(())
}

} // verus!
