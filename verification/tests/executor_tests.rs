use cosmac1802::executor::execute_instruction;
use cosmac1802::instruction::Instruction;
use cosmac1802::opcode::Opcode;
use cosmac1802::state::{Cpu, CpuError};

#[test]
fn test_ldi() {
    let mut cpu = Cpu::new();
    let instr = Instruction::with_immediate(Opcode::LDI, 0, 0x42);
    execute_instruction(&mut cpu, &instr).unwrap();
    assert_eq!(cpu.d, 0x42);
}

#[test]
fn test_inc_dec() {
    let mut cpu = Cpu::new();
    cpu.set_register(5, 100).unwrap();

    let instr = Instruction::new(Opcode::INC, 5);
    execute_instruction(&mut cpu, &instr).unwrap();
    assert_eq!(cpu.get_register(5).unwrap(), 101);

    let instr = Instruction::new(Opcode::DEC, 5);
    execute_instruction(&mut cpu, &instr).unwrap();
    assert_eq!(cpu.get_register(5).unwrap(), 100);
}

#[test]
fn test_ldn_str() {
    let mut cpu = Cpu::new();
    cpu.write_byte(0x100, 0x42).unwrap();
    cpu.set_register(3, 0x100).unwrap();

    // LDN R3 - load from memory
    let instr = Instruction::new(Opcode::LDN, 3);
    execute_instruction(&mut cpu, &instr).unwrap();
    assert_eq!(cpu.d, 0x42);

    // Change D and store back
    cpu.d = 0x99;
    let instr = Instruction::new(Opcode::STR, 3);
    execute_instruction(&mut cpu, &instr).unwrap();
    assert_eq!(cpu.read_byte(0x100).unwrap(), 0x99);
}

#[test]
fn test_add() {
    let mut cpu = Cpu::new();
    cpu.d = 10;
    cpu.x = 3;
    cpu.set_register(3, 0x100).unwrap();
    cpu.write_byte(0x100, 20).unwrap();

    let instr = Instruction::new(Opcode::ADD, 0);
    execute_instruction(&mut cpu, &instr).unwrap();
    assert_eq!(cpu.d, 30);
    assert!(!cpu.df); // No carry
}

#[test]
fn test_glo_ghi() {
    let mut cpu = Cpu::new();
    cpu.set_register(5, 0x1234).unwrap();

    // GLO R5
    let instr = Instruction::new(Opcode::GLO, 5);
    execute_instruction(&mut cpu, &instr).unwrap();
    assert_eq!(cpu.d, 0x34);

    // GHI R5
    let instr = Instruction::new(Opcode::GHI, 5);
    execute_instruction(&mut cpu, &instr).unwrap();
    assert_eq!(cpu.d, 0x12);
}

#[test]
fn test_pc_advancement() {
    let mut cpu = Cpu::new();

    // Load a simple program: LDI 0x42, PHI R5
    // LDI = 0xF8 0x42 (2 bytes)
    // PHI R5 = 0xB5 (1 byte)
    cpu.write_byte(0, 0xF8).unwrap(); // LDI
    cpu.write_byte(1, 0x42).unwrap(); // immediate value
    cpu.write_byte(2, 0xB5).unwrap(); // PHI R5

    // Initial PC should be 0
    assert_eq!(cpu.get_pc(), 0);

    // Execute first instruction (LDI 0x42)
    // This is a 2-byte instruction, so PC should advance to 2
    let instr_bytes = vec![0xF8, 0x42];
    let instr = Instruction::decode(&instr_bytes).unwrap();
    let pc = cpu.get_pc();
    cpu.set_pc(pc + instr.opcode.length() as u16);
    execute_instruction(&mut cpu, &instr).unwrap();

    // PC should now be 2
    assert_eq!(cpu.get_pc(), 2);

    // D register should be 0x42
    assert_eq!(cpu.d, 0x42);

    // Execute second instruction (PHI R5)
    // This is a 1-byte instruction, so PC should advance to 3
    let instr_bytes = vec![0xB5];
    let instr = Instruction::decode(&instr_bytes).unwrap();
    let pc = cpu.get_pc();
    cpu.set_pc(pc + instr.opcode.length() as u16);
    execute_instruction(&mut cpu, &instr).unwrap();

    // PC should now be 3
    assert_eq!(cpu.get_pc(), 3);

    // R5 high byte should be 0x42
    assert_eq!(cpu.get_register(5).unwrap() >> 8, 0x42);
}

#[test]
fn test_add_carry() {
    // For all a, b: ADD gives (a + b) mod 256 with DF = 1 iff a + b >= 256.
    let mut cpu = Cpu::new();
    cpu.d = 200;
    let instr = Instruction::with_immediate(Opcode::ADI, 0, 100);
    execute_instruction(&mut cpu, &instr).unwrap();
    assert_eq!(cpu.d, 44); // (200 + 100) mod 256
    assert!(cpu.df);
}

#[test]
fn test_adc_carry_chain() {
    // ADC adds memory and the old DF; DF is the carry of either step.
    let mut cpu = Cpu::new();
    cpu.d = 0xFF;
    cpu.df = true;
    let instr = Instruction::with_immediate(Opcode::ADCI, 0, 0x00);
    execute_instruction(&mut cpu, &instr).unwrap();
    assert_eq!(cpu.d, 0x00); // 0xFF + 0 + 1
    assert!(cpu.df);
}

#[test]
fn test_subtract_memory() {
    // SM: D = D - operand, DF = 1 exactly when no borrow (D >= operand).
    let mut cpu = Cpu::new();
    cpu.d = 10;
    let instr = Instruction::with_immediate(Opcode::SMI, 0, 3);
    execute_instruction(&mut cpu, &instr).unwrap();
    assert_eq!(cpu.d, 7);
    assert!(cpu.df); // no borrow

    cpu.d = 5;
    let instr = Instruction::with_immediate(Opcode::SMI, 0, 10);
    execute_instruction(&mut cpu, &instr).unwrap();
    assert_eq!(cpu.d, 251); // (5 - 10) mod 256
    assert!(!cpu.df); // borrow occurred
}

#[test]
fn test_subtract_d() {
    // SD: D = operand - D, same inverted borrow convention.
    let mut cpu = Cpu::new();
    cpu.d = 3;
    let instr = Instruction::with_immediate(Opcode::SDI, 0, 10);
    execute_instruction(&mut cpu, &instr).unwrap();
    assert_eq!(cpu.d, 7);
    assert!(cpu.df);
}

#[test]
fn test_logical_ops() {
    let mut cpu = Cpu::new();
    cpu.d = 0b1100;
    let instr = Instruction::with_immediate(Opcode::ANI, 0, 0b1010);
    execute_instruction(&mut cpu, &instr).unwrap();
    assert_eq!(cpu.d, 0b1000);

    let instr = Instruction::with_immediate(Opcode::ORI, 0, 0b0011);
    execute_instruction(&mut cpu, &instr).unwrap();
    assert_eq!(cpu.d, 0b1011);

    let instr = Instruction::with_immediate(Opcode::XRI, 0, 0b1111);
    execute_instruction(&mut cpu, &instr).unwrap();
    assert_eq!(cpu.d, 0b0100);
}

#[test]
fn test_shift_right() {
    // SHR: (a >> 1, DF = a & 1).
    let mut cpu = Cpu::new();
    cpu.d = 5;
    execute_instruction(&mut cpu, &Instruction::new(Opcode::SHR, 0)).unwrap();
    assert_eq!(cpu.d, 2);
    assert!(cpu.df);
}

#[test]
fn test_shift_left() {
    // SHL: ((a << 1) mod 256, DF = (a & 0x80) != 0).
    let mut cpu = Cpu::new();
    cpu.d = 0x81;
    execute_instruction(&mut cpu, &Instruction::new(Opcode::SHL, 0)).unwrap();
    assert_eq!(cpu.d, 0x02);
    assert!(cpu.df);
}

#[test]
fn test_shift_with_carry() {
    // SHRC and SHLC shift the old DF into the vacated bit.
    let mut cpu = Cpu::new();
    cpu.d = 0x02;
    cpu.df = true;
    execute_instruction(&mut cpu, &Instruction::new(Opcode::SHRC, 0)).unwrap();
    assert_eq!(cpu.d, 0x81);
    assert!(!cpu.df);

    cpu.d = 0x80;
    cpu.df = true;
    execute_instruction(&mut cpu, &Instruction::with_immediate(Opcode::SHLC, 0, 0)).unwrap();
    assert_eq!(cpu.d, 0x01);
    assert!(cpu.df);
}

#[test]
fn test_short_branch_changes_low_byte_only() {
    // A short branch replaces only the low byte of the counter register.
    let mut cpu = Cpu::new();
    cpu.set_pc(0x1234);
    execute_instruction(&mut cpu, &Instruction::with_immediate(Opcode::BR, 0, 0x56)).unwrap();
    assert_eq!(cpu.get_pc(), 0x1256);
}

#[test]
fn test_conditional_short_branches() {
    let mut cpu = Cpu::new();
    cpu.set_pc(0x0210);

    // BZ taken when D == 0
    cpu.d = 0;
    execute_instruction(&mut cpu, &Instruction::with_immediate(Opcode::BZ, 0, 0x40)).unwrap();
    assert_eq!(cpu.get_pc(), 0x0240);

    // BNZ not taken when D == 0
    execute_instruction(&mut cpu, &Instruction::with_immediate(Opcode::BNZ, 0, 0x99)).unwrap();
    assert_eq!(cpu.get_pc(), 0x0240);

    // BDF taken when DF set
    cpu.df = true;
    execute_instruction(&mut cpu, &Instruction::with_immediate(Opcode::BDF, 0, 0x11)).unwrap();
    assert_eq!(cpu.get_pc(), 0x0211);

    // BNQ taken when Q clear
    execute_instruction(&mut cpu, &Instruction::with_immediate(Opcode::BNQ, 0, 0x22)).unwrap();
    assert_eq!(cpu.get_pc(), 0x0222);
}

#[test]
fn test_long_branch_sets_full_pc() {
    // A long branch replaces the full 16-bit counter register.
    let mut cpu = Cpu::new();
    cpu.set_pc(0x1234);
    execute_instruction(&mut cpu, &Instruction::with_address(Opcode::LBR, 0, 0xBEEF)).unwrap();
    assert_eq!(cpu.get_pc(), 0xBEEF);

    cpu.d = 1;
    execute_instruction(&mut cpu, &Instruction::with_address(Opcode::LBZ, 0, 0x1000)).unwrap();
    assert_eq!(cpu.get_pc(), 0xBEEF); // not taken: D != 0

    execute_instruction(&mut cpu, &Instruction::with_address(Opcode::LBNZ, 0, 0x1000)).unwrap();
    assert_eq!(cpu.get_pc(), 0x1000); // taken
}

#[test]
fn test_skip_ops() {
    let mut cpu = Cpu::new();
    cpu.set_pc(0x100);
    execute_instruction(&mut cpu, &Instruction::with_immediate(Opcode::SKP, 0, 0)).unwrap();
    assert_eq!(cpu.get_pc(), 0x101);
    execute_instruction(&mut cpu, &Instruction::with_address(Opcode::LSKP, 0, 0)).unwrap();
    assert_eq!(cpu.get_pc(), 0x103);
}

#[test]
fn test_sep_sex_q() {
    let mut cpu = Cpu::new();
    execute_instruction(&mut cpu, &Instruction::new(Opcode::SEP, 5)).unwrap();
    assert_eq!(cpu.p, 5);
    execute_instruction(&mut cpu, &Instruction::new(Opcode::SEX, 7)).unwrap();
    assert_eq!(cpu.x, 7);
    execute_instruction(&mut cpu, &Instruction::new(Opcode::SEQ, 0)).unwrap();
    assert!(cpu.q);
    execute_instruction(&mut cpu, &Instruction::new(Opcode::REQ, 0)).unwrap();
    assert!(!cpu.q);
}

#[test]
fn test_plo_phi() {
    let mut cpu = Cpu::new();
    cpu.set_register(4, 0xAABB).unwrap();
    cpu.d = 0x11;
    execute_instruction(&mut cpu, &Instruction::new(Opcode::PLO, 4)).unwrap();
    assert_eq!(cpu.get_register(4).unwrap(), 0xAA11);
    cpu.d = 0x22;
    execute_instruction(&mut cpu, &Instruction::new(Opcode::PHI, 4)).unwrap();
    assert_eq!(cpu.get_register(4).unwrap(), 0x2211);
}

#[test]
fn test_lda_ldxa_stxd_irx() {
    let mut cpu = Cpu::new();
    cpu.write_byte(0x200, 0x7E).unwrap();
    cpu.set_register(6, 0x200).unwrap();

    // LDA: load then advance RN.
    execute_instruction(&mut cpu, &Instruction::new(Opcode::LDA, 6)).unwrap();
    assert_eq!(cpu.d, 0x7E);
    assert_eq!(cpu.get_register(6).unwrap(), 0x201);

    // LDXA: load via X then advance RX.
    cpu.x = 6;
    cpu.set_register(6, 0x200).unwrap();
    execute_instruction(&mut cpu, &Instruction::new(Opcode::LDXA, 0)).unwrap();
    assert_eq!(cpu.d, 0x7E);
    assert_eq!(cpu.get_register(6).unwrap(), 0x201);

    // STXD: store via X then decrement RX.
    cpu.d = 0x5A;
    execute_instruction(&mut cpu, &Instruction::new(Opcode::STXD, 0)).unwrap();
    assert_eq!(cpu.read_byte(0x201).unwrap(), 0x5A);
    assert_eq!(cpu.get_register(6).unwrap(), 0x200);

    // IRX: increment RX.
    execute_instruction(&mut cpu, &Instruction::new(Opcode::IRX, 0)).unwrap();
    assert_eq!(cpu.get_register(6).unwrap(), 0x201);
}

#[test]
fn test_counters_advance() {
    let mut cpu = Cpu::new();
    execute_instruction(&mut cpu, &Instruction::new(Opcode::NOP, 4)).unwrap();
    execute_instruction(&mut cpu, &Instruction::new(Opcode::NOP, 4)).unwrap();
    assert_eq!(cpu.cycles, 2);
    assert_eq!(cpu.instructions_executed, 2);
}

#[test]
fn test_idl_halts_and_step_fails() {
    // Executing IDL sets the halt latch; any later attempt fails with the
    // halted condition and leaves all other state unchanged.
    let mut cpu = Cpu::new();
    cpu.d = 0x33;
    execute_instruction(&mut cpu, &Instruction::new(Opcode::IDL, 0)).unwrap();
    assert!(cpu.is_halted());

    let cycles = cpu.cycles;
    let instructions = cpu.instructions_executed;
    let r = execute_instruction(&mut cpu, &Instruction::with_immediate(Opcode::LDI, 0, 0x77));
    assert_eq!(r, Err(CpuError::Halted));
    assert_eq!(cpu.d, 0x33);
    assert_eq!(cpu.cycles, cycles);
    assert_eq!(cpu.instructions_executed, instructions);

    assert_eq!(cpu.step(), Err(CpuError::Halted));
    assert_eq!(cpu.d, 0x33);
}

#[test]
fn test_step_through_program() {
    // Stepping a freshly loaded CPU through LDI 0x05; PHI R1 leaves
    // register 1's high byte equal to 5 and the program counter at 3.
    let mut cpu = Cpu::new();
    cpu.load_program(&[0xF8, 0x05, 0xB1], 0).unwrap();
    cpu.step().unwrap();
    assert_eq!(cpu.d, 0x05);
    assert_eq!(cpu.get_pc(), 2);
    cpu.step().unwrap();
    assert_eq!(cpu.get_register(1).unwrap() >> 8, 5);
    assert_eq!(cpu.get_pc(), 3);
}

#[test]
fn test_run_until_halt() {
    // LDI 0x05, PHI R1, IDL: run halts on IDL well inside the budget.
    let mut cpu = Cpu::new();
    cpu.load_program(&[0xF8, 0x05, 0xB1, 0x00], 0).unwrap();
    cpu.run(100).unwrap();
    assert!(cpu.is_halted());
    assert_eq!(cpu.get_register(1).unwrap(), 0x0500);
    assert_eq!(cpu.cycles, 3);
}

#[test]
fn test_run_exhausts_budget() {
    // BR 0x00 loops forever; run stops after exactly the cycle budget.
    let mut cpu = Cpu::new();
    cpu.load_program(&[0x30, 0x00], 0).unwrap();
    cpu.run(10).unwrap();
    assert!(!cpu.is_halted());
    assert_eq!(cpu.cycles, 10);
}

#[test]
fn test_unmodelled_op_is_noop() {
    // Operations the simulator does not model (here OUT) leave the state
    // unchanged apart from the counters.
    let mut cpu = Cpu::new();
    cpu.d = 0x12;
    execute_instruction(&mut cpu, &Instruction::new(Opcode::OUT, 1)).unwrap();
    assert_eq!(cpu.d, 0x12);
    assert_eq!(cpu.get_pc(), 0);
    assert_eq!(cpu.cycles, 1);
}
