use cosmac1802::state::Cpu;

#[test]
fn test_cpu_creation() {
    let cpu = Cpu::new();
    assert_eq!(cpu.get_pc(), 0);
    assert_eq!(cpu.d, 0);
    assert!(!cpu.df);
    assert_eq!(cpu.p, 0);
    assert_eq!(cpu.x, 0);
}

#[test]
fn test_pc_operations() {
    let mut cpu = Cpu::new();
    cpu.set_pc(0x100);
    assert_eq!(cpu.get_pc(), 0x100);

    cpu.increment_pc();
    assert_eq!(cpu.get_pc(), 0x101);
}

#[test]
fn test_register_operations() {
    let mut cpu = Cpu::new();
    cpu.set_register(5, 0x1234).unwrap();
    assert_eq!(cpu.get_register(5).unwrap(), 0x1234);

    assert!(cpu.set_register(16, 0).is_err());
    assert!(cpu.get_register(16).is_err());
}

#[test]
fn test_memory_operations() {
    let mut cpu = Cpu::new();
    cpu.write_byte(0x100, 0x42).unwrap();
    assert_eq!(cpu.read_byte(0x100).unwrap(), 0x42);
}

#[test]
fn test_load_program() {
    let mut cpu = Cpu::new();
    let program = vec![0x01, 0x02, 0x03, 0x04];
    cpu.load_program(&program, 0x100).unwrap();

    assert_eq!(cpu.read_byte(0x100).unwrap(), 0x01);
    assert_eq!(cpu.read_byte(0x101).unwrap(), 0x02);
    assert_eq!(cpu.read_byte(0x102).unwrap(), 0x03);
    assert_eq!(cpu.read_byte(0x103).unwrap(), 0x04);
}

#[test]
fn test_p_and_x_selectors() {
    let mut cpu = Cpu::new();

    // Set R3 to 0x200
    cpu.set_register(3, 0x200).unwrap();

    // Make R3 the program counter
    cpu.p = 3;
    assert_eq!(cpu.get_pc(), 0x200);

    // Set R5 to 0x300
    cpu.set_register(5, 0x300).unwrap();

    // Make R5 the index register
    cpu.x = 5;
    assert_eq!(cpu.get_x_register(), 0x300);
}

#[test]
fn test_wasm_cpu_creation() {
    let cpu = Cpu::new();
    assert!(!cpu.is_halted());
    assert_eq!(cpu.get_pc(), 0);
}

#[test]
fn test_wasm_reset() {
    let mut cpu = Cpu::new();
    cpu.set_register(1, 100).unwrap();
    cpu.d = 42;

    cpu.reset();
    assert_eq!(cpu.get_register(1).unwrap(), 0);
    assert_eq!(cpu.d, 0);
}

#[test]
fn test_wasm_register_access() {
    let mut cpu = Cpu::new();

    // Test all 16 registers
    for i in 0..16 {
        cpu.set_register(i, 0x1234 + i as u16).unwrap();
        assert_eq!(cpu.get_register(i).unwrap(), 0x1234 + i as u16);
    }

    // Test invalid register
    assert!(cpu.set_register(16, 100).is_err());
    assert!(cpu.get_register(16).is_err());
}

#[test]
fn test_wasm_memory_access() {
    let mut cpu = Cpu::new();

    cpu.write_byte(0x100, 0xAB).unwrap();
    assert_eq!(cpu.read_byte(0x100).unwrap(), 0xAB);
}

#[test]
fn test_power_on_state() {
    // Power-on reset: all registers zero, P = X = 0, IE set, memory clear.
    let cpu = Cpu::new();
    for i in 0..16 {
        assert_eq!(cpu.get_register(i).unwrap(), 0);
    }
    assert!(cpu.ie);
    assert!(!cpu.q);
    assert!(!cpu.halted);
    assert_eq!(cpu.cycles, 0);
    assert_eq!(cpu.instructions_executed, 0);
    assert_eq!(cpu.read_byte(0xFFFF).unwrap(), 0);
}

#[test]
fn test_load_program_at_end_of_memory() {
    // Loading right up to the last byte succeeds; one byte further fails
    // and leaves memory unmodified.
    let mut cpu = Cpu::new();
    cpu.load_program(&[0xAA, 0xBB], 0xFFFE).unwrap();
    assert_eq!(cpu.read_byte(0xFFFE).unwrap(), 0xAA);
    assert_eq!(cpu.read_byte(0xFFFF).unwrap(), 0xBB);

    let mut fresh = Cpu::new();
    assert!(fresh.load_program(&[0x01, 0x02, 0x03, 0x04], 0xFFFE).is_err());
    assert_eq!(fresh.read_byte(0xFFFE).unwrap(), 0);
    assert_eq!(fresh.read_byte(0xFFFF).unwrap(), 0);
}

#[test]
fn test_pc_wraps_at_16_bits() {
    let mut cpu = Cpu::new();
    cpu.set_pc(0xFFFF);
    cpu.increment_pc();
    assert_eq!(cpu.get_pc(), 0);
}
