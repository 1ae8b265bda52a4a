use cosmac1802::instruction::Instruction;
use cosmac1802::opcode::Opcode;

#[test]
fn test_opcode_decode() {
    assert_eq!(Opcode::from_byte(0x00), Some(Opcode::IDL));
    assert_eq!(Opcode::from_byte(0x15), Some(Opcode::INC));
    assert_eq!(Opcode::from_byte(0xF8), Some(Opcode::LDI));
    assert_eq!(Opcode::from_byte(0xC4), Some(Opcode::NOP));
}

#[test]
fn test_instruction_decode() {
    // LDN R5 (0x05)
    let bytes = vec![0x05];
    let instr = Instruction::decode(&bytes).unwrap();
    assert_eq!(instr.opcode, Opcode::LDN);
    assert_eq!(instr.register, 5);
    assert_eq!(instr.immediate, None);

    // LDI #42 (0xF8 0x2A)
    let bytes = vec![0xF8, 0x2A];
    let instr = Instruction::decode(&bytes).unwrap();
    assert_eq!(instr.opcode, Opcode::LDI);
    assert_eq!(instr.immediate, Some(0x2A));
}

#[test]
fn test_instruction_length() {
    assert_eq!(Opcode::LDN.length(), 1);
    assert_eq!(Opcode::LDI.length(), 2);
    assert_eq!(Opcode::LBR.length(), 3);
}

#[test]
fn test_mnemonic() {
    assert_eq!(Opcode::LDN.mnemonic(), "LDN");
    assert_eq!(Opcode::INC.mnemonic(), "INC");
    assert_eq!(Opcode::LDI.mnemonic(), "LDI");
}

#[test]
fn test_every_byte_decodes() {
    // The opcode table is total: every byte value names an operation.
    for b in 0..=255u8 {
        assert!(Opcode::from_byte(b).is_some());
        let op = Opcode::from_byte(b).unwrap();
        let len = op.length();
        assert!((1..=3).contains(&len));
        assert!(!op.mnemonic().is_empty());
    }
}

#[test]
fn test_reserved_byte_aliases() {
    // 0x68 aliases to IRX, matching historical hardware behaviour.
    assert_eq!(Opcode::from_byte(0x68), Some(Opcode::IRX));
    assert_eq!(Opcode::from_byte(0x60), Some(Opcode::IRX));
}

#[test]
fn test_lookups_are_stable() {
    // Repeated pure lookups on the same operation agree.
    for b in 0..=255u8 {
        let op = Opcode::from_byte(b).unwrap();
        assert_eq!(op.mnemonic(), op.mnemonic());
        assert_eq!(op.length(), op.length());
    }
}

#[test]
fn test_one_byte_round_trip() {
    // Encoding a 1-byte register instruction and decoding the byte gives
    // back the operation and the register field.
    for reg in 0..16u8 {
        for op in [
            Opcode::INC,
            Opcode::DEC,
            Opcode::LDA,
            Opcode::STR,
            Opcode::GLO,
            Opcode::GHI,
            Opcode::PLO,
            Opcode::PHI,
            Opcode::SEP,
            Opcode::SEX,
        ] {
            let encoded = Instruction::new(op, reg).encode();
            assert_eq!(encoded.len(), 1);
            let decoded = Instruction::decode(&encoded).unwrap();
            assert_eq!(decoded.opcode, op);
            assert_eq!(decoded.register, reg);
        }
    }
    // LDN register 0 would encode as the IDL byte, so the round trip holds
    // only from register 1 on.
    for reg in 1..16u8 {
        let encoded = Instruction::new(Opcode::LDN, reg).encode();
        let decoded = Instruction::decode(&encoded).unwrap();
        assert_eq!(decoded.opcode, Opcode::LDN);
        assert_eq!(decoded.register, reg);
    }
}

#[test]
fn test_decode_needs_full_length() {
    // A 2-byte operation does not decode from one byte, nor a 3-byte
    // operation from two.
    assert!(Instruction::decode(&[0xF8]).is_none());
    assert!(Instruction::decode(&[0xC0, 0x12]).is_none());
    assert!(Instruction::decode(&[]).is_none());
}

#[test]
fn test_decode_big_endian_address() {
    // A 3-byte operation carries its address high byte first.
    let instr = Instruction::decode(&[0xC0, 0x12, 0x34]).unwrap();
    assert_eq!(instr.opcode, Opcode::LBR);
    assert_eq!(instr.address, Some(0x1234));
}

#[test]
fn test_encode_with_operands() {
    let li = Instruction::with_immediate(Opcode::LDI, 0, 0x42);
    assert_eq!(li.encode(), vec![0xF8, 0x42]);
    let lb = Instruction::with_address(Opcode::LBR, 0, 0x1234);
    assert_eq!(lb.encode(), vec![0xC0, 0x12, 0x34]);
}
