//! Decoded instructions: an operation together with its 4-bit register
//! field, an optional 8-bit immediate and an optional 16-bit address.
//!
//! Decoding is pure: the same bytes always yield the same instruction.  The
//! low 4 bits of the first byte are always extracted as the register field,
//! whether or not the operation uses it.  A 2-byte operation carries its
//! second byte as the immediate; a 3-byte operation carries its second and
//! third bytes as a big-endian address.

use vstd::prelude::*;

use crate::opcode::{Opcode, spec_opcode_len, spec_opcode_of_byte};

verus! {

/// A decoded instruction.  Immutable once decoded.
#[derive(Debug, Clone, PartialEq, Eq)]
pub struct Instruction {
    /// The operation.
    pub opcode: Opcode,
    /// The N field (0-15) for register-based operations.
    pub register: u8,
    /// The immediate byte of a 2-byte operation.
    pub immediate: Option<u8>,
    /// The 16-bit address of a 3-byte operation.
    pub address: Option<u16>,
}

/// What a byte slice decodes to: `None` when the slice is shorter than the
/// operation's encoded length, otherwise the decoded instruction.
pub open spec fn spec_decode(bytes: Seq<u8>) -> Option<Instruction> {
    if bytes.len() == 0 {
        None
    } else {
        let op = spec_opcode_of_byte(bytes[0]);
        let reg = bytes[0] & 0x0F;
        if spec_opcode_len(op) == 1 {
            Some(Instruction { opcode: op, register: reg, immediate: None, address: None })
        } else if spec_opcode_len(op) == 2 {
            if bytes.len() < 2 {
                None
            } else {
                Some(
                    Instruction {
                        opcode: op,
                        register: reg,
                        immediate: Some(bytes[1]),
                        address: None,
                    },
                )
            }
        } else {
            if bytes.len() < 3 {
                None
            } else {
                Some(
                    Instruction {
                        opcode: op,
                        register: reg,
                        immediate: None,
                        address: Some(((bytes[1] as u16) << 8) | (bytes[2] as u16)),
                    },
                )
            }
        }
    }
}

/// The first byte of an instruction's encoding: the operation's base byte,
/// with the register field folded into the low nibble for the register-keyed
/// operation families.
pub open spec fn spec_base_byte(op: Opcode, register: u8) -> u8 {
    match op {
        Opcode::IDL => 0x00,
        Opcode::LDN => register & 0x0F,
        Opcode::INC => 0x10 | (register & 0x0F),
        Opcode::DEC => 0x20 | (register & 0x0F),
        Opcode::BR => 0x30,
        Opcode::BQ => 0x31,
        Opcode::BZ => 0x32,
        Opcode::BDF => 0x33,
        Opcode::B1 => 0x34,
        Opcode::B2 => 0x35,
        Opcode::B3 => 0x36,
        Opcode::B4 => 0x37,
        Opcode::SKP => 0x38,
        Opcode::BNQ => 0x39,
        Opcode::BNZ => 0x3A,
        Opcode::BNF => 0x3B,
        Opcode::BN1 => 0x3C,
        Opcode::BN2 => 0x3D,
        Opcode::BN3 => 0x3E,
        Opcode::BN4 => 0x3F,
        Opcode::LDA => 0x40 | (register & 0x0F),
        Opcode::STR => 0x50 | (register & 0x0F),
        Opcode::IRX => 0x60,
        Opcode::OUT => 0x60 | (register & 0x0F),
        Opcode::INP => 0x68 | (register & 0x0F),
        Opcode::RET => 0x70,
        Opcode::DIS => 0x71,
        Opcode::LDXA => 0x72,
        Opcode::STXD => 0x73,
        Opcode::ADC => 0x74,
        Opcode::SDB => 0x75,
        Opcode::SHRC => 0x76,
        Opcode::SMB => 0x77,
        Opcode::SAV => 0x78,
        Opcode::MARK => 0x79,
        Opcode::REQ => 0x7A,
        Opcode::SEQ => 0x7B,
        Opcode::ADCI => 0x7C,
        Opcode::SDBI => 0x7D,
        Opcode::SHLC => 0x7E,
        Opcode::SMBI => 0x7F,
        Opcode::GLO => 0x80 | (register & 0x0F),
        Opcode::GHI => 0x90 | (register & 0x0F),
        Opcode::PLO => 0xA0 | (register & 0x0F),
        Opcode::PHI => 0xB0 | (register & 0x0F),
        Opcode::LBR => 0xC0,
        Opcode::LBQ => 0xC1,
        Opcode::LBZ => 0xC2,
        Opcode::LBDF => 0xC3,
        Opcode::NOP => 0xC4,
        Opcode::LSNQ => 0xC5,
        Opcode::LSNZ => 0xC6,
        Opcode::LSNF => 0xC7,
        Opcode::LSKP => 0xC8,
        Opcode::LBNQ => 0xC9,
        Opcode::LBNZ => 0xCA,
        Opcode::LBNF => 0xCB,
        Opcode::LSIE => 0xCC,
        Opcode::LSQ => 0xCD,
        Opcode::LSZ => 0xCE,
        Opcode::LSDF => 0xCF,
        Opcode::SEP => 0xD0 | (register & 0x0F),
        Opcode::SEX => 0xE0 | (register & 0x0F),
        Opcode::LDX => 0xF0,
        Opcode::OR => 0xF1,
        Opcode::AND => 0xF2,
        Opcode::XOR => 0xF3,
        Opcode::ADD => 0xF4,
        Opcode::SD => 0xF5,
        Opcode::SHR => 0xF6,
        Opcode::SM => 0xF7,
        Opcode::LDI => 0xF8,
        Opcode::ORI => 0xF9,
        Opcode::ANI => 0xFA,
        Opcode::XRI => 0xFB,
        Opcode::ADI => 0xFC,
        Opcode::SDI => 0xFD,
        Opcode::SHL => 0xFE,
        Opcode::SMI => 0xFF,
    }
}

/// The byte encoding of an instruction: base byte, then the immediate if
/// present, then the address (big-endian) if present.
pub open spec fn spec_encode(i: Instruction) -> Seq<u8> {
    let base = seq![spec_base_byte(i.opcode, i.register)];
    let with_imm = match i.immediate {
        Some(imm) => base.push(imm),
        None => base,
    };
    match i.address {
        Some(addr) => with_imm.push((addr >> 8) as u8).push((addr & 0xFF) as u8),
        None => with_imm,
    }
}

impl Instruction {
    /// A 1-byte instruction: operation and register field only.
    pub fn new(opcode: Opcode, register: u8) -> (r: Instruction)
        ensures
            r == (Instruction { opcode, register, immediate: None, address: None }),
    {
        Instruction { opcode, register, immediate: None, address: None }
    }

    /// A 2-byte instruction carrying an immediate.
    pub fn with_immediate(opcode: Opcode, register: u8, immediate: u8) -> (r: Instruction)
        ensures
            r == (Instruction { opcode, register, immediate: Some(immediate), address: None }),
    {
        Instruction { opcode, register, immediate: Some(immediate), address: None }
    }

    /// A 3-byte instruction carrying a 16-bit address.
    pub fn with_address(opcode: Opcode, register: u8, address: u16) -> (r: Instruction)
        ensures
            r == (Instruction { opcode, register, immediate: None, address: Some(address) }),
    {
        Instruction { opcode, register, immediate: None, address: Some(address) }
    }

    /// Decode an instruction from bytes.  Returns `None` exactly when the
    /// slice is shorter than the encoded length of the operation named by
    /// its first byte.
    pub fn decode(bytes: &[u8]) -> (r: Option<Instruction>)
        ensures
            r == spec_decode(bytes@),
    {
        if bytes.len() == 0 {
            return None;
        }
        let byte = bytes[0];
        let opcode = match Opcode::from_byte(byte) {
            Some(op) => op,
            None => {
                return None;
            },
        };
        let register = byte & 0x0F;
        let len = opcode.length();
        if len == 1 {
            Some(Instruction::new(opcode, register))
        } else if len == 2 {
            if bytes.len() < 2 {
                return None;
            }
            Some(Instruction::with_immediate(opcode, register, bytes[1]))
        } else {
            if bytes.len() < 3 {
                return None;
            }
            let addr = ((bytes[1] as u16) << 8) | (bytes[2] as u16);
            Some(Instruction::with_address(opcode, register, addr))
        }
    }

    /// Encode this instruction to bytes.
    pub fn encode(&self) -> (r: Vec<u8>)
        ensures
            r@ == spec_encode(*self),
    {
        let mut bytes: Vec<u8> = Vec::new();
        bytes.push(self.get_base_opcode());
        if let Some(imm) = self.immediate {
            bytes.push(imm);
        }
        if let Some(addr) = self.address {
            bytes.push((addr >> 8) as u8);
            bytes.push((addr & 0xFF) as u8);
        }
        assert(bytes@ =~= spec_encode(*self));
        bytes
    }

    /// The first byte of this instruction's encoding.
    fn get_base_opcode(&self) -> (r: u8)
        ensures
            r == spec_base_byte(self.opcode, self.register),
    {
        match self.opcode {
            Opcode::IDL => 0x00,
            Opcode::LDN => self.register & 0x0F,
            Opcode::INC => 0x10 | (self.register & 0x0F),
            Opcode::DEC => 0x20 | (self.register & 0x0F),
            Opcode::BR => 0x30,
            Opcode::BQ => 0x31,
            Opcode::BZ => 0x32,
            Opcode::BDF => 0x33,
            Opcode::B1 => 0x34,
            Opcode::B2 => 0x35,
            Opcode::B3 => 0x36,
            Opcode::B4 => 0x37,
            Opcode::SKP => 0x38,
            Opcode::BNQ => 0x39,
            Opcode::BNZ => 0x3A,
            Opcode::BNF => 0x3B,
            Opcode::BN1 => 0x3C,
            Opcode::BN2 => 0x3D,
            Opcode::BN3 => 0x3E,
            Opcode::BN4 => 0x3F,
            Opcode::LDA => 0x40 | (self.register & 0x0F),
            Opcode::STR => 0x50 | (self.register & 0x0F),
            Opcode::IRX => 0x60,
            Opcode::OUT => 0x60 | (self.register & 0x0F),
            Opcode::INP => 0x68 | (self.register & 0x0F),
            Opcode::RET => 0x70,
            Opcode::DIS => 0x71,
            Opcode::LDXA => 0x72,
            Opcode::STXD => 0x73,
            Opcode::ADC => 0x74,
            Opcode::SDB => 0x75,
            Opcode::SHRC => 0x76,
            Opcode::SMB => 0x77,
            Opcode::SAV => 0x78,
            Opcode::MARK => 0x79,
            Opcode::REQ => 0x7A,
            Opcode::SEQ => 0x7B,
            Opcode::ADCI => 0x7C,
            Opcode::SDBI => 0x7D,
            Opcode::SHLC => 0x7E,
            Opcode::SMBI => 0x7F,
            Opcode::GLO => 0x80 | (self.register & 0x0F),
            Opcode::GHI => 0x90 | (self.register & 0x0F),
            Opcode::PLO => 0xA0 | (self.register & 0x0F),
            Opcode::PHI => 0xB0 | (self.register & 0x0F),
            Opcode::LBR => 0xC0,
            Opcode::LBQ => 0xC1,
            Opcode::LBZ => 0xC2,
            Opcode::LBDF => 0xC3,
            Opcode::NOP => 0xC4,
            Opcode::LSNQ => 0xC5,
            Opcode::LSNZ => 0xC6,
            Opcode::LSNF => 0xC7,
            Opcode::LSKP => 0xC8,
            Opcode::LBNQ => 0xC9,
            Opcode::LBNZ => 0xCA,
            Opcode::LBNF => 0xCB,
            Opcode::LSIE => 0xCC,
            Opcode::LSQ => 0xCD,
            Opcode::LSZ => 0xCE,
            Opcode::LSDF => 0xCF,
            Opcode::SEP => 0xD0 | (self.register & 0x0F),
            Opcode::SEX => 0xE0 | (self.register & 0x0F),
            Opcode::LDX => 0xF0,
            Opcode::OR => 0xF1,
            Opcode::AND => 0xF2,
            Opcode::XOR => 0xF3,
            Opcode::ADD => 0xF4,
            Opcode::SD => 0xF5,
            Opcode::SHR => 0xF6,
            Opcode::SM => 0xF7,
            Opcode::LDI => 0xF8,
            Opcode::ORI => 0xF9,
            Opcode::ANI => 0xFA,
            Opcode::XRI => 0xFB,
            Opcode::ADI => 0xFC,
            Opcode::SDI => 0xFD,
            Opcode::SHL => 0xFE,
            Opcode::SMI => 0xFF,
        }
    }
}

} // verus!
