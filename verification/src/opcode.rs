//! The opcode table of the RCA 1802: a total mapping from an 8-bit byte to a
//! symbolic operation, together with each operation's mnemonic and encoded
//! length (1, 2 or 3 bytes).
//!
//! Operations whose meaning depends only on the low 4 bits of the byte (the
//! register-field operations) occupy contiguous 16-entry ranges keyed by the
//! high nibble; all others are singleton byte values.  Several undocumented
//! byte values alias to existing operations (0x68 decodes as IRX), matching
//! historical hardware behaviour.

use vstd::prelude::*;

verus! {

/// A symbolic RCA 1802 operation.
#[derive(Debug, Clone, Copy, PartialEq, Eq, Structural)]
pub enum Opcode {
    /// IDL (00) - idle: set the halt latch
    IDL,
    /// LDN (0N) - load via N: D = M(RN)
    LDN,
    /// INC (1N) - increment register RN
    INC,
    /// DEC (2N) - decrement register RN
    DEC,
    /// BR (30) - unconditional short branch
    BR,
    /// BQ (31) - short branch if Q = 1
    BQ,
    /// BZ (32) - short branch if D = 0
    BZ,
    /// BDF (33) - short branch if DF = 1
    BDF,
    /// B1 (34) - short branch on external flag 1
    B1,
    /// B2 (35) - short branch on external flag 2
    B2,
    /// B3 (36) - short branch on external flag 3
    B3,
    /// B4 (37) - short branch on external flag 4
    B4,
    /// SKP (38) - skip the next byte
    SKP,
    /// BNQ (39) - short branch if Q = 0
    BNQ,
    /// BNZ (3A) - short branch if D != 0
    BNZ,
    /// BNF (3B) - short branch if DF = 0
    BNF,
    /// BN1 (3C) - short branch on NOT external flag 1
    BN1,
    /// BN2 (3D) - short branch on NOT external flag 2
    BN2,
    /// BN3 (3E) - short branch on NOT external flag 3
    BN3,
    /// BN4 (3F) - short branch on NOT external flag 4
    BN4,
    /// LDA (4N) - load advance: D = M(RN), RN += 1
    LDA,
    /// STR (5N) - store via N: M(RN) = D
    STR,
    /// IRX (60, also 68) - increment register X
    IRX,
    /// OUT (61-67) - output M(RX) to a port
    OUT,
    /// INP (69-6F) - input from a port
    INP,
    /// RET (70) - return from interrupt
    RET,
    /// DIS (71) - return and disable interrupts
    DIS,
    /// LDXA (72) - load via X and advance
    LDXA,
    /// STXD (73) - store via X and decrement
    STXD,
    /// ADC (74) - add with carry: D = D + M(RX) + DF
    ADC,
    /// SDB (75) - subtract D with borrow
    SDB,
    /// SHRC (76) - shift right with carry
    SHRC,
    /// SMB (77) - subtract memory with borrow
    SMB,
    /// SAV (78) - save T
    SAV,
    /// MARK (79) - push X,P to the stack
    MARK,
    /// REQ (7A) - reset Q
    REQ,
    /// SEQ (7B) - set Q
    SEQ,
    /// ADCI (7C) - add with carry, immediate
    ADCI,
    /// SDBI (7D) - subtract D with borrow, immediate
    SDBI,
    /// SHLC (7E) - shift left with carry
    SHLC,
    /// SMBI (7F) - subtract memory with borrow, immediate
    SMBI,
    /// GLO (8N) - get low byte of RN
    GLO,
    /// GHI (9N) - get high byte of RN
    GHI,
    /// PLO (AN) - put low byte of RN
    PLO,
    /// PHI (BN) - put high byte of RN
    PHI,
    /// LBR (C0) - unconditional long branch
    LBR,
    /// LBQ (C1) - long branch if Q = 1
    LBQ,
    /// LBZ (C2) - long branch if D = 0
    LBZ,
    /// LBDF (C3) - long branch if DF = 1
    LBDF,
    /// NOP (C4) - no operation
    NOP,
    /// LSNQ (C5) - long skip if Q = 0
    LSNQ,
    /// LSNZ (C6) - long skip if D != 0
    LSNZ,
    /// LSNF (C7) - long skip if DF = 0
    LSNF,
    /// LSKP (C8) - skip the next two bytes
    LSKP,
    /// LBNQ (C9) - long branch if Q = 0
    LBNQ,
    /// LBNZ (CA) - long branch if D != 0
    LBNZ,
    /// LBNF (CB) - long branch if DF = 0
    LBNF,
    /// LSIE (CC) - long skip if interrupts enabled
    LSIE,
    /// LSQ (CD) - long skip if Q = 1
    LSQ,
    /// LSZ (CE) - long skip if D = 0
    LSZ,
    /// LSDF (CF) - long skip if DF = 1
    LSDF,
    /// SEP (DN) - select RN as program counter
    SEP,
    /// SEX (EN) - select RN as index register
    SEX,
    /// LDX (F0) - load via X: D = M(RX)
    LDX,
    /// OR (F1) - D = D | M(RX)
    OR,
    /// AND (F2) - D = D & M(RX)
    AND,
    /// XOR (F3) - D = D ^ M(RX)
    XOR,
    /// ADD (F4) - D = D + M(RX)
    ADD,
    /// SD (F5) - D = M(RX) - D
    SD,
    /// SHR (F6) - shift D right
    SHR,
    /// SM (F7) - D = D - M(RX)
    SM,
    /// LDI (F8) - load immediate
    LDI,
    /// ORI (F9) - OR immediate
    ORI,
    /// ANI (FA) - AND immediate
    ANI,
    /// XRI (FB) - XOR immediate
    XRI,
    /// ADI (FC) - add immediate
    ADI,
    /// SDI (FD) - subtract D immediate
    SDI,
    /// SHL (FE) - shift D left
    SHL,
    /// SMI (FF) - subtract memory immediate
    SMI,
}

/// The operation that a byte decodes to.  Total: every byte value is mapped.
pub open spec fn spec_opcode_of_byte(b: u8) -> Opcode {
    if b == 0x00 {
        Opcode::IDL
    } else if b <= 0x0F {
        Opcode::LDN
    } else if b <= 0x1F {
        Opcode::INC
    } else if b <= 0x2F {
        Opcode::DEC
    } else if b == 0x30 {
        Opcode::BR
    } else if b == 0x31 {
        Opcode::BQ
    } else if b == 0x32 {
        Opcode::BZ
    } else if b == 0x33 {
        Opcode::BDF
    } else if b == 0x34 {
        Opcode::B1
    } else if b == 0x35 {
        Opcode::B2
    } else if b == 0x36 {
        Opcode::B3
    } else if b == 0x37 {
        Opcode::B4
    } else if b == 0x38 {
        Opcode::SKP
    } else if b == 0x39 {
        Opcode::BNQ
    } else if b == 0x3A {
        Opcode::BNZ
    } else if b == 0x3B {
        Opcode::BNF
    } else if b == 0x3C {
        Opcode::BN1
    } else if b == 0x3D {
        Opcode::BN2
    } else if b == 0x3E {
        Opcode::BN3
    } else if b == 0x3F {
        Opcode::BN4
    } else if b <= 0x4F {
        Opcode::LDA
    } else if b <= 0x5F {
        Opcode::STR
    } else if b == 0x60 {
        Opcode::IRX
    } else if b <= 0x67 {
        Opcode::OUT
    } else if b == 0x68 {
        Opcode::IRX
    } else if b <= 0x6F {
        Opcode::INP
    } else if b == 0x70 {
        Opcode::RET
    } else if b == 0x71 {
        Opcode::DIS
    } else if b == 0x72 {
        Opcode::LDXA
    } else if b == 0x73 {
        Opcode::STXD
    } else if b == 0x74 {
        Opcode::ADC
    } else if b == 0x75 {
        Opcode::SDB
    } else if b == 0x76 {
        Opcode::SHRC
    } else if b == 0x77 {
        Opcode::SMB
    } else if b == 0x78 {
        Opcode::SAV
    } else if b == 0x79 {
        Opcode::MARK
    } else if b == 0x7A {
        Opcode::REQ
    } else if b == 0x7B {
        Opcode::SEQ
    } else if b == 0x7C {
        Opcode::ADCI
    } else if b == 0x7D {
        Opcode::SDBI
    } else if b == 0x7E {
        Opcode::SHLC
    } else if b == 0x7F {
        Opcode::SMBI
    } else if b <= 0x8F {
        Opcode::GLO
    } else if b <= 0x9F {
        Opcode::GHI
    } else if b <= 0xAF {
        Opcode::PLO
    } else if b <= 0xBF {
        Opcode::PHI
    } else if b == 0xC0 {
        Opcode::LBR
    } else if b == 0xC1 {
        Opcode::LBQ
    } else if b == 0xC2 {
        Opcode::LBZ
    } else if b == 0xC3 {
        Opcode::LBDF
    } else if b == 0xC4 {
        Opcode::NOP
    } else if b == 0xC5 {
        Opcode::LSNQ
    } else if b == 0xC6 {
        Opcode::LSNZ
    } else if b == 0xC7 {
        Opcode::LSNF
    } else if b == 0xC8 {
        Opcode::LSKP
    } else if b == 0xC9 {
        Opcode::LBNQ
    } else if b == 0xCA {
        Opcode::LBNZ
    } else if b == 0xCB {
        Opcode::LBNF
    } else if b == 0xCC {
        Opcode::LSIE
    } else if b == 0xCD {
        Opcode::LSQ
    } else if b == 0xCE {
        Opcode::LSZ
    } else if b == 0xCF {
        Opcode::LSDF
    } else if b <= 0xDF {
        Opcode::SEP
    } else if b <= 0xEF {
        Opcode::SEX
    } else if b == 0xF0 {
        Opcode::LDX
    } else if b == 0xF1 {
        Opcode::OR
    } else if b == 0xF2 {
        Opcode::AND
    } else if b == 0xF3 {
        Opcode::XOR
    } else if b == 0xF4 {
        Opcode::ADD
    } else if b == 0xF5 {
        Opcode::SD
    } else if b == 0xF6 {
        Opcode::SHR
    } else if b == 0xF7 {
        Opcode::SM
    } else if b == 0xF8 {
        Opcode::LDI
    } else if b == 0xF9 {
        Opcode::ORI
    } else if b == 0xFA {
        Opcode::ANI
    } else if b == 0xFB {
        Opcode::XRI
    } else if b == 0xFC {
        Opcode::ADI
    } else if b == 0xFD {
        Opcode::SDI
    } else if b == 0xFE {
        Opcode::SHL
    } else {
        Opcode::SMI
    }
}

/// The encoded length, in bytes, of each operation: 1, 2 or 3.
pub open spec fn spec_opcode_len(op: Opcode) -> u8 {
    match op {
        Opcode::IDL | Opcode::LDN | Opcode::INC | Opcode::DEC | Opcode::LDA | Opcode::STR
        | Opcode::IRX | Opcode::OUT | Opcode::INP | Opcode::RET | Opcode::DIS | Opcode::LDXA
        | Opcode::STXD | Opcode::ADC | Opcode::SDB | Opcode::SHRC | Opcode::SMB | Opcode::SAV
        | Opcode::MARK | Opcode::REQ | Opcode::SEQ | Opcode::GLO | Opcode::GHI | Opcode::PLO
        | Opcode::PHI | Opcode::NOP | Opcode::SEP | Opcode::SEX | Opcode::LDX | Opcode::OR
        | Opcode::AND | Opcode::XOR | Opcode::ADD | Opcode::SD | Opcode::SHR | Opcode::SM
        | Opcode::SHL => 1,
        Opcode::BR | Opcode::BQ | Opcode::BZ | Opcode::BDF | Opcode::B1 | Opcode::B2
        | Opcode::B3 | Opcode::B4 | Opcode::SKP | Opcode::BNQ | Opcode::BNZ | Opcode::BNF
        | Opcode::BN1 | Opcode::BN2 | Opcode::BN3 | Opcode::BN4 | Opcode::ADCI | Opcode::SDBI
        | Opcode::SHLC | Opcode::SMBI | Opcode::LDI | Opcode::ORI | Opcode::ANI | Opcode::XRI
        | Opcode::ADI | Opcode::SDI | Opcode::SMI => 2,
        Opcode::LBR | Opcode::LBQ | Opcode::LBZ | Opcode::LBDF | Opcode::LSNQ | Opcode::LSNZ
        | Opcode::LSNF | Opcode::LSKP | Opcode::LBNQ | Opcode::LBNZ | Opcode::LBNF
        | Opcode::LSIE | Opcode::LSQ | Opcode::LSZ | Opcode::LSDF => 3,
    }
}

/// The canonical text name of each operation.
pub open spec fn spec_mnemonic(op: Opcode) -> Seq<char> {
    match op {
        Opcode::IDL => "IDL"@,
        Opcode::LDN => "LDN"@,
        Opcode::INC => "INC"@,
        Opcode::DEC => "DEC"@,
        Opcode::BR => "BR"@,
        Opcode::BQ => "BQ"@,
        Opcode::BZ => "BZ"@,
        Opcode::BDF => "BDF"@,
        Opcode::B1 => "B1"@,
        Opcode::B2 => "B2"@,
        Opcode::B3 => "B3"@,
        Opcode::B4 => "B4"@,
        Opcode::SKP => "SKP"@,
        Opcode::BNQ => "BNQ"@,
        Opcode::BNZ => "BNZ"@,
        Opcode::BNF => "BNF"@,
        Opcode::BN1 => "BN1"@,
        Opcode::BN2 => "BN2"@,
        Opcode::BN3 => "BN3"@,
        Opcode::BN4 => "BN4"@,
        Opcode::LDA => "LDA"@,
        Opcode::STR => "STR"@,
        Opcode::IRX => "IRX"@,
        Opcode::OUT => "OUT"@,
        Opcode::INP => "INP"@,
        Opcode::RET => "RET"@,
        Opcode::DIS => "DIS"@,
        Opcode::LDXA => "LDXA"@,
        Opcode::STXD => "STXD"@,
        Opcode::ADC => "ADC"@,
        Opcode::SDB => "SDB"@,
        Opcode::SHRC => "SHRC"@,
        Opcode::SMB => "SMB"@,
        Opcode::SAV => "SAV"@,
        Opcode::MARK => "MARK"@,
        Opcode::REQ => "REQ"@,
        Opcode::SEQ => "SEQ"@,
        Opcode::ADCI => "ADCI"@,
        Opcode::SDBI => "SDBI"@,
        Opcode::SHLC => "SHLC"@,
        Opcode::SMBI => "SMBI"@,
        Opcode::GLO => "GLO"@,
        Opcode::GHI => "GHI"@,
        Opcode::PLO => "PLO"@,
        Opcode::PHI => "PHI"@,
        Opcode::LBR => "LBR"@,
        Opcode::LBQ => "LBQ"@,
        Opcode::LBZ => "LBZ"@,
        Opcode::LBDF => "LBDF"@,
        Opcode::NOP => "NOP"@,
        Opcode::LSNQ => "LSNQ"@,
        Opcode::LSNZ => "LSNZ"@,
        Opcode::LSNF => "LSNF"@,
        Opcode::LSKP => "LSKP"@,
        Opcode::LBNQ => "LBNQ"@,
        Opcode::LBNZ => "LBNZ"@,
        Opcode::LBNF => "LBNF"@,
        Opcode::LSIE => "LSIE"@,
        Opcode::LSQ => "LSQ"@,
        Opcode::LSZ => "LSZ"@,
        Opcode::LSDF => "LSDF"@,
        Opcode::SEP => "SEP"@,
        Opcode::SEX => "SEX"@,
        Opcode::LDX => "LDX"@,
        Opcode::OR => "OR"@,
        Opcode::AND => "AND"@,
        Opcode::XOR => "XOR"@,
        Opcode::ADD => "ADD"@,
        Opcode::SD => "SD"@,
        Opcode::SHR => "SHR"@,
        Opcode::SM => "SM"@,
        Opcode::LDI => "LDI"@,
        Opcode::ORI => "ORI"@,
        Opcode::ANI => "ANI"@,
        Opcode::XRI => "XRI"@,
        Opcode::ADI => "ADI"@,
        Opcode::SDI => "SDI"@,
        Opcode::SHL => "SHL"@,
        Opcode::SMI => "SMI"@,
    }
}

impl Opcode {
    /// Decode an opcode from a byte.  Every byte value decodes to some
    /// operation, so the result is always `Some`.
    pub fn from_byte(byte: u8) -> (r: Option<Opcode>)
        ensures
            r == Some(spec_opcode_of_byte(byte)),
    {
        match byte {
            0x00 => Some(Opcode::IDL),
            0x01..=0x0F => Some(Opcode::LDN),
            0x10..=0x1F => Some(Opcode::INC),
            0x20..=0x2F => Some(Opcode::DEC),
            0x30 => Some(Opcode::BR),
            0x31 => Some(Opcode::BQ),
            0x32 => Some(Opcode::BZ),
            0x33 => Some(Opcode::BDF),
            0x34 => Some(Opcode::B1),
            0x35 => Some(Opcode::B2),
            0x36 => Some(Opcode::B3),
            0x37 => Some(Opcode::B4),
            0x38 => Some(Opcode::SKP),
            0x39 => Some(Opcode::BNQ),
            0x3A => Some(Opcode::BNZ),
            0x3B => Some(Opcode::BNF),
            0x3C => Some(Opcode::BN1),
            0x3D => Some(Opcode::BN2),
            0x3E => Some(Opcode::BN3),
            0x3F => Some(Opcode::BN4),
            0x40..=0x4F => Some(Opcode::LDA),
            0x50..=0x5F => Some(Opcode::STR),
            0x60 => Some(Opcode::IRX),
            0x61..=0x67 => Some(Opcode::OUT),
            0x68 => Some(Opcode::IRX),
            0x69..=0x6F => Some(Opcode::INP),
            0x70 => Some(Opcode::RET),
            0x71 => Some(Opcode::DIS),
            0x72 => Some(Opcode::LDXA),
            0x73 => Some(Opcode::STXD),
            0x74 => Some(Opcode::ADC),
            0x75 => Some(Opcode::SDB),
            0x76 => Some(Opcode::SHRC),
            0x77 => Some(Opcode::SMB),
            0x78 => Some(Opcode::SAV),
            0x79 => Some(Opcode::MARK),
            0x7A => Some(Opcode::REQ),
            0x7B => Some(Opcode::SEQ),
            0x7C => Some(Opcode::ADCI),
            0x7D => Some(Opcode::SDBI),
            0x7E => Some(Opcode::SHLC),
            0x7F => Some(Opcode::SMBI),
            0x80..=0x8F => Some(Opcode::GLO),
            0x90..=0x9F => Some(Opcode::GHI),
            0xA0..=0xAF => Some(Opcode::PLO),
            0xB0..=0xBF => Some(Opcode::PHI),
            0xC0 => Some(Opcode::LBR),
            0xC1 => Some(Opcode::LBQ),
            0xC2 => Some(Opcode::LBZ),
            0xC3 => Some(Opcode::LBDF),
            0xC4 => Some(Opcode::NOP),
            0xC5 => Some(Opcode::LSNQ),
            0xC6 => Some(Opcode::LSNZ),
            0xC7 => Some(Opcode::LSNF),
            0xC8 => Some(Opcode::LSKP),
            0xC9 => Some(Opcode::LBNQ),
            0xCA => Some(Opcode::LBNZ),
            0xCB => Some(Opcode::LBNF),
            0xCC => Some(Opcode::LSIE),
            0xCD => Some(Opcode::LSQ),
            0xCE => Some(Opcode::LSZ),
            0xCF => Some(Opcode::LSDF),
            0xD0..=0xDF => Some(Opcode::SEP),
            0xE0..=0xEF => Some(Opcode::SEX),
            0xF0 => Some(Opcode::LDX),
            0xF1 => Some(Opcode::OR),
            0xF2 => Some(Opcode::AND),
            0xF3 => Some(Opcode::XOR),
            0xF4 => Some(Opcode::ADD),
            0xF5 => Some(Opcode::SD),
            0xF6 => Some(Opcode::SHR),
            0xF7 => Some(Opcode::SM),
            0xF8 => Some(Opcode::LDI),
            0xF9 => Some(Opcode::ORI),
            0xFA => Some(Opcode::ANI),
            0xFB => Some(Opcode::XRI),
            0xFC => Some(Opcode::ADI),
            0xFD => Some(Opcode::SDI),
            0xFE => Some(Opcode::SHL),
            0xFF => Some(Opcode::SMI),
        }
    }

    /// The canonical mnemonic of this operation.
    pub fn mnemonic(&self) -> (r: &'static str)
        ensures
            r@ == spec_mnemonic(*self),
    {
        match self {
            Opcode::IDL => "IDL",
            Opcode::LDN => "LDN",
            Opcode::INC => "INC",
            Opcode::DEC => "DEC",
            Opcode::BR => "BR",
            Opcode::BQ => "BQ",
            Opcode::BZ => "BZ",
            Opcode::BDF => "BDF",
            Opcode::B1 => "B1",
            Opcode::B2 => "B2",
            Opcode::B3 => "B3",
            Opcode::B4 => "B4",
            Opcode::SKP => "SKP",
            Opcode::BNQ => "BNQ",
            Opcode::BNZ => "BNZ",
            Opcode::BNF => "BNF",
            Opcode::BN1 => "BN1",
            Opcode::BN2 => "BN2",
            Opcode::BN3 => "BN3",
            Opcode::BN4 => "BN4",
            Opcode::LDA => "LDA",
            Opcode::STR => "STR",
            Opcode::IRX => "IRX",
            Opcode::OUT => "OUT",
            Opcode::INP => "INP",
            Opcode::RET => "RET",
            Opcode::DIS => "DIS",
            Opcode::LDXA => "LDXA",
            Opcode::STXD => "STXD",
            Opcode::ADC => "ADC",
            Opcode::SDB => "SDB",
            Opcode::SHRC => "SHRC",
            Opcode::SMB => "SMB",
            Opcode::SAV => "SAV",
            Opcode::MARK => "MARK",
            Opcode::REQ => "REQ",
            Opcode::SEQ => "SEQ",
            Opcode::ADCI => "ADCI",
            Opcode::SDBI => "SDBI",
            Opcode::SHLC => "SHLC",
            Opcode::SMBI => "SMBI",
            Opcode::GLO => "GLO",
            Opcode::GHI => "GHI",
            Opcode::PLO => "PLO",
            Opcode::PHI => "PHI",
            Opcode::LBR => "LBR",
            Opcode::LBQ => "LBQ",
            Opcode::LBZ => "LBZ",
            Opcode::LBDF => "LBDF",
            Opcode::NOP => "NOP",
            Opcode::LSNQ => "LSNQ",
            Opcode::LSNZ => "LSNZ",
            Opcode::LSNF => "LSNF",
            Opcode::LSKP => "LSKP",
            Opcode::LBNQ => "LBNQ",
            Opcode::LBNZ => "LBNZ",
            Opcode::LBNF => "LBNF",
            Opcode::LSIE => "LSIE",
            Opcode::LSQ => "LSQ",
            Opcode::LSZ => "LSZ",
            Opcode::LSDF => "LSDF",
            Opcode::SEP => "SEP",
            Opcode::SEX => "SEX",
            Opcode::LDX => "LDX",
            Opcode::OR => "OR",
            Opcode::AND => "AND",
            Opcode::XOR => "XOR",
            Opcode::ADD => "ADD",
            Opcode::SD => "SD",
            Opcode::SHR => "SHR",
            Opcode::SM => "SM",
            Opcode::LDI => "LDI",
            Opcode::ORI => "ORI",
            Opcode::ANI => "ANI",
            Opcode::XRI => "XRI",
            Opcode::ADI => "ADI",
            Opcode::SDI => "SDI",
            Opcode::SHL => "SHL",
            Opcode::SMI => "SMI",
        }
    }

    /// The length of the instruction in bytes: 1, 2 or 3.
    pub fn length(&self) -> (r: u8)
        ensures
            r == spec_opcode_len(*self),
            1 <= r <= 3,
    {
        match self {
            Opcode::IDL | Opcode::LDN | Opcode::INC | Opcode::DEC | Opcode::LDA | Opcode::STR
            | Opcode::IRX | Opcode::OUT | Opcode::INP | Opcode::RET | Opcode::DIS
            | Opcode::LDXA | Opcode::STXD | Opcode::ADC | Opcode::SDB | Opcode::SHRC
            | Opcode::SMB | Opcode::SAV | Opcode::MARK | Opcode::REQ | Opcode::SEQ
            | Opcode::GLO | Opcode::GHI | Opcode::PLO | Opcode::PHI | Opcode::NOP
            | Opcode::SEP | Opcode::SEX | Opcode::LDX | Opcode::OR | Opcode::AND
            | Opcode::XOR | Opcode::ADD | Opcode::SD | Opcode::SHR | Opcode::SM
            | Opcode::SHL => 1,
            Opcode::BR | Opcode::BQ | Opcode::BZ | Opcode::BDF | Opcode::B1 | Opcode::B2
            | Opcode::B3 | Opcode::B4 | Opcode::SKP | Opcode::BNQ | Opcode::BNZ | Opcode::BNF
            | Opcode::BN1 | Opcode::BN2 | Opcode::BN3 | Opcode::BN4 | Opcode::ADCI
            | Opcode::SDBI | Opcode::SHLC | Opcode::SMBI | Opcode::LDI | Opcode::ORI
            | Opcode::ANI | Opcode::XRI | Opcode::ADI | Opcode::SDI | Opcode::SMI => 2,
            Opcode::LBR | Opcode::LBQ | Opcode::LBZ | Opcode::LBDF | Opcode::LSNQ
            | Opcode::LSNZ | Opcode::LSNF | Opcode::LSKP | Opcode::LBNQ | Opcode::LBNZ
            | Opcode::LBNF | Opcode::LSIE | Opcode::LSQ | Opcode::LSZ | Opcode::LSDF => 3,
        }
    }
}

} // verus!
