use cosmac1802::assembler::{AssemblyError, assemble, parse_number, parse_register};
use cosmac1802::state::Cpu;

#[test]
fn test_parse_register() {
    assert_eq!(parse_register("R0").unwrap(), 0);
    assert_eq!(parse_register("R5").unwrap(), 5);
    assert_eq!(parse_register("RA").unwrap(), 10);
    assert_eq!(parse_register("RF").unwrap(), 15);
    assert_eq!(parse_register("0").unwrap(), 0);
    assert_eq!(parse_register("F").unwrap(), 15);
}

#[test]
fn test_parse_number() {
    assert_eq!(parse_number("0x42").unwrap(), 0x42);
    assert_eq!(parse_number("$FF").unwrap(), 0xFF);
    assert_eq!(parse_number("FF").unwrap(), 0xFF);
    assert_eq!(parse_number("100").unwrap(), 0x100); // Interpreted as hex
    assert_eq!(parse_number("0x1234").unwrap(), 0x1234);
}

#[test]
fn test_assemble_simple() {
    let source = "LDI 0x42\nPHI R5\nIDL";
    let result = assemble(source).unwrap();

    assert_eq!(result.machine_code, vec![0xF8, 0x42, 0xB5, 0x00]);
}

#[test]
fn test_assemble_with_labels() {
    let source = r#"
START: LDI 0x10
       PHI R3
       BR START
"#;
    let result = assemble(source).unwrap();

    // LDI 0x10 = F8 10
    // PHI R3 = B3
    // BR START (offset 0) = 30 00
    assert_eq!(result.machine_code, vec![0xF8, 0x10, 0xB3, 0x30, 0x00]);
}

#[test]
fn test_assemble_long_branch() {
    let source = "LBR 0x1234";
    let result = assemble(source).unwrap();

    // LBR 0x1234 = C0 12 34
    assert_eq!(result.machine_code, vec![0xC0, 0x12, 0x34]);
}

#[test]
fn test_assemble_register_ops() {
    let source = r#"
INC R3
DEC RA
GLO R5
GHI R7
"#;
    let result = assemble(source).unwrap();

    // INC R3 = 13
    // DEC RA = 2A
    // GLO R5 = 85
    // GHI R7 = 97
    assert_eq!(result.machine_code, vec![0x13, 0x2A, 0x85, 0x97]);
}

#[test]
fn test_comments() {
    let source = r#"
; This is a comment
LDI 0x42  ; Load immediate
PHI R5    # Store to R5 high byte
"#;
    let result = assemble(source).unwrap();

    assert_eq!(result.machine_code, vec![0xF8, 0x42, 0xB5]);
}

#[test]
fn test_invalid_instruction() {
    let source = "INVALID";
    let result = assemble(source);
    assert!(result.is_err());
}

#[test]
fn test_undefined_label() {
    let source = "BR UNDEFINED";
    let result = assemble(source);
    // Undefined label should cause an error when it can't be parsed as a number
    assert!(result.is_err());
}

#[test]
fn test_disassembly_format() {
    // Each generated instruction produces one line of the literal form
    // `ADDR: BYTES | SOURCE`: 4-hex-digit offset into the generated code,
    // space-separated uppercase hex left-justified to 8 characters, and the
    // source text with the label stripped.
    let source = "LDI 0x42\nPHI R5\nIDL";
    let result = assemble(source).unwrap();
    assert_eq!(
        result.disassembly,
        vec![
            "0000: F8 42    | LDI 0x42".to_string(),
            "0002: B5       | PHI R5".to_string(),
            "0003: 00       | IDL".to_string(),
        ]
    );
}

#[test]
fn test_disassembly_strips_label() {
    let source = "START: LDI 0x10";
    let result = assemble(source).unwrap();
    assert_eq!(result.disassembly, vec!["0000: F8 10    | LDI 0x10".to_string()]);
}

#[test]
fn test_lowercase_source() {
    // Mnemonics, registers and hex digits are case-insensitive.
    let source = "ldi 0x0a\nphi r5\nidl";
    let result = assemble(source).unwrap();
    assert_eq!(result.machine_code, vec![0xF8, 0x0A, 0xB5, 0x00]);
}

#[test]
fn test_label_alone_on_line() {
    // A label with no instruction on its line names the next instruction's
    // address.
    let source = "LDI 0x01\nHERE:\nLDI 0x02\nBR HERE";
    let result = assemble(source).unwrap();
    assert_eq!(result.machine_code, vec![0xF8, 0x01, 0xF8, 0x02, 0x30, 0x02]);
}

#[test]
fn test_duplicate_label_overwrites() {
    // Redefining a label silently overwrites its address: the branch
    // resolves to the later definition.
    let source = "A: LDI 0x01\nA: LDI 0x02\nBR A";
    let result = assemble(source).unwrap();
    assert_eq!(result.machine_code, vec![0xF8, 0x01, 0xF8, 0x02, 0x30, 0x02]);
}

#[test]
fn test_forward_label_reference() {
    // Labels may be referenced before they are defined.
    let source = "BR END\nLDI 0x01\nEND: IDL";
    let result = assemble(source).unwrap();
    assert_eq!(result.machine_code, vec![0x30, 0x04, 0xF8, 0x01, 0x00]);
}

#[test]
fn test_long_branch_to_label() {
    let source = "NOP\nLBR TARGET\nTARGET: IDL";
    let result = assemble(source).unwrap();
    // NOP = C4; LBR TARGET = C0 00 04; IDL = 00
    assert_eq!(result.machine_code, vec![0xC4, 0xC0, 0x00, 0x04, 0x00]);
}

#[test]
fn test_short_branch_uses_low_byte_of_label() {
    // A short branch takes only the low 8 bits of the resolved address.
    let source = "BR 0x1234";
    let result = assemble(source).unwrap();
    assert_eq!(result.machine_code, vec![0x30, 0x34]);
}

#[test]
fn test_error_carries_line_number() {
    // A pass-2 failure reports the 1-based source line.
    let source = "NOP\nLDI\nNOP";
    match assemble(source) {
        Err(AssemblyError::ParseError { line, message }) => {
            assert_eq!(line, 2);
            assert_eq!(message, "Invalid operand: Immediate value required");
        },
        other => panic!("expected a parse error, got {:?}", other),
    }
}

#[test]
fn test_unknown_mnemonic_reports_line() {
    // An unknown mnemonic is caught in the label-collection pass, before
    // any line is assembled, and still reports its 1-based source line.
    let source = "NOP\nFROB R1";
    match assemble(source) {
        Err(AssemblyError::ParseError { line, message }) => {
            assert_eq!(line, 2);
            assert_eq!(message, "Invalid instruction: FROB");
        },
        other => panic!("expected a parse error, got {:?}", other),
    }
}

#[test]
fn test_unknown_mnemonic_after_label_reports_line() {
    let source = "NOP\nHERE: FROB R1";
    match assemble(source) {
        Err(AssemblyError::ParseError { line, message }) => {
            assert_eq!(line, 2);
            assert_eq!(message, "Invalid instruction: FROB");
        },
        other => panic!("expected a parse error, got {:?}", other),
    }
}

#[test]
fn test_comment_cut_at_earliest_marker() {
    // Whichever of ';' and '#' comes first introduces the comment: text
    // after an early '#' is stripped even when a ';' follows later.
    let source = "LDI 0x42 # one ; two\nNOP ; three # four";
    let result = assemble(source).unwrap();
    assert_eq!(result.machine_code, vec![0xF8, 0x42, 0xC4]);
}

#[test]
fn test_invalid_register_error() {
    let source = "INC G1";
    match assemble(source) {
        Err(AssemblyError::ParseError { line, message }) => {
            assert_eq!(line, 1);
            assert_eq!(message, "Invalid register: Register must be R0-RF or 0-F, got: G1");
        },
        other => panic!("expected a parse error, got {:?}", other),
    }
}

#[test]
fn test_invalid_number_error() {
    let source = "LDI 0xZZ";
    match assemble(source) {
        Err(AssemblyError::ParseError { line, message }) => {
            assert_eq!(line, 1);
            assert_eq!(message, "Invalid operand: Invalid hex number: 0xZZ");
        },
        other => panic!("expected a parse error, got {:?}", other),
    }
}

#[test]
fn test_number_too_large() {
    // 99999 overflows as hex and as decimal, so it is rejected.
    assert!(parse_number("99999").is_err());
    // 12345 overflows as hex but parses as decimal.
    assert_eq!(parse_number("12345").unwrap(), 12345);
}

#[test]
fn test_commas_are_stripped() {
    assert_eq!(parse_number("1,000").unwrap(), 0x1000);
}

#[test]
fn test_error_message_text() {
    let e = AssemblyError::InvalidInstruction("FROB".to_string());
    assert_eq!(e.message(), "Invalid instruction: FROB");
    let p = AssemblyError::ParseError { line: 12, message: "boom".to_string() };
    assert_eq!(p.message(), "Parse error on line 12: boom");
}

#[test]
fn test_no_partial_output_on_error() {
    // Assembly either yields the whole program or nothing: a failure on the
    // last line returns no machine code for the first.
    let source = "LDI 0x42\nBOGUS";
    assert!(assemble(source).is_err());
}

#[test]
fn test_assembled_program_runs() {
    // End to end: assemble, load, run, inspect the CPU.
    let source = "LDI 0x42\nPHI R5\nIDL";
    let out = assemble(source).unwrap();
    let mut cpu = Cpu::new();
    cpu.load_program(&out.machine_code, 0).unwrap();
    cpu.run(1000).unwrap();
    assert!(cpu.is_halted());
    assert_eq!(cpu.get_register(5).unwrap(), 0x4200);
}
