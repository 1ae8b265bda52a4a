//! The two-pass assembler: line-oriented RCA 1802 assembly source in,
//! machine code and an address-annotated disassembly out.
//!
//! Pass 1 collects labels: a line containing `:` before any comment defines
//! a label at the current address; label names are case-folded to upper
//! case, and a redefined label silently overwrites its address.  Pass 2
//! emits bytes per instruction, resolving branch targets against the label
//! table or as literal numbers.  Any parse failure aborts assembly with the
//! 1-based source line number; no partial machine code is returned.

use vstd::prelude::*;
use vstd::slice::{slice_subrange, slice_to_vec};
use vstd::string::StringExecFns;

use crate::asmtext::{
    chars_eq, chars_eq_str, chars_of, dec_chars, dec_val, find_char, hex_bytes, hex_chars,
    hex_val, pad_right, spec_dec_chars, spec_dec_val, spec_find_char, spec_hex_bytes,
    spec_hex_upper, spec_hex_val, spec_pad_right, spec_split_lines, spec_tokens, spec_trim,
    spec_upper, spec_without_commas, split_lines, split_tokens, string_from_chars, to_upper,
    trim, without_commas,
};
use crate::executor::wrap_add16;

verus! {

/// The mathematical form of an assembly error: the same variants as
/// `AssemblyError`, over character sequences.
pub enum AsmErrView {
    /// An unknown mnemonic, folded to upper case.
    InvalidInstruction(Seq<char>),
    /// A register operand that is not `R0`-`RF` or `0`-`F`.
    InvalidRegister(Seq<char>),
    /// A missing operand or a malformed number.
    InvalidOperand(Seq<char>),
    /// A branch target that is neither a known label nor a number.
    UndefinedLabel(Seq<char>),
    /// Any of the above, with the 1-based source line it occurred on.
    ParseError { line: nat, message: Seq<char> },
}

/// Assembly failures.  Assembly aborts on the first failure and returns no
/// partial output.
#[derive(Debug, Clone, PartialEq, Eq)]
pub enum AssemblyError {
    /// An unknown mnemonic.
    InvalidInstruction(String),
    /// A register operand that is not `R0`-`RF` or `0`-`F`.
    InvalidRegister(String),
    /// A missing operand or a malformed number.
    InvalidOperand(String),
    /// A branch target that is neither a known label nor a number.
    UndefinedLabel(String),
    /// Any of the above, with the 1-based source line it occurred on.
    ParseError { line: usize, message: String },
}

impl View for AssemblyError {
    type V = AsmErrView;

    open spec fn view(&self) -> AsmErrView {
        match self {
            AssemblyError::InvalidInstruction(s) => AsmErrView::InvalidInstruction(s@),
            AssemblyError::InvalidRegister(s) => AsmErrView::InvalidRegister(s@),
            AssemblyError::InvalidOperand(s) => AsmErrView::InvalidOperand(s@),
            AssemblyError::UndefinedLabel(s) => AsmErrView::UndefinedLabel(s@),
            AssemblyError::ParseError { line, message } => AsmErrView::ParseError {
                line: *line as nat,
                message: message@,
            },
        }
    }
}

/// The text form of each error.
pub open spec fn spec_error_message(e: AsmErrView) -> Seq<char> {
    match e {
        AsmErrView::InvalidInstruction(s) => "Invalid instruction: "@ + s,
        AsmErrView::InvalidRegister(s) => "Invalid register: "@ + s,
        AsmErrView::InvalidOperand(s) => "Invalid operand: "@ + s,
        AsmErrView::UndefinedLabel(s) => "Undefined label: "@ + s,
        AsmErrView::ParseError { line, message } => "Parse error on line "@ + spec_dec_chars(line)
            + ": "@ + message,
    }
}

impl AssemblyError {
    /// The error rendered as text.
    pub fn message(&self) -> (r: String)
        ensures
            r@ == spec_error_message(self@),
    {
        match self {
            AssemblyError::InvalidInstruction(s) => {
                let mut m = String::from_str("Invalid instruction: ");
                m.append(s.as_str());
                m
            },
            AssemblyError::InvalidRegister(s) => {
                let mut m = String::from_str("Invalid register: ");
                m.append(s.as_str());
                m
            },
            AssemblyError::InvalidOperand(s) => {
                let mut m = String::from_str("Invalid operand: ");
                m.append(s.as_str());
                m
            },
            AssemblyError::UndefinedLabel(s) => {
                let mut m = String::from_str("Undefined label: ");
                m.append(s.as_str());
                m
            },
            AssemblyError::ParseError { line, message } => {
                let mut m = String::from_str("Parse error on line ");
                let digits = dec_chars(*line);
                let digits_str = string_from_chars(digits.as_slice());
                m.append(digits_str.as_str());
                m.append(": ");
                m.append(message.as_str());
                m
            },
        }
    }
}

/// Assembled output: the machine code and one disassembly line per emitted
/// instruction.
#[derive(Debug, Clone)]
pub struct AssemblyOutput {
    /// The generated machine code, with no header.
    pub machine_code: Vec<u8>,
    /// One line of the form `ADDR: BYTES | SOURCE` per instruction.
    pub disassembly: Vec<String>,
}

impl View for AssemblyOutput {
    type V = (Seq<u8>, Seq<Seq<char>>);

    open spec fn view(&self) -> (Seq<u8>, Seq<Seq<char>>) {
        (self.machine_code@, self.disassembly.deep_view())
    }
}

/// A line with everything from the first comment marker on removed: the cut
/// is at the earliest `;` or `#`; a line with no marker is returned whole.
pub open spec fn spec_strip_comment(l: Seq<char>) -> Seq<char> {
    let ks = spec_find_char(l, ';');
    let kh = spec_find_char(l, '#');
    if ks >= 0 && (kh < 0 || ks <= kh) {
        l.take(ks)
    } else if kh >= 0 {
        l.take(kh)
    } else {
        l
    }
}

/// Strip a trailing comment introduced by `;` or `#`, whichever comes first.
fn strip_comments<'a>(line: &'a [char]) -> (r: &'a [char])
    ensures
        r@ == spec_strip_comment(line@),
{
    match (find_char(line, ';'), find_char(line, '#')) {
        (Some(ks), Some(kh)) => slice_subrange(line, 0, if ks <= kh {
            ks
        } else {
            kh
        }),
        (Some(ks), None) => slice_subrange(line, 0, ks),
        (None, Some(kh)) => slice_subrange(line, 0, kh),
        (None, None) => line,
    }
}

/// The value of a digit string read in base 16 or base 10, most significant
/// digit first; `None` when the string is empty or holds a bad digit.
pub open spec fn spec_digits_val(s: Seq<char>, hex: bool) -> Option<int>
    decreases s.len(),
{
    if s.len() == 0 {
        None
    } else {
        let dv = if hex {
            spec_hex_val(s.last())
        } else {
            spec_dec_val(s.last())
        };
        if s.len() == 1 {
            match dv {
                Some(d) => Some(d as int),
                None => None,
            }
        } else {
            match (spec_digits_val(s.drop_last(), hex), dv) {
                (Some(v), Some(d)) => Some(
                    v * (if hex {
                        16int
                    } else {
                        10int
                    }) + d,
                ),
                _ => None,
            }
        }
    }
}

/// Number parsing as `u16::from_str_radix` does it: an optional leading
/// `+`, then at least one digit, and the value must fit in 16 bits.
pub open spec fn spec_parse_radix(s: Seq<char>, hex: bool) -> Option<u16> {
    let digits = if s.len() > 0 && s[0] == '+' {
        s.skip(1)
    } else {
        s
    };
    match spec_digits_val(digits, hex) {
        Some(v) => if v < 0x10000 {
            Some(v as u16)
        } else {
            None
        },
        None => None,
    }
}

proof fn lemma_digits_val_none(s: Seq<char>, hex: bool, k: int)
    requires
        1 <= k <= s.len(),
        spec_digits_val(s.take(k), hex) is None,
    ensures
        spec_digits_val(s, hex) is None,
    decreases s.len(),
{
    if k == s.len() {
        assert(s.take(k) =~= s);
    } else {
        assert(s.drop_last().take(k) =~= s.take(k));
        lemma_digits_val_none(s.drop_last(), hex, k);
    }
}

fn parse_radix(s: &[char], hex: bool) -> (r: Option<u16>)
    ensures
        r == spec_parse_radix(s@, hex),
{
    let start: usize = if s.len() > 0 && s[0] == '+' {
        1
    } else {
        0
    };
    let ghost digits = if s@.len() > 0 && s@[0] == '+' {
        s@.skip(1)
    } else {
        s@
    };
    assert(digits =~= s@.subrange(start as int, s@.len() as int));
    if start == s.len() {
        return None;
    }
    let base: u32 = if hex {
        16
    } else {
        10
    };
    let mut acc: u32 = 0;
    let mut i: usize = start;
    while i < s.len()
        invariant
            start <= i <= s@.len(),
            start < s@.len(),
            start == (if s@.len() > 0 && s@[0] == '+' {
                1usize
            } else {
                0usize
            }),
            base == (if hex {
                16u32
            } else {
                10u32
            }),
            digits == (if s@.len() > 0 && s@[0] == '+' {
                s@.skip(1)
            } else {
                s@
            }),
            digits =~= s@.subrange(start as int, s@.len() as int),
            i > start ==> {
                let v = spec_digits_val(s@.subrange(start as int, i as int), hex);
                &&& v is Some
                &&& (v->Some_0 < 0x10000 ==> acc == v->Some_0)
                &&& (v->Some_0 >= 0x10000 ==> acc == 0x10000)
            },
            i == start ==> acc == 0,
            acc <= 0x10000,
        decreases s@.len() - i,
    {
        let dv = if hex {
            hex_val(s[i])
        } else {
            dec_val(s[i])
        };
        let ghost prefix = s@.subrange(start as int, i as int);
        let ghost prefix1 = s@.subrange(start as int, i + 1);
        proof {
            assert(prefix1.drop_last() =~= prefix);
            assert(prefix1.last() == s@[i as int]);
        }
        match dv {
            None => {
                proof {
                    assert(spec_digits_val(prefix1, hex) is None);
                    assert(digits.take(i + 1 - start) =~= prefix1);
                    lemma_digits_val_none(digits, hex, i + 1 - start);
                }
                return None;
            },
            Some(d) => {
                acc = acc * base + d as u32;
                if acc > 0xFFFF {
                    acc = 0x10000;
                }
            },
        }
        i = i + 1;
    }
    assert(s@.subrange(start as int, s@.len() as int) =~= digits);
    if acc > 0xFFFF {
        None
    } else {
        Some(acc as u16)
    }
}

/// The numeric operand syntax: `0x`/`0X` or `$` prefix for hexadecimal; a
/// bare all-hex-digit string tried as hexadecimal first with decimal as the
/// fallback; plain decimal otherwise.  Commas are stripped first.
pub open spec fn spec_parse_number(tok: Seq<char>) -> Result<u16, AsmErrView> {
    let s = spec_without_commas(spec_trim(tok));
    if s.len() >= 2 && s[0] == '0' && (s[1] == 'x' || s[1] == 'X') {
        match spec_parse_radix(s.skip(2), true) {
            Some(v) => Ok(v),
            None => Err(AsmErrView::InvalidOperand("Invalid hex number: "@ + s)),
        }
    } else if s.len() >= 1 && s[0] == '$' {
        match spec_parse_radix(s.skip(1), true) {
            Some(v) => Ok(v),
            None => Err(AsmErrView::InvalidOperand("Invalid hex number: "@ + s)),
        }
    } else if forall|j: int| 0 <= j < s.len() ==> spec_hex_val(s[j]) is Some {
        match spec_parse_radix(s, true) {
            Some(v) => Ok(v),
            None => match spec_parse_radix(s, false) {
                Some(v) => Ok(v),
                None => Err(AsmErrView::InvalidOperand("Invalid number: "@ + s)),
            },
        }
    } else {
        match spec_parse_radix(s, false) {
            Some(v) => Ok(v),
            None => Err(AsmErrView::InvalidOperand("Invalid number: "@ + s)),
        }
    }
}

fn invalid_operand(prefix: &str, s: &[char]) -> (r: AssemblyError)
    ensures
        r@ == AsmErrView::InvalidOperand(prefix@ + s@),
{
    let mut m = String::from_str(prefix);
    let tail = string_from_chars(s);
    m.append(tail.as_str());
    AssemblyError::InvalidOperand(m)
}

fn parse_number_chars(tok: &[char]) -> (r: Result<u16, AssemblyError>)
    ensures
        match r {
            Ok(v) => spec_parse_number(tok@) == Ok::<u16, AsmErrView>(v),
            Err(e) => spec_parse_number(tok@) == Err::<u16, AsmErrView>(e@),
        },
{
    let t = trim(tok);
    let s = without_commas(t);
    let sl = s.as_slice();
    if s.len() >= 2 && sl[0] == '0' && (sl[1] == 'x' || sl[1] == 'X') {
        match parse_radix(slice_subrange(sl, 2, s.len()), true) {
            Some(v) => Ok(v),
            None => Err(invalid_operand("Invalid hex number: ", sl)),
        }
    } else if s.len() >= 1 && sl[0] == '$' {
        match parse_radix(slice_subrange(sl, 1, s.len()), true) {
            Some(v) => Ok(v),
            None => Err(invalid_operand("Invalid hex number: ", sl)),
        }
    } else {
        let mut all_hex = true;
        let ghost mut bad: int = 0;
        let mut j: usize = 0;
        while j < s.len()
            invariant
                j <= s@.len(),
                sl@ == s@,
                all_hex ==> forall|k: int| 0 <= k < j ==> spec_hex_val(s@[k]) is Some,
                !all_hex ==> 0 <= bad < j && spec_hex_val(s@[bad]) is None,
            decreases s@.len() - j,
        {
            if hex_val(sl[j]).is_none() {
                all_hex = false;
                proof {
                    bad = j as int;
                }
            }
            j = j + 1;
        }
        if all_hex {
            match parse_radix(sl, true) {
                Some(v) => Ok(v),
                None => match parse_radix(sl, false) {
                    Some(v) => Ok(v),
                    None => Err(invalid_operand("Invalid number: ", sl)),
                },
            }
        } else {
            match parse_radix(sl, false) {
                Some(v) => Ok(v),
                None => Err(invalid_operand("Invalid number: ", sl)),
            }
        }
    }
}

/// Parse a number: hexadecimal with a `0x`, `0X` or `$` prefix; a bare
/// all-hex-digit string as hexadecimal, falling back to decimal; decimal
/// otherwise.
pub fn parse_number(s: &str) -> (r: Result<u16, AssemblyError>)
    ensures
        match r {
            Ok(v) => spec_parse_number(s@) == Ok::<u16, AsmErrView>(v),
            Err(e) => spec_parse_number(s@) == Err::<u16, AsmErrView>(e@),
        },
{
    let cs = chars_of(s);
    parse_number_chars(cs.as_slice())
}

/// The register operand syntax: an optional `R` prefix, then exactly one
/// hexadecimal digit, case-insensitive.
pub open spec fn spec_parse_register(tok: Seq<char>) -> Result<u8, AsmErrView> {
    let s = spec_upper(spec_trim(tok));
    let num = if s.len() > 0 && s[0] == 'R' {
        s.skip(1)
    } else {
        s
    };
    if num.len() == 1 && spec_hex_val(num[0]) is Some {
        Ok(spec_hex_val(num[0])->Some_0)
    } else {
        Err(AsmErrView::InvalidRegister("Register must be R0-RF or 0-F, got: "@ + s))
    }
}

fn parse_register_chars(tok: &[char]) -> (r: Result<u8, AssemblyError>)
    ensures
        match r {
            Ok(v) => spec_parse_register(tok@) == Ok::<u8, AsmErrView>(v) && v < 16,
            Err(e) => spec_parse_register(tok@) == Err::<u8, AsmErrView>(e@),
        },
{
    let t = trim(tok);
    let s = to_upper(t);
    let sl = s.as_slice();
    let num: &[char] = if s.len() > 0 && sl[0] == 'R' {
        slice_subrange(sl, 1, s.len())
    } else {
        sl
    };
    if num.len() == 1 {
        match hex_val(num[0]) {
            Some(v) => {
                return Ok(v);
            },
            None => {},
        }
    }
    let mut m = String::from_str("Register must be R0-RF or 0-F, got: ");
    let tail = string_from_chars(sl);
    m.append(tail.as_str());
    Err(AssemblyError::InvalidRegister(m))
}

/// Parse a register operand: `R` plus one hexadecimal digit, or a bare
/// hexadecimal digit, case-insensitive.
pub fn parse_register(s: &str) -> (r: Result<u8, AssemblyError>)
    ensures
        match r {
            Ok(v) => spec_parse_register(s@) == Ok::<u8, AsmErrView>(v) && v < 16,
            Err(e) => spec_parse_register(s@) == Err::<u8, AsmErrView>(e@),
        },
{
    let cs = chars_of(s);
    parse_register_chars(cs.as_slice())
}

/// The mnemonics of the 1-byte operations.
pub open spec fn spec_is_mnemonic_len1(m: Seq<char>) -> bool {
    ||| m == "IDL"@
    ||| m == "IRX"@
    ||| m == "RET"@
    ||| m == "DIS"@
    ||| m == "LDXA"@
    ||| m == "STXD"@
    ||| m == "ADC"@
    ||| m == "SDB"@
    ||| m == "SHRC"@
    ||| m == "SMB"@
    ||| m == "SAV"@
    ||| m == "MARK"@
    ||| m == "REQ"@
    ||| m == "SEQ"@
    ||| m == "NOP"@
    ||| m == "LDX"@
    ||| m == "OR"@
    ||| m == "AND"@
    ||| m == "XOR"@
    ||| m == "ADD"@
    ||| m == "SD"@
    ||| m == "SHR"@
    ||| m == "SM"@
    ||| m == "SHL"@
    ||| m == "LDN"@
    ||| m == "INC"@
    ||| m == "DEC"@
    ||| m == "LDA"@
    ||| m == "STR"@
    ||| m == "GLO"@
    ||| m == "GHI"@
    ||| m == "PLO"@
    ||| m == "PHI"@
    ||| m == "SEP"@
    ||| m == "SEX"@
    ||| m == "OUT"@
    ||| m == "INP"@
}

/// The mnemonics of the 2-byte operations: short branches and immediates.
pub open spec fn spec_is_mnemonic_len2(m: Seq<char>) -> bool {
    ||| m == "BR"@
    ||| m == "BQ"@
    ||| m == "BZ"@
    ||| m == "BDF"@
    ||| m == "B1"@
    ||| m == "B2"@
    ||| m == "B3"@
    ||| m == "B4"@
    ||| m == "SKP"@
    ||| m == "BNQ"@
    ||| m == "BNZ"@
    ||| m == "BNF"@
    ||| m == "BN1"@
    ||| m == "BN2"@
    ||| m == "BN3"@
    ||| m == "BN4"@
    ||| m == "LDI"@
    ||| m == "ORI"@
    ||| m == "ANI"@
    ||| m == "XRI"@
    ||| m == "ADI"@
    ||| m == "SDI"@
    ||| m == "SMI"@
    ||| m == "ADCI"@
    ||| m == "SDBI"@
    ||| m == "SHLC"@
    ||| m == "SMBI"@
}

/// The mnemonics of the 3-byte operations: long branches and long skips.
pub open spec fn spec_is_mnemonic_len3(m: Seq<char>) -> bool {
    ||| m == "LBR"@
    ||| m == "LBQ"@
    ||| m == "LBZ"@
    ||| m == "LBDF"@
    ||| m == "LSNQ"@
    ||| m == "LSNZ"@
    ||| m == "LSNF"@
    ||| m == "LSKP"@
    ||| m == "LBNQ"@
    ||| m == "LBNZ"@
    ||| m == "LBNF"@
    ||| m == "LSIE"@
    ||| m == "LSQ"@
    ||| m == "LSZ"@
    ||| m == "LSDF"@
}

/// The encoded length that a line of source contributes: 0 for a blank
/// line, else the length keyed by the mnemonic of its first token.
pub open spec fn spec_instruction_length(line: Seq<char>) -> Result<u16, AsmErrView> {
    let parts = spec_tokens(line);
    if parts.len() == 0 {
        Ok(0u16)
    } else {
        let m = spec_upper(parts[0]);
        if spec_is_mnemonic_len1(m) {
            Ok(1u16)
        } else if spec_is_mnemonic_len2(m) {
            Ok(2u16)
        } else if spec_is_mnemonic_len3(m) {
            Ok(3u16)
        } else {
            Err(AsmErrView::InvalidInstruction(m))
        }
    }
}

fn is_mnemonic_len1(m: &[char]) -> (r: bool)
    ensures
        r == spec_is_mnemonic_len1(m@),
{
    chars_eq_str(m, "IDL") || chars_eq_str(m, "IRX") || chars_eq_str(m, "RET") || chars_eq_str(
        m,
        "DIS",
    ) || chars_eq_str(m, "LDXA") || chars_eq_str(m, "STXD") || chars_eq_str(m, "ADC")
        || chars_eq_str(m, "SDB") || chars_eq_str(m, "SHRC") || chars_eq_str(m, "SMB")
        || chars_eq_str(m, "SAV") || chars_eq_str(m, "MARK") || chars_eq_str(m, "REQ")
        || chars_eq_str(m, "SEQ") || chars_eq_str(m, "NOP") || chars_eq_str(m, "LDX")
        || chars_eq_str(m, "OR") || chars_eq_str(m, "AND") || chars_eq_str(m, "XOR")
        || chars_eq_str(m, "ADD") || chars_eq_str(m, "SD") || chars_eq_str(m, "SHR")
        || chars_eq_str(m, "SM") || chars_eq_str(m, "SHL") || chars_eq_str(m, "LDN")
        || chars_eq_str(m, "INC") || chars_eq_str(m, "DEC") || chars_eq_str(m, "LDA")
        || chars_eq_str(m, "STR") || chars_eq_str(m, "GLO") || chars_eq_str(m, "GHI")
        || chars_eq_str(m, "PLO") || chars_eq_str(m, "PHI") || chars_eq_str(m, "SEP")
        || chars_eq_str(m, "SEX") || chars_eq_str(m, "OUT") || chars_eq_str(m, "INP")
}

fn is_mnemonic_len2(m: &[char]) -> (r: bool)
    ensures
        r == spec_is_mnemonic_len2(m@),
{
    chars_eq_str(m, "BR") || chars_eq_str(m, "BQ") || chars_eq_str(m, "BZ") || chars_eq_str(
        m,
        "BDF",
    ) || chars_eq_str(m, "B1") || chars_eq_str(m, "B2") || chars_eq_str(m, "B3") || chars_eq_str(
        m,
        "B4",
    ) || chars_eq_str(m, "SKP") || chars_eq_str(m, "BNQ") || chars_eq_str(m, "BNZ")
        || chars_eq_str(m, "BNF") || chars_eq_str(m, "BN1") || chars_eq_str(m, "BN2")
        || chars_eq_str(m, "BN3") || chars_eq_str(m, "BN4") || chars_eq_str(m, "LDI")
        || chars_eq_str(m, "ORI") || chars_eq_str(m, "ANI") || chars_eq_str(m, "XRI")
        || chars_eq_str(m, "ADI") || chars_eq_str(m, "SDI") || chars_eq_str(m, "SMI")
        || chars_eq_str(m, "ADCI") || chars_eq_str(m, "SDBI") || chars_eq_str(m, "SHLC")
        || chars_eq_str(m, "SMBI")
}

fn is_mnemonic_len3(m: &[char]) -> (r: bool)
    ensures
        r == spec_is_mnemonic_len3(m@),
{
    chars_eq_str(m, "LBR") || chars_eq_str(m, "LBQ") || chars_eq_str(m, "LBZ") || chars_eq_str(
        m,
        "LBDF",
    ) || chars_eq_str(m, "LSNQ") || chars_eq_str(m, "LSNZ") || chars_eq_str(m, "LSNF")
        || chars_eq_str(m, "LSKP") || chars_eq_str(m, "LBNQ") || chars_eq_str(m, "LBNZ")
        || chars_eq_str(m, "LBNF") || chars_eq_str(m, "LSIE") || chars_eq_str(m, "LSQ")
        || chars_eq_str(m, "LSZ") || chars_eq_str(m, "LSDF")
}

/// The encoded length of the instruction on a line, without assembling it.
fn get_instruction_length(line: &[char]) -> (r: Result<u16, AssemblyError>)
    ensures
        match r {
            Ok(n) => spec_instruction_length(line@) == Ok::<u16, AsmErrView>(n),
            Err(e) => spec_instruction_length(line@) == Err::<u16, AsmErrView>(e@),
        },
{
    let parts = split_tokens(line);
    if parts.len() == 0 {
        return Ok(0);
    }
    proof {
        assert(parts.deep_view()[0] == parts@[0]@);
    }
    let m = to_upper(parts[0].as_slice());
    let ms = m.as_slice();
    if is_mnemonic_len1(ms) {
        Ok(1)
    } else if is_mnemonic_len2(ms) {
        Ok(2)
    } else if is_mnemonic_len3(ms) {
        Ok(3)
    } else {
        Err(AssemblyError::InvalidInstruction(string_from_chars(ms)))
    }
}

/// The label table as pass 1 builds it: definitions in source order, a
/// later definition of the same name overwriting an earlier one.
pub open spec fn spec_lookup(entries: Seq<(Seq<char>, u16)>, key: Seq<char>) -> Option<u16>
    decreases entries.len(),
{
    if entries.len() == 0 {
        None
    } else if entries.last().0 == key {
        Some(entries.last().1)
    } else {
        spec_lookup(entries.drop_last(), key)
    }
}

/// The mathematical form of the executable label table.
pub open spec fn spec_label_entries(entries: Seq<(Vec<char>, u16)>) -> Seq<(Seq<char>, u16)> {
    entries.map_values(|p: (Vec<char>, u16)| (p.0@, p.1))
}

fn lookup_label(entries: &Vec<(Vec<char>, u16)>, key: &[char]) -> (r: Option<u16>)
    ensures
        r == spec_lookup(spec_label_entries(entries@), key@),
{
    let ghost all = spec_label_entries(entries@);
    assert(all.take(entries@.len() as int) =~= all);
    let mut i: usize = entries.len();
    while i > 0
        invariant
            i <= entries@.len(),
            all == spec_label_entries(entries@),
            all.len() == entries@.len(),
            spec_lookup(all, key@) == spec_lookup(all.take(i as int), key@),
        decreases i,
    {
        i = i - 1;
        proof {
            assert(all.take(i + 1).drop_last() =~= all.take(i as int));
            assert(all.take(i + 1).last() == all[i as int]);
        }
        if chars_eq(entries[i].0.as_slice(), key) {
            assert(spec_lookup(all.take(i + 1), key@) == Some(all[i as int].1));
            return Some(entries[i].1);
        }
    }
    assert(all.take(0) =~= Seq::<(Seq<char>, u16)>::empty());
    None
}

/// A register-keyed instruction: the base byte with the register folded
/// into the low nibble.
pub open spec fn spec_assemble_register_op(base_opcode: u8, parts: Seq<Seq<char>>) -> Result<
    Seq<u8>,
    AsmErrView,
> {
    if parts.len() < 2 {
        Err(AsmErrView::InvalidOperand("Register operand required"@))
    } else {
        match spec_parse_register(parts[1]) {
            Ok(reg) => Ok(seq![base_opcode | reg]),
            Err(e) => Err(e),
        }
    }
}

fn assemble_register_op(base_opcode: u8, parts: &Vec<Vec<char>>) -> (r: Result<
    Vec<u8>,
    AssemblyError,
>)
    ensures
        match r {
            Ok(v) => spec_assemble_register_op(base_opcode, parts.deep_view()) == Ok::<
                Seq<u8>,
                AsmErrView,
            >(v@),
            Err(e) => spec_assemble_register_op(base_opcode, parts.deep_view()) == Err::<
                Seq<u8>,
                AsmErrView,
            >(e@),
        },
{
    if parts.len() < 2 {
        return Err(AssemblyError::InvalidOperand(String::from_str("Register operand required")));
    }
    proof {
        assert(parts.deep_view()[1] == parts@[1]@);
    }
    match parse_register_chars(parts[1].as_slice()) {
        Ok(reg) => {
            let mut v: Vec<u8> = Vec::new();
            v.push(base_opcode | reg);
            assert(v@ =~= seq![base_opcode | reg]);
            Ok(v)
        },
        Err(e) => Err(e),
    }
}

/// An immediate instruction: the opcode byte, then the operand's low byte.
pub open spec fn spec_assemble_immediate(opcode: u8, parts: Seq<Seq<char>>) -> Result<
    Seq<u8>,
    AsmErrView,
> {
    if parts.len() < 2 {
        Err(AsmErrView::InvalidOperand("Immediate value required"@))
    } else {
        match spec_parse_number(parts[1]) {
            Ok(value) => Ok(seq![opcode, (value % 256) as u8]),
            Err(e) => Err(e),
        }
    }
}

fn assemble_immediate(opcode: u8, parts: &Vec<Vec<char>>) -> (r: Result<Vec<u8>, AssemblyError>)
    ensures
        match r {
            Ok(v) => spec_assemble_immediate(opcode, parts.deep_view()) == Ok::<
                Seq<u8>,
                AsmErrView,
            >(v@),
            Err(e) => spec_assemble_immediate(opcode, parts.deep_view()) == Err::<
                Seq<u8>,
                AsmErrView,
            >(e@),
        },
{
    if parts.len() < 2 {
        return Err(AssemblyError::InvalidOperand(String::from_str("Immediate value required")));
    }
    proof {
        assert(parts.deep_view()[1] == parts@[1]@);
    }
    match parse_number_chars(parts[1].as_slice()) {
        Ok(value) => {
            let mut v: Vec<u8> = Vec::new();
            v.push(opcode);
            v.push((value % 256) as u8);
            assert(v@ =~= seq![opcode, (value % 256) as u8]);
            Ok(v)
        },
        Err(e) => Err(e),
    }
}

/// A short branch: the opcode byte, then the low byte of the target, which
/// is a known label's address or a literal number.
pub open spec fn spec_assemble_short_branch(
    opcode: u8,
    parts: Seq<Seq<char>>,
    labels: Seq<(Seq<char>, u16)>,
) -> Result<Seq<u8>, AsmErrView> {
    if parts.len() < 2 {
        Err(AsmErrView::InvalidOperand("Branch target required"@))
    } else {
        let target = spec_upper(parts[1]);
        match spec_lookup(labels, target) {
            Some(addr) => Ok(seq![opcode, (addr % 256) as u8]),
            None => match spec_parse_number(parts[1]) {
                Ok(value) => Ok(seq![opcode, (value % 256) as u8]),
                Err(e) => Err(e),
            },
        }
    }
}

fn assemble_short_branch(
    opcode: u8,
    parts: &Vec<Vec<char>>,
    labels: &Vec<(Vec<char>, u16)>,
) -> (r: Result<Vec<u8>, AssemblyError>)
    ensures
        match r {
            Ok(v) => spec_assemble_short_branch(
                opcode,
                parts.deep_view(),
                spec_label_entries(labels@),
            ) == Ok::<Seq<u8>, AsmErrView>(v@),
            Err(e) => spec_assemble_short_branch(
                opcode,
                parts.deep_view(),
                spec_label_entries(labels@),
            ) == Err::<Seq<u8>, AsmErrView>(e@),
        },
{
    if parts.len() < 2 {
        return Err(AssemblyError::InvalidOperand(String::from_str("Branch target required")));
    }
    proof {
        assert(parts.deep_view()[1] == parts@[1]@);
    }
    let target = to_upper(parts[1].as_slice());
    let offset: u16 = match lookup_label(labels, target.as_slice()) {
        Some(addr) => addr,
        None => match parse_number_chars(parts[1].as_slice()) {
            Ok(value) => value,
            Err(e) => {
                return Err(e);
            },
        },
    };
    let mut v: Vec<u8> = Vec::new();
    v.push(opcode);
    v.push((offset % 256) as u8);
    assert(v@ =~= seq![opcode, (offset % 256) as u8]);
    Ok(v)
}

/// A long branch: the opcode byte, then the full 16-bit target, high byte
/// first.
pub open spec fn spec_assemble_long_branch(
    opcode: u8,
    parts: Seq<Seq<char>>,
    labels: Seq<(Seq<char>, u16)>,
) -> Result<Seq<u8>, AsmErrView> {
    if parts.len() < 2 {
        Err(AsmErrView::InvalidOperand("Branch target required"@))
    } else {
        let target = spec_upper(parts[1]);
        match spec_lookup(labels, target) {
            Some(addr) => Ok(seq![opcode, (addr / 256) as u8, (addr % 256) as u8]),
            None => match spec_parse_number(parts[1]) {
                Ok(value) => Ok(seq![opcode, (value / 256) as u8, (value % 256) as u8]),
                Err(e) => Err(e),
            },
        }
    }
}

fn assemble_long_branch(
    opcode: u8,
    parts: &Vec<Vec<char>>,
    labels: &Vec<(Vec<char>, u16)>,
) -> (r: Result<Vec<u8>, AssemblyError>)
    ensures
        match r {
            Ok(v) => spec_assemble_long_branch(
                opcode,
                parts.deep_view(),
                spec_label_entries(labels@),
            ) == Ok::<Seq<u8>, AsmErrView>(v@),
            Err(e) => spec_assemble_long_branch(
                opcode,
                parts.deep_view(),
                spec_label_entries(labels@),
            ) == Err::<Seq<u8>, AsmErrView>(e@),
        },
{
    if parts.len() < 2 {
        return Err(AssemblyError::InvalidOperand(String::from_str("Branch target required")));
    }
    proof {
        assert(parts.deep_view()[1] == parts@[1]@);
    }
    let target = to_upper(parts[1].as_slice());
    let address: u16 = match lookup_label(labels, target.as_slice()) {
        Some(addr) => addr,
        None => match parse_number_chars(parts[1].as_slice()) {
            Ok(value) => value,
            Err(e) => {
                return Err(e);
            },
        },
    };
    let mut v: Vec<u8> = Vec::new();
    v.push(opcode);
    v.push((address / 256) as u8);
    v.push((address % 256) as u8);
    assert(v@ =~= seq![opcode, (address / 256) as u8, (address % 256) as u8]);
    Ok(v)
}

/// One instruction line to bytes: dispatch on the upper-cased mnemonic of
/// the first token.  A blank line contributes nothing.
pub open spec fn spec_assemble_instruction(
    line: Seq<char>,
    labels: Seq<(Seq<char>, u16)>,
) -> Result<Seq<u8>, AsmErrView> {
    let parts = spec_tokens(line);
    if parts.len() == 0 {
        Ok(seq![])
    } else {
        let m = spec_upper(parts[0]);
        if m == "IDL"@ {
            Ok(seq![0x00u8])
        } else if m == "IRX"@ {
            Ok(seq![0x60u8])
        } else if m == "RET"@ {
            Ok(seq![0x70u8])
        } else if m == "DIS"@ {
            Ok(seq![0x71u8])
        } else if m == "LDXA"@ {
            Ok(seq![0x72u8])
        } else if m == "STXD"@ {
            Ok(seq![0x73u8])
        } else if m == "ADC"@ {
            Ok(seq![0x74u8])
        } else if m == "SDB"@ {
            Ok(seq![0x75u8])
        } else if m == "SHRC"@ {
            Ok(seq![0x76u8])
        } else if m == "SMB"@ {
            Ok(seq![0x77u8])
        } else if m == "SAV"@ {
            Ok(seq![0x78u8])
        } else if m == "MARK"@ {
            Ok(seq![0x79u8])
        } else if m == "REQ"@ {
            Ok(seq![0x7Au8])
        } else if m == "SEQ"@ {
            Ok(seq![0x7Bu8])
        } else if m == "NOP"@ {
            Ok(seq![0xC4u8])
        } else if m == "LDX"@ {
            Ok(seq![0xF0u8])
        } else if m == "OR"@ {
            Ok(seq![0xF1u8])
        } else if m == "AND"@ {
            Ok(seq![0xF2u8])
        } else if m == "XOR"@ {
            Ok(seq![0xF3u8])
        } else if m == "ADD"@ {
            Ok(seq![0xF4u8])
        } else if m == "SD"@ {
            Ok(seq![0xF5u8])
        } else if m == "SHR"@ {
            Ok(seq![0xF6u8])
        } else if m == "SM"@ {
            Ok(seq![0xF7u8])
        } else if m == "SHL"@ {
            Ok(seq![0xFEu8])
        } else if m == "LDN"@ {
            spec_assemble_register_op(0x00, parts)
        } else if m == "INC"@ {
            spec_assemble_register_op(0x10, parts)
        } else if m == "DEC"@ {
            spec_assemble_register_op(0x20, parts)
        } else if m == "LDA"@ {
            spec_assemble_register_op(0x40, parts)
        } else if m == "STR"@ {
            spec_assemble_register_op(0x50, parts)
        } else if m == "OUT"@ {
            spec_assemble_register_op(0x60, parts)
        } else if m == "INP"@ {
            spec_assemble_register_op(0x68, parts)
        } else if m == "GLO"@ {
            spec_assemble_register_op(0x80, parts)
        } else if m == "GHI"@ {
            spec_assemble_register_op(0x90, parts)
        } else if m == "PLO"@ {
            spec_assemble_register_op(0xA0, parts)
        } else if m == "PHI"@ {
            spec_assemble_register_op(0xB0, parts)
        } else if m == "SEP"@ {
            spec_assemble_register_op(0xD0, parts)
        } else if m == "SEX"@ {
            spec_assemble_register_op(0xE0, parts)
        } else if m == "LDI"@ {
            spec_assemble_immediate(0xF8, parts)
        } else if m == "ORI"@ {
            spec_assemble_immediate(0xF9, parts)
        } else if m == "ANI"@ {
            spec_assemble_immediate(0xFA, parts)
        } else if m == "XRI"@ {
            spec_assemble_immediate(0xFB, parts)
        } else if m == "ADI"@ {
            spec_assemble_immediate(0xFC, parts)
        } else if m == "SDI"@ {
            spec_assemble_immediate(0xFD, parts)
        } else if m == "SMI"@ {
            spec_assemble_immediate(0xFF, parts)
        } else if m == "ADCI"@ {
            spec_assemble_immediate(0x7C, parts)
        } else if m == "SDBI"@ {
            spec_assemble_immediate(0x7D, parts)
        } else if m == "SHLC"@ {
            spec_assemble_immediate(0x7E, parts)
        } else if m == "SMBI"@ {
            spec_assemble_immediate(0x7F, parts)
        } else if m == "BR"@ {
            spec_assemble_short_branch(0x30, parts, labels)
        } else if m == "BQ"@ {
            spec_assemble_short_branch(0x31, parts, labels)
        } else if m == "BZ"@ {
            spec_assemble_short_branch(0x32, parts, labels)
        } else if m == "BDF"@ {
            spec_assemble_short_branch(0x33, parts, labels)
        } else if m == "B1"@ {
            spec_assemble_short_branch(0x34, parts, labels)
        } else if m == "B2"@ {
            spec_assemble_short_branch(0x35, parts, labels)
        } else if m == "B3"@ {
            spec_assemble_short_branch(0x36, parts, labels)
        } else if m == "B4"@ {
            spec_assemble_short_branch(0x37, parts, labels)
        } else if m == "SKP"@ {
            spec_assemble_short_branch(0x38, parts, labels)
        } else if m == "BNQ"@ {
            spec_assemble_short_branch(0x39, parts, labels)
        } else if m == "BNZ"@ {
            spec_assemble_short_branch(0x3A, parts, labels)
        } else if m == "BNF"@ {
            spec_assemble_short_branch(0x3B, parts, labels)
        } else if m == "BN1"@ {
            spec_assemble_short_branch(0x3C, parts, labels)
        } else if m == "BN2"@ {
            spec_assemble_short_branch(0x3D, parts, labels)
        } else if m == "BN3"@ {
            spec_assemble_short_branch(0x3E, parts, labels)
        } else if m == "BN4"@ {
            spec_assemble_short_branch(0x3F, parts, labels)
        } else if m == "LBR"@ {
            spec_assemble_long_branch(0xC0, parts, labels)
        } else if m == "LBQ"@ {
            spec_assemble_long_branch(0xC1, parts, labels)
        } else if m == "LBZ"@ {
            spec_assemble_long_branch(0xC2, parts, labels)
        } else if m == "LBDF"@ {
            spec_assemble_long_branch(0xC3, parts, labels)
        } else if m == "LSNQ"@ {
            spec_assemble_long_branch(0xC5, parts, labels)
        } else if m == "LSNZ"@ {
            spec_assemble_long_branch(0xC6, parts, labels)
        } else if m == "LSNF"@ {
            spec_assemble_long_branch(0xC7, parts, labels)
        } else if m == "LSKP"@ {
            spec_assemble_long_branch(0xC8, parts, labels)
        } else if m == "LBNQ"@ {
            spec_assemble_long_branch(0xC9, parts, labels)
        } else if m == "LBNZ"@ {
            spec_assemble_long_branch(0xCA, parts, labels)
        } else if m == "LBNF"@ {
            spec_assemble_long_branch(0xCB, parts, labels)
        } else if m == "LSIE"@ {
            spec_assemble_long_branch(0xCC, parts, labels)
        } else if m == "LSQ"@ {
            spec_assemble_long_branch(0xCD, parts, labels)
        } else if m == "LSZ"@ {
            spec_assemble_long_branch(0xCE, parts, labels)
        } else if m == "LSDF"@ {
            spec_assemble_long_branch(0xCF, parts, labels)
        } else {
            Err(AsmErrView::InvalidInstruction(m))
        }
    }
}

fn single_byte(b: u8) -> (r: Vec<u8>)
    ensures
        r@ == seq![b],
{
    let mut v: Vec<u8> = Vec::new();
    v.push(b);
    assert(v@ =~= seq![b]);
    v
}

/// Assemble one instruction line against the label table.
fn assemble_instruction(line: &[char], labels: &Vec<(Vec<char>, u16)>) -> (r: Result<
    Vec<u8>,
    AssemblyError,
>)
    ensures
        match r {
            Ok(v) => spec_assemble_instruction(line@, spec_label_entries(labels@)) == Ok::<
                Seq<u8>,
                AsmErrView,
            >(v@),
            Err(e) => spec_assemble_instruction(line@, spec_label_entries(labels@)) == Err::<
                Seq<u8>,
                AsmErrView,
            >(e@),
        },
{
    let parts = split_tokens(line);
    if parts.len() == 0 {
        let v: Vec<u8> = Vec::new();
        assert(v@ =~= Seq::<u8>::empty());
        return Ok(v);
    }
    proof {
        assert(parts.deep_view()[0] == parts@[0]@);
    }
    let m = to_upper(parts[0].as_slice());
    let ms = m.as_slice();
    if chars_eq_str(ms, "IDL") {
        Ok(single_byte(0x00))
    } else if chars_eq_str(ms, "IRX") {
        Ok(single_byte(0x60))
    } else if chars_eq_str(ms, "RET") {
        Ok(single_byte(0x70))
    } else if chars_eq_str(ms, "DIS") {
        Ok(single_byte(0x71))
    } else if chars_eq_str(ms, "LDXA") {
        Ok(single_byte(0x72))
    } else if chars_eq_str(ms, "STXD") {
        Ok(single_byte(0x73))
    } else if chars_eq_str(ms, "ADC") {
        Ok(single_byte(0x74))
    } else if chars_eq_str(ms, "SDB") {
        Ok(single_byte(0x75))
    } else if chars_eq_str(ms, "SHRC") {
        Ok(single_byte(0x76))
    } else if chars_eq_str(ms, "SMB") {
        Ok(single_byte(0x77))
    } else if chars_eq_str(ms, "SAV") {
        Ok(single_byte(0x78))
    } else if chars_eq_str(ms, "MARK") {
        Ok(single_byte(0x79))
    } else if chars_eq_str(ms, "REQ") {
        Ok(single_byte(0x7A))
    } else if chars_eq_str(ms, "SEQ") {
        Ok(single_byte(0x7B))
    } else if chars_eq_str(ms, "NOP") {
        Ok(single_byte(0xC4))
    } else if chars_eq_str(ms, "LDX") {
        Ok(single_byte(0xF0))
    } else if chars_eq_str(ms, "OR") {
        Ok(single_byte(0xF1))
    } else if chars_eq_str(ms, "AND") {
        Ok(single_byte(0xF2))
    } else if chars_eq_str(ms, "XOR") {
        Ok(single_byte(0xF3))
    } else if chars_eq_str(ms, "ADD") {
        Ok(single_byte(0xF4))
    } else if chars_eq_str(ms, "SD") {
        Ok(single_byte(0xF5))
    } else if chars_eq_str(ms, "SHR") {
        Ok(single_byte(0xF6))
    } else if chars_eq_str(ms, "SM") {
        Ok(single_byte(0xF7))
    } else if chars_eq_str(ms, "SHL") {
        Ok(single_byte(0xFE))
    } else if chars_eq_str(ms, "LDN") {
        assemble_register_op(0x00, &parts)
    } else if chars_eq_str(ms, "INC") {
        assemble_register_op(0x10, &parts)
    } else if chars_eq_str(ms, "DEC") {
        assemble_register_op(0x20, &parts)
    } else if chars_eq_str(ms, "LDA") {
        assemble_register_op(0x40, &parts)
    } else if chars_eq_str(ms, "STR") {
        assemble_register_op(0x50, &parts)
    } else if chars_eq_str(ms, "OUT") {
        assemble_register_op(0x60, &parts)
    } else if chars_eq_str(ms, "INP") {
        assemble_register_op(0x68, &parts)
    } else if chars_eq_str(ms, "GLO") {
        assemble_register_op(0x80, &parts)
    } else if chars_eq_str(ms, "GHI") {
        assemble_register_op(0x90, &parts)
    } else if chars_eq_str(ms, "PLO") {
        assemble_register_op(0xA0, &parts)
    } else if chars_eq_str(ms, "PHI") {
        assemble_register_op(0xB0, &parts)
    } else if chars_eq_str(ms, "SEP") {
        assemble_register_op(0xD0, &parts)
    } else if chars_eq_str(ms, "SEX") {
        assemble_register_op(0xE0, &parts)
    } else if chars_eq_str(ms, "LDI") {
        assemble_immediate(0xF8, &parts)
    } else if chars_eq_str(ms, "ORI") {
        assemble_immediate(0xF9, &parts)
    } else if chars_eq_str(ms, "ANI") {
        assemble_immediate(0xFA, &parts)
    } else if chars_eq_str(ms, "XRI") {
        assemble_immediate(0xFB, &parts)
    } else if chars_eq_str(ms, "ADI") {
        assemble_immediate(0xFC, &parts)
    } else if chars_eq_str(ms, "SDI") {
        assemble_immediate(0xFD, &parts)
    } else if chars_eq_str(ms, "SMI") {
        assemble_immediate(0xFF, &parts)
    } else if chars_eq_str(ms, "ADCI") {
        assemble_immediate(0x7C, &parts)
    } else if chars_eq_str(ms, "SDBI") {
        assemble_immediate(0x7D, &parts)
    } else if chars_eq_str(ms, "SHLC") {
        assemble_immediate(0x7E, &parts)
    } else if chars_eq_str(ms, "SMBI") {
        assemble_immediate(0x7F, &parts)
    } else if chars_eq_str(ms, "BR") {
        assemble_short_branch(0x30, &parts, labels)
    } else if chars_eq_str(ms, "BQ") {
        assemble_short_branch(0x31, &parts, labels)
    } else if chars_eq_str(ms, "BZ") {
        assemble_short_branch(0x32, &parts, labels)
    } else if chars_eq_str(ms, "BDF") {
        assemble_short_branch(0x33, &parts, labels)
    } else if chars_eq_str(ms, "B1") {
        assemble_short_branch(0x34, &parts, labels)
    } else if chars_eq_str(ms, "B2") {
        assemble_short_branch(0x35, &parts, labels)
    } else if chars_eq_str(ms, "B3") {
        assemble_short_branch(0x36, &parts, labels)
    } else if chars_eq_str(ms, "B4") {
        assemble_short_branch(0x37, &parts, labels)
    } else if chars_eq_str(ms, "SKP") {
        assemble_short_branch(0x38, &parts, labels)
    } else if chars_eq_str(ms, "BNQ") {
        assemble_short_branch(0x39, &parts, labels)
    } else if chars_eq_str(ms, "BNZ") {
        assemble_short_branch(0x3A, &parts, labels)
    } else if chars_eq_str(ms, "BNF") {
        assemble_short_branch(0x3B, &parts, labels)
    } else if chars_eq_str(ms, "BN1") {
        assemble_short_branch(0x3C, &parts, labels)
    } else if chars_eq_str(ms, "BN2") {
        assemble_short_branch(0x3D, &parts, labels)
    } else if chars_eq_str(ms, "BN3") {
        assemble_short_branch(0x3E, &parts, labels)
    } else if chars_eq_str(ms, "BN4") {
        assemble_short_branch(0x3F, &parts, labels)
    } else if chars_eq_str(ms, "LBR") {
        assemble_long_branch(0xC0, &parts, labels)
    } else if chars_eq_str(ms, "LBQ") {
        assemble_long_branch(0xC1, &parts, labels)
    } else if chars_eq_str(ms, "LBZ") {
        assemble_long_branch(0xC2, &parts, labels)
    } else if chars_eq_str(ms, "LBDF") {
        assemble_long_branch(0xC3, &parts, labels)
    } else if chars_eq_str(ms, "LSNQ") {
        assemble_long_branch(0xC5, &parts, labels)
    } else if chars_eq_str(ms, "LSNZ") {
        assemble_long_branch(0xC6, &parts, labels)
    } else if chars_eq_str(ms, "LSNF") {
        assemble_long_branch(0xC7, &parts, labels)
    } else if chars_eq_str(ms, "LSKP") {
        assemble_long_branch(0xC8, &parts, labels)
    } else if chars_eq_str(ms, "LBNQ") {
        assemble_long_branch(0xC9, &parts, labels)
    } else if chars_eq_str(ms, "LBNZ") {
        assemble_long_branch(0xCA, &parts, labels)
    } else if chars_eq_str(ms, "LBNF") {
        assemble_long_branch(0xCB, &parts, labels)
    } else if chars_eq_str(ms, "LSIE") {
        assemble_long_branch(0xCC, &parts, labels)
    } else if chars_eq_str(ms, "LSQ") {
        assemble_long_branch(0xCD, &parts, labels)
    } else if chars_eq_str(ms, "LSZ") {
        assemble_long_branch(0xCE, &parts, labels)
    } else if chars_eq_str(ms, "LSDF") {
        assemble_long_branch(0xCF, &parts, labels)
    } else {
        Err(AssemblyError::InvalidInstruction(string_from_chars(ms)))
    }
}

/// Pass 1, from line `i` on: collect label definitions, adding each
/// instruction's encoded length to the running address, which wraps at 16
/// bits.  A failure (an unknown mnemonic) aborts with the 1-based source
/// line it occurred on.
pub open spec fn spec_pass1_from(
    lines: Seq<Seq<char>>,
    i: int,
    labels: Seq<(Seq<char>, u16)>,
    address: u16,
) -> Result<Seq<(Seq<char>, u16)>, AsmErrView>
    decreases lines.len() - i,
{
    if i < 0 || i >= lines.len() {
        Ok(labels)
    } else {
        let l = spec_trim(spec_strip_comment(lines[i]));
        if l.len() == 0 {
            spec_pass1_from(lines, i + 1, labels, address)
        } else {
            let k = spec_find_char(l, ':');
            if k >= 0 {
                let label = spec_upper(spec_trim(l.take(k)));
                let labels2 = labels.push((label, address));
                let rest = spec_trim(l.skip(k + 1));
                if rest.len() == 0 {
                    spec_pass1_from(lines, i + 1, labels2, address)
                } else {
                    match spec_instruction_length(rest) {
                        Ok(n) => spec_pass1_from(lines, i + 1, labels2, wrap_add16(address, n)),
                        Err(e) => Err(
                            AsmErrView::ParseError {
                                line: (i + 1) as nat,
                                message: spec_error_message(e),
                            },
                        ),
                    }
                }
            } else {
                match spec_instruction_length(l) {
                    Ok(n) => spec_pass1_from(lines, i + 1, labels, wrap_add16(address, n)),
                    Err(e) => Err(
                        AsmErrView::ParseError {
                            line: (i + 1) as nat,
                            message: spec_error_message(e),
                        },
                    ),
                }
            }
        }
    }
}

fn collect_labels(lines: &Vec<Vec<char>>) -> (r: Result<Vec<(Vec<char>, u16)>, AssemblyError>)
    ensures
        match r {
            Ok(entries) => spec_pass1_from(lines.deep_view(), 0, seq![], 0) == Ok::<
                Seq<(Seq<char>, u16)>,
                AsmErrView,
            >(spec_label_entries(entries@)),
            Err(e) => spec_pass1_from(lines.deep_view(), 0, seq![], 0) == Err::<
                Seq<(Seq<char>, u16)>,
                AsmErrView,
            >(e@),
        },
{
    let ghost ldv = lines.deep_view();
    let mut entries: Vec<(Vec<char>, u16)> = Vec::new();
    let mut address: u16 = 0;
    let mut i: usize = 0;
    assert(spec_label_entries(entries@) =~= Seq::<(Seq<char>, u16)>::empty());
    while i < lines.len()
        invariant
            i <= lines@.len(),
            ldv == lines.deep_view(),
            ldv.len() == lines@.len(),
            spec_pass1_from(ldv, 0, seq![], 0) == spec_pass1_from(
                ldv,
                i as int,
                spec_label_entries(entries@),
                address,
            ),
        decreases lines@.len() - i,
    {
        let ghost labels0 = spec_label_entries(entries@);
        let ghost addr0 = address;
        proof {
            assert(ldv[i as int] == lines@[i as int]@);
        }
        let line = trim(strip_comments(lines[i].as_slice()));
        if line.len() > 0 {
            match find_char(line, ':') {
                Some(k) => {
                    proof {
                        assert(line@.subrange(0, k as int) =~= line@.take(k as int));
                        assert(line@.subrange(k + 1, line@.len() as int) =~= line@.skip(k + 1));
                    }
                    let label = to_upper(trim(slice_subrange(line, 0, k)));
                    let ghost label_view = label@;
                    entries.push((label, address));
                    proof {
                        assert(spec_label_entries(entries@) =~= labels0.push((label_view, addr0)));
                    }
                    let rest = trim(slice_subrange(line, k + 1, line.len()));
                    if rest.len() > 0 {
                        match get_instruction_length(rest) {
                            Ok(n) => {
                                address = address.wrapping_add(n);
                            },
                            Err(e) => {
                                let message = e.message();
                                return Err(AssemblyError::ParseError { line: i + 1, message });
                            },
                        }
                    }
                },
                None => {
                    match get_instruction_length(line) {
                        Ok(n) => {
                            address = address.wrapping_add(n);
                        },
                        Err(e) => {
                            let message = e.message();
                            return Err(AssemblyError::ParseError { line: i + 1, message });
                        },
                    }
                },
            }
        }
        i = i + 1;
        assert(spec_pass1_from(ldv, 0, seq![], 0) == spec_pass1_from(
            ldv,
            i as int,
            spec_label_entries(entries@),
            address,
        ));
    }
    Ok(entries)
}

/// One disassembly line: the 4-hex-digit offset of the instruction into the
/// generated code, the space-separated hex encoding left-justified to 8
/// characters, and the source text with any label stripped.
pub open spec fn spec_disasm_line(addr: nat, bytes: Seq<u8>, src: Seq<char>) -> Seq<char> {
    spec_hex_upper(addr, 4) + seq![':', ' '] + spec_pad_right(spec_hex_bytes(bytes), 8) + seq![
        ' ',
        '|',
        ' ',
    ] + src
}

fn disasm_line(addr: usize, bytes: &Vec<u8>, src: &[char]) -> (r: Vec<char>)
    ensures
        r@ == spec_disasm_line(addr as nat, bytes@, src@),
{
    let mut line = hex_chars(addr, 4);
    line.push(':');
    line.push(' ');
    let mut hb = hex_bytes(bytes.as_slice());
    pad_right(&mut hb, 8);
    line.append(&mut hb);
    line.push(' ');
    line.push('|');
    line.push(' ');
    let mut rest = slice_to_vec(src);
    line.append(&mut rest);
    assert(line@ =~= spec_disasm_line(addr as nat, bytes@, src@));
    line
}

/// Pass 2, from line `i` on: emit bytes per instruction and one
/// disassembly line per emitted instruction; any failure aborts with the
/// 1-based line number.
pub open spec fn spec_pass2_from(
    lines: Seq<Seq<char>>,
    i: int,
    labels: Seq<(Seq<char>, u16)>,
    code: Seq<u8>,
    disasm: Seq<Seq<char>>,
) -> Result<(Seq<u8>, Seq<Seq<char>>), AsmErrView>
    decreases lines.len() - i,
{
    if i < 0 || i >= lines.len() {
        Ok((code, disasm))
    } else {
        let l = spec_trim(spec_strip_comment(lines[i]));
        if l.len() == 0 {
            spec_pass2_from(lines, i + 1, labels, code, disasm)
        } else {
            let k = spec_find_char(l, ':');
            let instr = if k >= 0 {
                spec_trim(l.skip(k + 1))
            } else {
                l
            };
            if instr.len() == 0 {
                spec_pass2_from(lines, i + 1, labels, code, disasm)
            } else {
                match spec_assemble_instruction(instr, labels) {
                    Ok(bytes) => spec_pass2_from(
                        lines,
                        i + 1,
                        labels,
                        code + bytes,
                        disasm.push(spec_disasm_line(code.len(), bytes, instr)),
                    ),
                    Err(e) => Err(
                        AsmErrView::ParseError {
                            line: (i + 1) as nat,
                            message: spec_error_message(e),
                        },
                    ),
                }
            }
        }
    }
}

fn emit_code(lines: &Vec<Vec<char>>, labels: &Vec<(Vec<char>, u16)>) -> (r: Result<
    (Vec<u8>, Vec<String>),
    AssemblyError,
>)
    ensures
        match r {
            Ok(out) => spec_pass2_from(
                lines.deep_view(),
                0,
                spec_label_entries(labels@),
                seq![],
                seq![],
            ) == Ok::<(Seq<u8>, Seq<Seq<char>>), AsmErrView>((out.0@, out.1.deep_view())),
            Err(e) => spec_pass2_from(
                lines.deep_view(),
                0,
                spec_label_entries(labels@),
                seq![],
                seq![],
            ) == Err::<(Seq<u8>, Seq<Seq<char>>), AsmErrView>(e@),
        },
{
    let ghost ldv = lines.deep_view();
    let ghost lv = spec_label_entries(labels@);
    let mut machine_code: Vec<u8> = Vec::new();
    let mut disassembly: Vec<String> = Vec::new();
    let mut i: usize = 0;
    assert(machine_code@ =~= Seq::<u8>::empty());
    assert(disassembly.deep_view() =~~= Seq::<Seq<char>>::empty());
    while i < lines.len()
        invariant
            i <= lines@.len(),
            ldv == lines.deep_view(),
            ldv.len() == lines@.len(),
            lv == spec_label_entries(labels@),
            spec_pass2_from(ldv, 0, lv, seq![], seq![]) == spec_pass2_from(
                ldv,
                i as int,
                lv,
                machine_code@,
                disassembly.deep_view(),
            ),
        decreases lines@.len() - i,
    {
        let ghost code0 = machine_code@;
        let ghost disasm0 = disassembly.deep_view();
        proof {
            assert(ldv[i as int] == lines@[i as int]@);
        }
        let line = trim(strip_comments(lines[i].as_slice()));
        if line.len() > 0 {
            let instruction_line: &[char] = match find_char(line, ':') {
                Some(k) => {
                    proof {
                        assert(line@.subrange(k + 1, line@.len() as int) =~= line@.skip(k + 1));
                    }
                    trim(slice_subrange(line, k + 1, line.len()))
                },
                None => line,
            };
            if instruction_line.len() > 0 {
                match assemble_instruction(instruction_line, labels) {
                    Ok(bytes) => {
                        let addr = machine_code.len();
                        let dl = disasm_line(addr, &bytes, instruction_line);
                        disassembly.push(string_from_chars(dl.as_slice()));
                        let mut tail = bytes;
                        machine_code.append(&mut tail);
                        proof {
                            assert(disassembly.deep_view() =~~= disasm0.push(dl@));
                        }
                    },
                    Err(e) => {
                        let message = e.message();
                        return Err(AssemblyError::ParseError { line: i + 1, message });
                    },
                }
            }
        }
        i = i + 1;
        assert(spec_pass2_from(ldv, 0, lv, seq![], seq![]) == spec_pass2_from(
            ldv,
            i as int,
            lv,
            machine_code@,
            disassembly.deep_view(),
        ));
    }
    Ok((machine_code, disassembly))
}

/// What assembling a source text yields: pass 1 collects the labels, pass 2
/// emits machine code and disassembly.
pub open spec fn spec_assemble(src: Seq<char>) -> Result<(Seq<u8>, Seq<Seq<char>>), AsmErrView> {
    let lines = spec_split_lines(src);
    match spec_pass1_from(lines, 0, seq![], 0) {
        Ok(labels) => spec_pass2_from(lines, 0, labels, seq![], seq![]),
        Err(e) => Err(e),
    }
}

/// Assemble RCA 1802 assembly source: two passes, label resolution, and an
/// address-annotated disassembly.  On any failure no output is produced.
pub fn assemble(source: &str) -> (r: Result<AssemblyOutput, AssemblyError>)
    ensures
        match r {
            Ok(out) => spec_assemble(source@) == Ok::<(Seq<u8>, Seq<Seq<char>>), AsmErrView>(out@),
            Err(e) => spec_assemble(source@) == Err::<(Seq<u8>, Seq<Seq<char>>), AsmErrView>(e@),
        },
{
    let cs = chars_of(source);
    let lines = split_lines(cs.as_slice());
    let entries = match collect_labels(&lines) {
        Ok(entries) => entries,
        Err(e) => {
            return Err(e);
        },
    };
    match emit_code(&lines, &entries) {
        Ok((machine_code, disassembly)) => Ok(AssemblyOutput { machine_code, disassembly }),
        Err(e) => Err(e),
    }
}

} // verus!
