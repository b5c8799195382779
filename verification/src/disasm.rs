//! The text of an instruction, for listings and traces.

use vstd::prelude::*;
use vstd::string::*;
use crate::isa::{Op, dst, dst_field, lookup, operation, pair, pair_field, src, src_field};

verus! {

/// The hexadecimal digit of a number below 16, in upper case.
pub open spec fn hex_digit(n: u8) -> Seq<char> {
    if n == 0 {
        "0"@
    } else if n == 1 {
        "1"@
    } else if n == 2 {
        "2"@
    } else if n == 3 {
        "3"@
    } else if n == 4 {
        "4"@
    } else if n == 5 {
        "5"@
    } else if n == 6 {
        "6"@
    } else if n == 7 {
        "7"@
    } else if n == 8 {
        "8"@
    } else if n == 9 {
        "9"@
    } else if n == 10 {
        "A"@
    } else if n == 11 {
        "B"@
    } else if n == 12 {
        "C"@
    } else if n == 13 {
        "D"@
    } else if n == 14 {
        "E"@
    } else {
        "F"@
    }
}

/// The hexadecimal digit of a number below 16, in upper case.
pub fn hex_digit_str(n: u8) -> (name: &'static str)
    ensures
        name@ == hex_digit(n),
{
    match n {
        0 => "0",
        1 => "1",
        2 => "2",
        3 => "3",
        4 => "4",
        5 => "5",
        6 => "6",
        7 => "7",
        8 => "8",
        9 => "9",
        10 => "A",
        11 => "B",
        12 => "C",
        13 => "D",
        14 => "E",
        _ => "F",
    }
}

/// The name of the operand with number `r`; `M` is the byte at HL.
pub open spec fn register_name(r: u8) -> Seq<char> {
    if r == 0 {
        "B"@
    } else if r == 1 {
        "C"@
    } else if r == 2 {
        "D"@
    } else if r == 3 {
        "E"@
    } else if r == 4 {
        "H"@
    } else if r == 5 {
        "L"@
    } else if r == 6 {
        "M"@
    } else {
        "A"@
    }
}

/// The name of the operand with number `r`; `M` is the byte at HL.
pub fn register_str(r: u8) -> (name: &'static str)
    ensures
        name@ == register_name(r),
{
    match r {
        0 => "B",
        1 => "C",
        2 => "D",
        3 => "E",
        4 => "H",
        5 => "L",
        6 => "M",
        _ => "A",
    }
}

/// The name of the register pair with number `rp`.
pub open spec fn pair_name(rp: u8) -> Seq<char> {
    if rp == 0 {
        "B"@
    } else if rp == 1 {
        "D"@
    } else if rp == 2 {
        "H"@
    } else {
        "SP"@
    }
}

/// The name of the register pair with number `rp`.
pub fn pair_str(rp: u8) -> (name: &'static str)
    ensures
        name@ == pair_name(rp),
{
    match rp {
        0 => "B",
        1 => "D",
        2 => "H",
        _ => "SP",
    }
}

/// The name of the register pair with number `rp` in PUSH and POP.
pub open spec fn stack_pair_name(rp: u8) -> Seq<char> {
    if rp == 0 {
        "B"@
    } else if rp == 1 {
        "D"@
    } else if rp == 2 {
        "H"@
    } else {
        "PSW"@
    }
}

/// The name of the register pair with number `rp` in PUSH and POP.
pub fn stack_pair_str(rp: u8) -> (name: &'static str)
    ensures
        name@ == stack_pair_name(rp),
{
    match rp {
        0 => "B",
        1 => "D",
        2 => "H",
        _ => "PSW",
    }
}

/// The name of the condition with number `c`.
pub open spec fn condition_name(c: u8) -> Seq<char> {
    if c == 0 {
        "NZ"@
    } else if c == 1 {
        "Z"@
    } else if c == 2 {
        "NC"@
    } else if c == 3 {
        "C"@
    } else if c == 4 {
        "PO"@
    } else if c == 5 {
        "PE"@
    } else if c == 6 {
        "P"@
    } else {
        "M"@
    }
}

/// The name of the condition with number `c`.
pub fn condition_str(c: u8) -> (name: &'static str)
    ensures
        name@ == condition_name(c),
{
    match c {
        0 => "NZ",
        1 => "Z",
        2 => "NC",
        3 => "C",
        4 => "PO",
        5 => "PE",
        6 => "P",
        _ => "M",
    }
}

/// The name of the condition with number `c`, filled with spaces to six
/// columns.
pub open spec fn condition_column(c: u8) -> Seq<char> {
    if c == 0 {
        "NZ    "@
    } else if c == 1 {
        "Z     "@
    } else if c == 2 {
        "NC    "@
    } else if c == 3 {
        "C     "@
    } else if c == 4 {
        "PO    "@
    } else if c == 5 {
        "PE    "@
    } else if c == 6 {
        "P     "@
    } else {
        "M     "@
    }
}

/// The name of the condition with number `c`, filled with spaces to six
/// columns.
pub fn condition_column_str(c: u8) -> (name: &'static str)
    ensures
        name@ == condition_column(c),
{
    match c {
        0 => "NZ    ",
        1 => "Z     ",
        2 => "NC    ",
        3 => "C     ",
        4 => "PO    ",
        5 => "PE    ",
        6 => "P     ",
        _ => "M     ",
    }
}

/// The two hexadecimal digits of a byte.
pub open spec fn hex_byte(b: u8) -> Seq<char> {
    hex_digit(b / 16) + hex_digit(b % 16)
}

/// The four hexadecimal digits of a word.
pub open spec fn hex_word(w: u16) -> Seq<char> {
    hex_byte((w / 256) as u8) + hex_byte((w % 256) as u8)
}

/// The text of the instruction with the given opcode, with `op1` as its
/// operand of one byte and `opw` as its operand of two: the mnemonic, filled
/// with spaces to seven columns where operands follow, and the operands,
/// numbers in hexadecimal after a `$`.
pub open spec fn instruction_text(opcode: u8, op1: u8, opw: u16) -> Seq<char> {
    let d = dst(opcode);
    let s = src(opcode);
    let rp = pair(opcode);
    match operation(opcode) {
        Op::Nop => "NOP"@,
        Op::Hlt => "HLT"@,
        Op::Rlc => "RLC"@,
        Op::Rrc => "RRC"@,
        Op::Ral => "RAL"@,
        Op::Rar => "RAR"@,
        Op::Daa => "DAA"@,
        Op::Cma => "CMA"@,
        Op::Stc => "STC"@,
        Op::Cmc => "CMC"@,
        Op::Ret => "RET"@,
        Op::Xthl => "XTHL"@,
        Op::Pchl => "PCHL"@,
        Op::Xchg => "XCHG"@,
        Op::Sphl => "SPHL"@,
        Op::Di => "DI"@,
        Op::Ei => "EI"@,
        Op::Rcc => "R"@ + condition_name(d),
        Op::Lxi => "LXI    "@ + pair_name(rp) + ", $"@ + hex_word(opw),
        Op::Stax => "STAX   "@ + pair_name(rp),
        Op::Ldax => "LDAX   "@ + pair_name(rp),
        Op::Inx => "INX    "@ + pair_name(rp),
        Op::Dcx => "DCX    "@ + pair_name(rp),
        Op::Dad => "DAD    "@ + pair_name(rp),
        Op::Push => "PUSH   "@ + stack_pair_name(rp),
        Op::Pop => "POP    "@ + stack_pair_name(rp),
        Op::Inr => "INR    "@ + register_name(d),
        Op::Dcr => "DCR    "@ + register_name(d),
        Op::Mvi => "MVI    "@ + register_name(d) + ", $"@ + hex_byte(op1),
        Op::Mov => "MOV    "@ + register_name(d) + ", "@ + register_name(s),
        Op::Add => "ADD    "@ + register_name(s),
        Op::Adc => "ADC    "@ + register_name(s),
        Op::Sub => "SUB    "@ + register_name(s),
        Op::Sbb => "SBB    "@ + register_name(s),
        Op::Ana => "ANA    "@ + register_name(s),
        Op::Xra => "XRA    "@ + register_name(s),
        Op::Ora => "ORA    "@ + register_name(s),
        Op::Compare => "CMP    "@ + register_name(s),
        Op::Adi => "ADI    $"@ + hex_byte(op1),
        Op::Aci => "ACI    $"@ + hex_byte(op1),
        Op::Sui => "SUI    $"@ + hex_byte(op1),
        Op::Sbi => "SBI    $"@ + hex_byte(op1),
        Op::Ani => "ANI    $"@ + hex_byte(op1),
        Op::Xri => "XRI    $"@ + hex_byte(op1),
        Op::Ori => "ORI    $"@ + hex_byte(op1),
        Op::Cpi => "CPI    $"@ + hex_byte(op1),
        Op::In => "IN     $"@ + hex_byte(op1),
        Op::Out => "OUT    $"@ + hex_byte(op1),
        Op::Shld => "SHLD   $"@ + hex_word(opw),
        Op::Lhld => "LHLD   $"@ + hex_word(opw),
        Op::Sta => "STA    $"@ + hex_word(opw),
        Op::Lda => "LDA    $"@ + hex_word(opw),
        Op::Jmp => "JMP    $"@ + hex_word(opw),
        Op::Call => "CALL   $"@ + hex_word(opw),
        Op::Jcc => "J"@ + condition_column(d) + "$"@ + hex_word(opw),
        Op::Ccc => "C"@ + condition_column(d) + "$"@ + hex_word(opw),
        Op::Rst => "RST    "@ + hex_digit(d),
    }
}

/// One line of a listing: the address in four hexadecimal digits, a space,
/// and the text of the instruction.
pub open spec fn listing(pc: u16, opcode: u8, op1: u8, opw: u16) -> Seq<char> {
    hex_word(pc) + " "@ + instruction_text(opcode, op1, opw)
}

/// Appends the two hexadecimal digits of `b`.
pub fn append_hex_byte(line: &mut String, b: u8)
    ensures
        final(line)@ == old(line)@ + hex_byte(b),
{
    line.append(hex_digit_str(b / 16));
    line.append(hex_digit_str(b % 16));
    assert(line@ =~= old(line)@ + hex_byte(b));
}

/// Appends the four hexadecimal digits of `w`.
pub fn append_hex_word(line: &mut String, w: u16)
    ensures
        final(line)@ == old(line)@ + hex_word(w),
{
    append_hex_byte(line, (w / 256) as u8);
    append_hex_byte(line, (w % 256) as u8);
    assert(line@ =~= old(line)@ + hex_word(w));
}

/// The text of the instruction with the given opcode and operands.
pub fn instruction_string(opcode: u8, op1: u8, opw: u16) -> (text: String)
    ensures
        text@ == instruction_text(opcode, op1, opw),
{
    let d: u8 = dst_field(opcode);
    let s: u8 = src_field(opcode);
    let rp: u8 = pair_field(opcode);
    match lookup(opcode).op {
        Op::Nop => String::from_str("NOP"),
        Op::Hlt => String::from_str("HLT"),
        Op::Rlc => String::from_str("RLC"),
        Op::Rrc => String::from_str("RRC"),
        Op::Ral => String::from_str("RAL"),
        Op::Rar => String::from_str("RAR"),
        Op::Daa => String::from_str("DAA"),
        Op::Cma => String::from_str("CMA"),
        Op::Stc => String::from_str("STC"),
        Op::Cmc => String::from_str("CMC"),
        Op::Ret => String::from_str("RET"),
        Op::Xthl => String::from_str("XTHL"),
        Op::Pchl => String::from_str("PCHL"),
        Op::Xchg => String::from_str("XCHG"),
        Op::Sphl => String::from_str("SPHL"),
        Op::Di => String::from_str("DI"),
        Op::Ei => String::from_str("EI"),
        Op::Rcc => {
            let mut text: String = String::from_str("R");
            text.append(condition_str(d));
            text
        },
        Op::Lxi => {
            let mut text: String = String::from_str("LXI    ");
            text.append(pair_str(rp));
            text.append(", $");
            append_hex_word(&mut text, opw);
            text
        },
        Op::Stax => {
            let mut text: String = String::from_str("STAX   ");
            text.append(pair_str(rp));
            text
        },
        Op::Ldax => {
            let mut text: String = String::from_str("LDAX   ");
            text.append(pair_str(rp));
            text
        },
        Op::Inx => {
            let mut text: String = String::from_str("INX    ");
            text.append(pair_str(rp));
            text
        },
        Op::Dcx => {
            let mut text: String = String::from_str("DCX    ");
            text.append(pair_str(rp));
            text
        },
        Op::Dad => {
            let mut text: String = String::from_str("DAD    ");
            text.append(pair_str(rp));
            text
        },
        Op::Push => {
            let mut text: String = String::from_str("PUSH   ");
            text.append(stack_pair_str(rp));
            text
        },
        Op::Pop => {
            let mut text: String = String::from_str("POP    ");
            text.append(stack_pair_str(rp));
            text
        },
        Op::Inr => {
            let mut text: String = String::from_str("INR    ");
            text.append(register_str(d));
            text
        },
        Op::Dcr => {
            let mut text: String = String::from_str("DCR    ");
            text.append(register_str(d));
            text
        },
        Op::Mvi => {
            let mut text: String = String::from_str("MVI    ");
            text.append(register_str(d));
            text.append(", $");
            append_hex_byte(&mut text, op1);
            text
        },
        Op::Mov => {
            let mut text: String = String::from_str("MOV    ");
            text.append(register_str(d));
            text.append(", ");
            text.append(register_str(s));
            text
        },
        Op::Add => {
            let mut text: String = String::from_str("ADD    ");
            text.append(register_str(s));
            text
        },
        Op::Adc => {
            let mut text: String = String::from_str("ADC    ");
            text.append(register_str(s));
            text
        },
        Op::Sub => {
            let mut text: String = String::from_str("SUB    ");
            text.append(register_str(s));
            text
        },
        Op::Sbb => {
            let mut text: String = String::from_str("SBB    ");
            text.append(register_str(s));
            text
        },
        Op::Ana => {
            let mut text: String = String::from_str("ANA    ");
            text.append(register_str(s));
            text
        },
        Op::Xra => {
            let mut text: String = String::from_str("XRA    ");
            text.append(register_str(s));
            text
        },
        Op::Ora => {
            let mut text: String = String::from_str("ORA    ");
            text.append(register_str(s));
            text
        },
        Op::Compare => {
            let mut text: String = String::from_str("CMP    ");
            text.append(register_str(s));
            text
        },
        Op::Adi => {
            let mut text: String = String::from_str("ADI    $");
            append_hex_byte(&mut text, op1);
            text
        },
        Op::Aci => {
            let mut text: String = String::from_str("ACI    $");
            append_hex_byte(&mut text, op1);
            text
        },
        Op::Sui => {
            let mut text: String = String::from_str("SUI    $");
            append_hex_byte(&mut text, op1);
            text
        },
        Op::Sbi => {
            let mut text: String = String::from_str("SBI    $");
            append_hex_byte(&mut text, op1);
            text
        },
        Op::Ani => {
            let mut text: String = String::from_str("ANI    $");
            append_hex_byte(&mut text, op1);
            text
        },
        Op::Xri => {
            let mut text: String = String::from_str("XRI    $");
            append_hex_byte(&mut text, op1);
            text
        },
        Op::Ori => {
            let mut text: String = String::from_str("ORI    $");
            append_hex_byte(&mut text, op1);
            text
        },
        Op::Cpi => {
            let mut text: String = String::from_str("CPI    $");
            append_hex_byte(&mut text, op1);
            text
        },
        Op::In => {
            let mut text: String = String::from_str("IN     $");
            append_hex_byte(&mut text, op1);
            text
        },
        Op::Out => {
            let mut text: String = String::from_str("OUT    $");
            append_hex_byte(&mut text, op1);
            text
        },
        Op::Shld => {
            let mut text: String = String::from_str("SHLD   $");
            append_hex_word(&mut text, opw);
            text
        },
        Op::Lhld => {
            let mut text: String = String::from_str("LHLD   $");
            append_hex_word(&mut text, opw);
            text
        },
        Op::Sta => {
            let mut text: String = String::from_str("STA    $");
            append_hex_word(&mut text, opw);
            text
        },
        Op::Lda => {
            let mut text: String = String::from_str("LDA    $");
            append_hex_word(&mut text, opw);
            text
        },
        Op::Jmp => {
            let mut text: String = String::from_str("JMP    $");
            append_hex_word(&mut text, opw);
            text
        },
        Op::Call => {
            let mut text: String = String::from_str("CALL   $");
            append_hex_word(&mut text, opw);
            text
        },
        Op::Jcc => {
            let mut text: String = String::from_str("J");
            text.append(condition_column_str(d));
            text.append("$");
            append_hex_word(&mut text, opw);
            text
        },
        Op::Ccc => {
            let mut text: String = String::from_str("C");
            text.append(condition_column_str(d));
            text.append("$");
            append_hex_word(&mut text, opw);
            text
        },
        Op::Rst => {
            let mut text: String = String::from_str("RST    ");
            text.append(hex_digit_str(d));
            text
        },
    }
}

/// One line of a listing for the instruction at `pc` with the given opcode
/// and operand bytes; `opw` is the word that `op1` and `op2` make.
pub fn disas(pc: u16, opcode: u8, op1: u8, op2: u8, opw: u16) -> (line: String)
    ensures
        line@ == listing(pc, opcode, op1, opw),
{
    let mut line: String = String::new();
    append_hex_word(&mut line, pc);
    assert(line@ =~= hex_word(pc));
    line.append(" ");
    let text: String = instruction_string(opcode, op1, opw);
    line.append(text.as_str());
    line
}

} // verus!
