//! The instruction set: what each of the 256 opcodes is, how long it is and
//! what it costs.

use vstd::prelude::*;

verus! {

/// The operation an opcode selects. The conditional jumps, calls and returns
/// are one operation each: the condition is a field of the opcode.
#[derive(Clone, Copy, Debug, PartialEq, Eq, Structural)]
pub enum Op {
    Nop,
    Lxi,
    Stax,
    Inx,
    Inr,
    Dcr,
    Mvi,
    Rlc,
    Dad,
    Ldax,
    Dcx,
    Rrc,
    Ral,
    Rar,
    Shld,
    Daa,
    Lhld,
    Cma,
    Sta,
    Stc,
    Lda,
    Cmc,
    Mov,
    Hlt,
    Add,
    Adc,
    Sub,
    Sbb,
    Ana,
    Xra,
    Ora,
    /// CMP.
    Compare,
    /// RNZ, RZ, RNC, RC, RPO, RPE, RP, RM.
    Rcc,
    Pop,
    /// JNZ, JZ, JNC, JC, JPO, JPE, JP, JM.
    Jcc,
    Jmp,
    /// CNZ, CZ, CNC, CC, CPO, CPE, CP, CM.
    Ccc,
    Push,
    Adi,
    Rst,
    Ret,
    Call,
    Aci,
    Out,
    Sui,
    In,
    Sbi,
    Xthl,
    Ani,
    Pchl,
    Xchg,
    Xri,
    Di,
    Ori,
    Sphl,
    Ei,
    Cpi,
}

/// One row of the instruction table.
#[derive(Clone, Copy, Debug, PartialEq, Eq, Structural)]
pub struct Instruction {
    pub opcode: u8,
    /// Length in bytes, opcode included.
    pub bytes: u8,
    /// Cost in clock cycles; a conditional call or return that is taken costs
    /// `TAKEN_EXTRA` more.
    pub cycles: u8,
    pub op: Op,
}

/// What a conditional call or return costs on top of its base cost when its
/// condition holds.
pub const TAKEN_EXTRA: u8 = 6;

/// Bits 3 to 5 of an opcode: a destination register, a condition or a
/// restart number.
pub open spec fn dst(opcode: u8) -> u8 {
    (opcode / 8) % 8
}

/// Bits 0 to 2 of an opcode: a source register.
pub open spec fn src(opcode: u8) -> u8 {
    opcode % 8
}

/// Bits 4 and 5 of an opcode: a register pair.
pub open spec fn pair(opcode: u8) -> u8 {
    (opcode / 16) % 4
}

/// The operation of an opcode, by the fields of its encoding. The encodings
/// that the 8080 leaves undocumented are the operation they behave as: NOP,
/// JMP, CALL or RET.
pub open spec fn operation(opcode: u8) -> Op {
    let d = dst(opcode);
    let s = src(opcode);
    if opcode / 64 == 1 {
        if opcode == 0x76 {
            Op::Hlt
        } else {
            Op::Mov
        }
    } else if opcode / 64 == 2 {
        if d == 0 {
            Op::Add
        } else if d == 1 {
            Op::Adc
        } else if d == 2 {
            Op::Sub
        } else if d == 3 {
            Op::Sbb
        } else if d == 4 {
            Op::Ana
        } else if d == 5 {
            Op::Xra
        } else if d == 6 {
            Op::Ora
        } else {
            Op::Compare
        }
    } else if opcode / 64 == 0 {
        if s == 0 {
            Op::Nop
        } else if s == 1 {
            if d % 2 == 0 {
                Op::Lxi
            } else {
                Op::Dad
            }
        } else if s == 2 {
            if d == 4 {
                Op::Shld
            } else if d == 5 {
                Op::Lhld
            } else if d == 6 {
                Op::Sta
            } else if d == 7 {
                Op::Lda
            } else if d % 2 == 0 {
                Op::Stax
            } else {
                Op::Ldax
            }
        } else if s == 3 {
            if d % 2 == 0 {
                Op::Inx
            } else {
                Op::Dcx
            }
        } else if s == 4 {
            Op::Inr
        } else if s == 5 {
            Op::Dcr
        } else if s == 6 {
            Op::Mvi
        } else if d == 0 {
            Op::Rlc
        } else if d == 1 {
            Op::Rrc
        } else if d == 2 {
            Op::Ral
        } else if d == 3 {
            Op::Rar
        } else if d == 4 {
            Op::Daa
        } else if d == 5 {
            Op::Cma
        } else if d == 6 {
            Op::Stc
        } else {
            Op::Cmc
        }
    } else {
        if s == 0 {
            Op::Rcc
        } else if s == 1 {
            if d % 2 == 0 {
                Op::Pop
            } else if d == 5 {
                Op::Pchl
            } else if d == 7 {
                Op::Sphl
            } else {
                Op::Ret
            }
        } else if s == 2 {
            Op::Jcc
        } else if s == 3 {
            if d == 2 {
                Op::Out
            } else if d == 3 {
                Op::In
            } else if d == 4 {
                Op::Xthl
            } else if d == 5 {
                Op::Xchg
            } else if d == 6 {
                Op::Di
            } else if d == 7 {
                Op::Ei
            } else {
                Op::Jmp
            }
        } else if s == 4 {
            Op::Ccc
        } else if s == 5 {
            if d % 2 == 0 {
                Op::Push
            } else {
                Op::Call
            }
        } else if s == 6 {
            if d == 0 {
                Op::Adi
            } else if d == 1 {
                Op::Aci
            } else if d == 2 {
                Op::Sui
            } else if d == 3 {
                Op::Sbi
            } else if d == 4 {
                Op::Ani
            } else if d == 5 {
                Op::Xri
            } else if d == 6 {
                Op::Ori
            } else {
                Op::Cpi
            }
        } else {
            Op::Rst
        }
    }
}

/// The length of an opcode's instruction: 3 bytes with a 16-bit operand, 2
/// with an 8-bit one, else 1.
pub open spec fn length(opcode: u8) -> u8 {
    match operation(opcode) {
        Op::Lxi
        | Op::Shld
        | Op::Lhld
        | Op::Sta
        | Op::Lda
        | Op::Jmp
        | Op::Jcc
        | Op::Call
        | Op::Ccc => 3,
        Op::Mvi
        | Op::Adi
        | Op::Aci
        | Op::Sui
        | Op::Sbi
        | Op::Ani
        | Op::Xri
        | Op::Ori
        | Op::Cpi
        | Op::In
        | Op::Out => 2,
        _ => 1,
    }
}

/// The base cost of an opcode's instruction in clock cycles, as Intel
/// publishes it. An operand in memory (register number 6) costs the access.
pub open spec fn cost(opcode: u8) -> u8 {
    let memory_dst = dst(opcode) == 6;
    let memory_src = src(opcode) == 6;
    match operation(opcode) {
        Op::Nop
        | Op::Rlc
        | Op::Rrc
        | Op::Ral
        | Op::Rar
        | Op::Daa
        | Op::Cma
        | Op::Stc
        | Op::Cmc
        | Op::Xchg
        | Op::Di
        | Op::Ei => 4,
        Op::Inx | Op::Dcx | Op::Rcc | Op::Pchl | Op::Sphl => 5,
        Op::Mov => if memory_dst || memory_src {
            7
        } else {
            5
        },
        Op::Inr | Op::Dcr => if memory_dst {
            10
        } else {
            5
        },
        Op::Mvi => if memory_dst {
            10
        } else {
            7
        },
        Op::Add
        | Op::Adc
        | Op::Sub
        | Op::Sbb
        | Op::Ana
        | Op::Xra
        | Op::Ora
        | Op::Compare => if memory_src {
            7
        } else {
            4
        },
        Op::Hlt
        | Op::Stax
        | Op::Ldax
        | Op::Adi
        | Op::Aci
        | Op::Sui
        | Op::Sbi
        | Op::Ani
        | Op::Xri
        | Op::Ori
        | Op::Cpi => 7,
        Op::Lxi | Op::Dad | Op::Pop | Op::Ret | Op::Jmp | Op::Jcc | Op::In | Op::Out => 10,
        Op::Push | Op::Rst | Op::Ccc => 11,
        Op::Sta | Op::Lda => 13,
        Op::Shld | Op::Lhld => 16,
        Op::Call => 17,
        Op::Xthl => 18,
    }
}

/// The table row of an opcode.
pub open spec fn instruction(opcode: u8) -> Instruction {
    Instruction { opcode, bytes: length(opcode), cycles: cost(opcode), op: operation(opcode) }
}

/// Bits 3 to 5 of an opcode.
pub fn dst_field(opcode: u8) -> (d: u8)
    ensures
        d == dst(opcode),
{
    assert((opcode >> 3) & 7 == (opcode / 8) % 8) by (bit_vector);
    (opcode >> 3) & 7
}

/// Bits 0 to 2 of an opcode.
pub fn src_field(opcode: u8) -> (s: u8)
    ensures
        s == src(opcode),
{
    assert(opcode & 7 == opcode % 8) by (bit_vector);
    opcode & 7
}

/// Bits 4 and 5 of an opcode.
pub fn pair_field(opcode: u8) -> (rp: u8)
    ensures
        rp == pair(opcode),
{
    assert((opcode >> 4) & 3 == (opcode / 16) % 4) by (bit_vector);
    (opcode >> 4) & 3
}

/// The table row of an opcode. The rows are written out one by one; Verus
/// holds each against the encoding rules of `instruction`.
pub fn lookup(opcode: u8) -> (row: Instruction)
    ensures
        row == instruction(opcode),
        1 <= row.bytes <= 3,
        4 <= row.cycles <= 18,
{
    let (bytes, cycles, op): (u8, u8, Op) = match opcode {
        0x00 => (1, 4, Op::Nop), 0x01 => (3, 10, Op::Lxi), 0x02 => (1, 7, Op::Stax), 0x03 => (1, 5, Op::Inx),
        0x04 => (1, 5, Op::Inr), 0x05 => (1, 5, Op::Dcr), 0x06 => (2, 7, Op::Mvi), 0x07 => (1, 4, Op::Rlc),
        0x08 => (1, 4, Op::Nop), 0x09 => (1, 10, Op::Dad), 0x0a => (1, 7, Op::Ldax), 0x0b => (1, 5, Op::Dcx),
        0x0c => (1, 5, Op::Inr), 0x0d => (1, 5, Op::Dcr), 0x0e => (2, 7, Op::Mvi), 0x0f => (1, 4, Op::Rrc),
        0x10 => (1, 4, Op::Nop), 0x11 => (3, 10, Op::Lxi), 0x12 => (1, 7, Op::Stax), 0x13 => (1, 5, Op::Inx),
        0x14 => (1, 5, Op::Inr), 0x15 => (1, 5, Op::Dcr), 0x16 => (2, 7, Op::Mvi), 0x17 => (1, 4, Op::Ral),
        0x18 => (1, 4, Op::Nop), 0x19 => (1, 10, Op::Dad), 0x1a => (1, 7, Op::Ldax), 0x1b => (1, 5, Op::Dcx),
        0x1c => (1, 5, Op::Inr), 0x1d => (1, 5, Op::Dcr), 0x1e => (2, 7, Op::Mvi), 0x1f => (1, 4, Op::Rar),
        0x20 => (1, 4, Op::Nop), 0x21 => (3, 10, Op::Lxi), 0x22 => (3, 16, Op::Shld), 0x23 => (1, 5, Op::Inx),
        0x24 => (1, 5, Op::Inr), 0x25 => (1, 5, Op::Dcr), 0x26 => (2, 7, Op::Mvi), 0x27 => (1, 4, Op::Daa),
        0x28 => (1, 4, Op::Nop), 0x29 => (1, 10, Op::Dad), 0x2a => (3, 16, Op::Lhld), 0x2b => (1, 5, Op::Dcx),
        0x2c => (1, 5, Op::Inr), 0x2d => (1, 5, Op::Dcr), 0x2e => (2, 7, Op::Mvi), 0x2f => (1, 4, Op::Cma),
        0x30 => (1, 4, Op::Nop), 0x31 => (3, 10, Op::Lxi), 0x32 => (3, 13, Op::Sta), 0x33 => (1, 5, Op::Inx),
        0x34 => (1, 10, Op::Inr), 0x35 => (1, 10, Op::Dcr), 0x36 => (2, 10, Op::Mvi), 0x37 => (1, 4, Op::Stc),
        0x38 => (1, 4, Op::Nop), 0x39 => (1, 10, Op::Dad), 0x3a => (3, 13, Op::Lda), 0x3b => (1, 5, Op::Dcx),
        0x3c => (1, 5, Op::Inr), 0x3d => (1, 5, Op::Dcr), 0x3e => (2, 7, Op::Mvi), 0x3f => (1, 4, Op::Cmc),
        0x40 => (1, 5, Op::Mov), 0x41 => (1, 5, Op::Mov), 0x42 => (1, 5, Op::Mov), 0x43 => (1, 5, Op::Mov),
        0x44 => (1, 5, Op::Mov), 0x45 => (1, 5, Op::Mov), 0x46 => (1, 7, Op::Mov), 0x47 => (1, 5, Op::Mov),
        0x48 => (1, 5, Op::Mov), 0x49 => (1, 5, Op::Mov), 0x4a => (1, 5, Op::Mov), 0x4b => (1, 5, Op::Mov),
        0x4c => (1, 5, Op::Mov), 0x4d => (1, 5, Op::Mov), 0x4e => (1, 7, Op::Mov), 0x4f => (1, 5, Op::Mov),
        0x50 => (1, 5, Op::Mov), 0x51 => (1, 5, Op::Mov), 0x52 => (1, 5, Op::Mov), 0x53 => (1, 5, Op::Mov),
        0x54 => (1, 5, Op::Mov), 0x55 => (1, 5, Op::Mov), 0x56 => (1, 7, Op::Mov), 0x57 => (1, 5, Op::Mov),
        0x58 => (1, 5, Op::Mov), 0x59 => (1, 5, Op::Mov), 0x5a => (1, 5, Op::Mov), 0x5b => (1, 5, Op::Mov),
        0x5c => (1, 5, Op::Mov), 0x5d => (1, 5, Op::Mov), 0x5e => (1, 7, Op::Mov), 0x5f => (1, 5, Op::Mov),
        0x60 => (1, 5, Op::Mov), 0x61 => (1, 5, Op::Mov), 0x62 => (1, 5, Op::Mov), 0x63 => (1, 5, Op::Mov),
        0x64 => (1, 5, Op::Mov), 0x65 => (1, 5, Op::Mov), 0x66 => (1, 7, Op::Mov), 0x67 => (1, 5, Op::Mov),
        0x68 => (1, 5, Op::Mov), 0x69 => (1, 5, Op::Mov), 0x6a => (1, 5, Op::Mov), 0x6b => (1, 5, Op::Mov),
        0x6c => (1, 5, Op::Mov), 0x6d => (1, 5, Op::Mov), 0x6e => (1, 7, Op::Mov), 0x6f => (1, 5, Op::Mov),
        0x70 => (1, 7, Op::Mov), 0x71 => (1, 7, Op::Mov), 0x72 => (1, 7, Op::Mov), 0x73 => (1, 7, Op::Mov),
        0x74 => (1, 7, Op::Mov), 0x75 => (1, 7, Op::Mov), 0x76 => (1, 7, Op::Hlt), 0x77 => (1, 7, Op::Mov),
        0x78 => (1, 5, Op::Mov), 0x79 => (1, 5, Op::Mov), 0x7a => (1, 5, Op::Mov), 0x7b => (1, 5, Op::Mov),
        0x7c => (1, 5, Op::Mov), 0x7d => (1, 5, Op::Mov), 0x7e => (1, 7, Op::Mov), 0x7f => (1, 5, Op::Mov),
        0x80 => (1, 4, Op::Add), 0x81 => (1, 4, Op::Add), 0x82 => (1, 4, Op::Add), 0x83 => (1, 4, Op::Add),
        0x84 => (1, 4, Op::Add), 0x85 => (1, 4, Op::Add), 0x86 => (1, 7, Op::Add), 0x87 => (1, 4, Op::Add),
        0x88 => (1, 4, Op::Adc), 0x89 => (1, 4, Op::Adc), 0x8a => (1, 4, Op::Adc), 0x8b => (1, 4, Op::Adc),
        0x8c => (1, 4, Op::Adc), 0x8d => (1, 4, Op::Adc), 0x8e => (1, 7, Op::Adc), 0x8f => (1, 4, Op::Adc),
        0x90 => (1, 4, Op::Sub), 0x91 => (1, 4, Op::Sub), 0x92 => (1, 4, Op::Sub), 0x93 => (1, 4, Op::Sub),
        0x94 => (1, 4, Op::Sub), 0x95 => (1, 4, Op::Sub), 0x96 => (1, 7, Op::Sub), 0x97 => (1, 4, Op::Sub),
        0x98 => (1, 4, Op::Sbb), 0x99 => (1, 4, Op::Sbb), 0x9a => (1, 4, Op::Sbb), 0x9b => (1, 4, Op::Sbb),
        0x9c => (1, 4, Op::Sbb), 0x9d => (1, 4, Op::Sbb), 0x9e => (1, 7, Op::Sbb), 0x9f => (1, 4, Op::Sbb),
        0xa0 => (1, 4, Op::Ana), 0xa1 => (1, 4, Op::Ana), 0xa2 => (1, 4, Op::Ana), 0xa3 => (1, 4, Op::Ana),
        0xa4 => (1, 4, Op::Ana), 0xa5 => (1, 4, Op::Ana), 0xa6 => (1, 7, Op::Ana), 0xa7 => (1, 4, Op::Ana),
        0xa8 => (1, 4, Op::Xra), 0xa9 => (1, 4, Op::Xra), 0xaa => (1, 4, Op::Xra), 0xab => (1, 4, Op::Xra),
        0xac => (1, 4, Op::Xra), 0xad => (1, 4, Op::Xra), 0xae => (1, 7, Op::Xra), 0xaf => (1, 4, Op::Xra),
        0xb0 => (1, 4, Op::Ora), 0xb1 => (1, 4, Op::Ora), 0xb2 => (1, 4, Op::Ora), 0xb3 => (1, 4, Op::Ora),
        0xb4 => (1, 4, Op::Ora), 0xb5 => (1, 4, Op::Ora), 0xb6 => (1, 7, Op::Ora), 0xb7 => (1, 4, Op::Ora),
        0xb8 => (1, 4, Op::Compare), 0xb9 => (1, 4, Op::Compare), 0xba => (1, 4, Op::Compare), 0xbb => (1, 4, Op::Compare),
        0xbc => (1, 4, Op::Compare), 0xbd => (1, 4, Op::Compare), 0xbe => (1, 7, Op::Compare), 0xbf => (1, 4, Op::Compare),
        0xc0 => (1, 5, Op::Rcc), 0xc1 => (1, 10, Op::Pop), 0xc2 => (3, 10, Op::Jcc), 0xc3 => (3, 10, Op::Jmp),
        0xc4 => (3, 11, Op::Ccc), 0xc5 => (1, 11, Op::Push), 0xc6 => (2, 7, Op::Adi), 0xc7 => (1, 11, Op::Rst),
        0xc8 => (1, 5, Op::Rcc), 0xc9 => (1, 10, Op::Ret), 0xca => (3, 10, Op::Jcc), 0xcb => (3, 10, Op::Jmp),
        0xcc => (3, 11, Op::Ccc), 0xcd => (3, 17, Op::Call), 0xce => (2, 7, Op::Aci), 0xcf => (1, 11, Op::Rst),
        0xd0 => (1, 5, Op::Rcc), 0xd1 => (1, 10, Op::Pop), 0xd2 => (3, 10, Op::Jcc), 0xd3 => (2, 10, Op::Out),
        0xd4 => (3, 11, Op::Ccc), 0xd5 => (1, 11, Op::Push), 0xd6 => (2, 7, Op::Sui), 0xd7 => (1, 11, Op::Rst),
        0xd8 => (1, 5, Op::Rcc), 0xd9 => (1, 10, Op::Ret), 0xda => (3, 10, Op::Jcc), 0xdb => (2, 10, Op::In),
        0xdc => (3, 11, Op::Ccc), 0xdd => (3, 17, Op::Call), 0xde => (2, 7, Op::Sbi), 0xdf => (1, 11, Op::Rst),
        0xe0 => (1, 5, Op::Rcc), 0xe1 => (1, 10, Op::Pop), 0xe2 => (3, 10, Op::Jcc), 0xe3 => (1, 18, Op::Xthl),
        0xe4 => (3, 11, Op::Ccc), 0xe5 => (1, 11, Op::Push), 0xe6 => (2, 7, Op::Ani), 0xe7 => (1, 11, Op::Rst),
        0xe8 => (1, 5, Op::Rcc), 0xe9 => (1, 5, Op::Pchl), 0xea => (3, 10, Op::Jcc), 0xeb => (1, 4, Op::Xchg),
        0xec => (3, 11, Op::Ccc), 0xed => (3, 17, Op::Call), 0xee => (2, 7, Op::Xri), 0xef => (1, 11, Op::Rst),
        0xf0 => (1, 5, Op::Rcc), 0xf1 => (1, 10, Op::Pop), 0xf2 => (3, 10, Op::Jcc), 0xf3 => (1, 4, Op::Di),
        0xf4 => (3, 11, Op::Ccc), 0xf5 => (1, 11, Op::Push), 0xf6 => (2, 7, Op::Ori), 0xf7 => (1, 11, Op::Rst),
        0xf8 => (1, 5, Op::Rcc), 0xf9 => (1, 5, Op::Sphl), 0xfa => (3, 10, Op::Jcc), 0xfb => (1, 4, Op::Ei),
        0xfc => (3, 11, Op::Ccc), 0xfd => (3, 17, Op::Call), 0xfe => (2, 7, Op::Cpi), 0xff => (1, 11, Op::Rst),
    };
    Instruction { opcode, bytes, cycles, op }
}

/// The twelve encodings that the 8080 leaves undocumented have the row of
/// the instruction they behave as: NOP, JMP, RET and CALL.
pub proof fn lemma_undocumented_encodings(opcode: u8)
    ensures
        opcode == 0x08 || opcode == 0x10 || opcode == 0x18 || opcode == 0x20 || opcode == 0x28
            || opcode == 0x30 || opcode == 0x38 ==> instruction(opcode) == (Instruction {
            opcode,
            ..instruction(0x00)
        }) && operation(opcode) == Op::Nop,
        opcode == 0xcb ==> instruction(opcode) == (Instruction { opcode, ..instruction(0xc3) })
            && operation(opcode) == Op::Jmp,
        opcode == 0xd9 ==> instruction(opcode) == (Instruction { opcode, ..instruction(0xc9) })
            && operation(opcode) == Op::Ret,
        opcode == 0xdd || opcode == 0xed || opcode == 0xfd ==> instruction(opcode) == (Instruction {
            opcode,
            ..instruction(0xcd)
        }) && operation(opcode) == Op::Call,
{
}

} // verus!
