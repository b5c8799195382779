//! The machine as a value: the registers, the flags and the bus, and what
//! one instruction makes of them.

use vstd::prelude::*;
use crate::alu::{
    spec_adc, spec_ana, spec_daa, spec_dad, spec_dcr, spec_inr, spec_ora, spec_ral, spec_rar,
    spec_rlc, spec_rrc, spec_sbb, spec_xra,
};
use crate::bus::{Bus, peek_word, poke_word};
use crate::flags::PSW;
use crate::isa::{Op, TAKEN_EXTRA, cost, dst, length, operation, pair, src};

verus! {

/// The register number that stands for the byte in memory at HL.
pub const MEMORY: u8 = 6;

/// The pair number that stands for the stack pointer in most instructions,
/// and for the accumulator and the flags in PUSH and POP.
pub const SP_OR_PSW: u8 = 3;

/// The seven registers of one byte.
#[derive(Clone, Copy, Debug, PartialEq, Eq, Structural)]
pub struct Regs {
    pub a: u8,
    pub b: u8,
    pub c: u8,
    pub d: u8,
    pub e: u8,
    pub h: u8,
    pub l: u8,
}

impl Regs {
    /// The register with number `r`: 0 to 5 are B, C, D, E, H, L; 7 is A.
    /// (6 is no register; it reads as A here.)
    pub open spec fn value(self, r: u8) -> u8 {
        if r == 0 {
            self.b
        } else if r == 1 {
            self.c
        } else if r == 2 {
            self.d
        } else if r == 3 {
            self.e
        } else if r == 4 {
            self.h
        } else if r == 5 {
            self.l
        } else {
            self.a
        }
    }

    /// The registers with `v` in the register with number `r`.
    pub open spec fn updated(self, r: u8, v: u8) -> Regs {
        if r == 0 {
            Regs { b: v, ..self }
        } else if r == 1 {
            Regs { c: v, ..self }
        } else if r == 2 {
            Regs { d: v, ..self }
        } else if r == 3 {
            Regs { e: v, ..self }
        } else if r == 4 {
            Regs { h: v, ..self }
        } else if r == 5 {
            Regs { l: v, ..self }
        } else {
            Regs { a: v, ..self }
        }
    }

    pub open spec fn bc(self) -> u16 {
        (self.b * 256 + self.c) as u16
    }

    pub open spec fn de(self) -> u16 {
        (self.d * 256 + self.e) as u16
    }

    pub open spec fn hl(self) -> u16 {
        (self.h * 256 + self.l) as u16
    }

    /// All registers 0.
    pub open spec fn zeroed() -> Regs {
        Regs { a: 0, b: 0, c: 0, d: 0, e: 0, h: 0, l: 0 }
    }

    pub fn new() -> (regs: Self)
        ensures
            regs == Regs::zeroed(),
    {
        Regs { a: 0, b: 0, c: 0, d: 0, e: 0, h: 0, l: 0 }
    }

    pub fn get(&self, r: u8) -> (v: u8)
        ensures
            v == self.value(r),
    {
        match r {
            0 => self.b,
            1 => self.c,
            2 => self.d,
            3 => self.e,
            4 => self.h,
            5 => self.l,
            _ => self.a,
        }
    }

    pub fn set(&mut self, r: u8, v: u8)
        ensures
            *final(self) == old(self).updated(r, v),
    {
        match r {
            0 => {
                self.b = v;
            },
            1 => {
                self.c = v;
            },
            2 => {
                self.d = v;
            },
            3 => {
                self.e = v;
            },
            4 => {
                self.h = v;
            },
            5 => {
                self.l = v;
            },
            _ => {
                self.a = v;
            },
        }
    }
}

/// The state of a processor on a bus whose state is an `M`.
pub struct Machine<M> {
    pub regs: Regs,
    pub sp: u16,
    pub pc: u16,
    pub f: PSW,
    /// The interrupt-enable latch.
    pub ime: bool,
    /// Clock cycles spent since the processor was made, modulo the range of
    /// `usize`.
    pub cycles: usize,
    pub bus: M,
}

/// An instruction that the bus cannot serve: IN from a port that no device
/// answers, or OUT to a port that no device takes.
#[derive(Clone, Copy, Debug, PartialEq, Eq, Structural)]
pub enum PortFault {
    Read(u8),
    Write(u8),
}

/// Whether condition number `c` holds of the flags: not zero, zero, no
/// carry, carry, odd parity, even parity, plus, minus.
pub open spec fn condition(f: PSW, c: u8) -> bool {
    if c == 0 {
        !f.has(PSW::Z)
    } else if c == 1 {
        f.has(PSW::Z)
    } else if c == 2 {
        !f.has(PSW::C)
    } else if c == 3 {
        f.has(PSW::C)
    } else if c == 4 {
        !f.has(PSW::P)
    } else if c == 5 {
        f.has(PSW::P)
    } else if c == 6 {
        !f.has(PSW::S)
    } else {
        f.has(PSW::S)
    }
}

/// The register pair with number `rp`: BC, DE, HL, and the stack pointer.
pub open spec fn pair_value<M>(m: Machine<M>, rp: u8) -> u16 {
    if rp == 0 {
        m.regs.bc()
    } else if rp == 1 {
        m.regs.de()
    } else if rp == 2 {
        m.regs.hl()
    } else {
        m.sp
    }
}

/// The machine with `data` in the register pair with number `rp`.
pub open spec fn with_pair<M>(m: Machine<M>, rp: u8, data: u16) -> Machine<M> {
    let hi = (data / 256) as u8;
    let lo = (data % 256) as u8;
    if rp == 0 {
        Machine { regs: Regs { b: hi, c: lo, ..m.regs }, ..m }
    } else if rp == 1 {
        Machine { regs: Regs { d: hi, e: lo, ..m.regs }, ..m }
    } else if rp == 2 {
        Machine { regs: Regs { h: hi, l: lo, ..m.regs }, ..m }
    } else {
        Machine { sp: data, ..m }
    }
}

/// The operand with number `r`: a register, or for `MEMORY` the byte at HL.
pub open spec fn operand<B: Bus>(m: Machine<B::V>, r: u8) -> u8 {
    if r == MEMORY {
        B::peek(m.bus, m.regs.hl())
    } else {
        m.regs.value(r)
    }
}

/// The machine with `v` in the operand with number `r`.
pub open spec fn with_operand<B: Bus>(m: Machine<B::V>, r: u8, v: u8) -> Machine<B::V> {
    if r == MEMORY {
        Machine { bus: B::poke(m.bus, m.regs.hl(), v), ..m }
    } else {
        Machine { regs: m.regs.updated(r, v), ..m }
    }
}

/// The machine with `data` pushed: the high byte below the stack pointer, the
/// low byte below that, and the stack pointer down by 2.
pub open spec fn pushed<B: Bus>(m: Machine<B::V>, data: u16) -> Machine<B::V> {
    Machine {
        bus: B::poke(
            B::poke(m.bus, m.sp.wrapping_sub(1), (data / 256) as u8),
            m.sp.wrapping_sub(2),
            (data % 256) as u8,
        ),
        sp: m.sp.wrapping_sub(2),
        ..m
    }
}

/// The word at the stack pointer.
pub open spec fn top<B: Bus>(m: Machine<B::V>) -> u16 {
    peek_word::<B>(m.bus, m.sp)
}

/// The machine with the stack pointer up by 2.
pub open spec fn popped<M>(m: Machine<M>) -> Machine<M> {
    Machine { sp: m.sp.wrapping_add(2), ..m }
}

/// The machine with a result in the accumulator and the flags that came with
/// it.
pub open spec fn with_result<M>(m: Machine<M>, result: (u8, PSW)) -> Machine<M> {
    Machine { regs: Regs { a: result.0, ..m.regs }, f: result.1, ..m }
}

/// The machine with the program counter at `target`.
pub open spec fn jumped<M>(m: Machine<M>, target: u16) -> Machine<M> {
    Machine { pc: target, ..m }
}

/// The accumulator above the flags as the stack holds them.
pub open spec fn psw_word<M>(m: Machine<M>) -> u16 {
    (m.regs.a * 256 + m.f.canonical().bits) as u16
}

/// The opcode at the program counter.
pub open spec fn opcode_at<B: Bus>(m: Machine<B::V>) -> u8 {
    B::peek(m.bus, m.pc)
}

/// The byte after the opcode.
pub open spec fn operand_byte<B: Bus>(m: Machine<B::V>) -> u8 {
    B::peek(m.bus, m.pc.wrapping_add(1))
}

/// The little-endian word after the opcode.
pub open spec fn operand_word<B: Bus>(m: Machine<B::V>) -> u16 {
    peek_word::<B>(m.bus, m.pc.wrapping_add(1))
}

/// Whether the instruction at the program counter is a conditional call or
/// return whose condition holds.
pub open spec fn taken<B: Bus>(m: Machine<B::V>) -> bool {
    let opcode = opcode_at::<B>(m);
    (operation(opcode) == Op::Ccc || operation(opcode) == Op::Rcc) && condition(m.f, dst(opcode))
}

/// What the instruction at the program counter costs: its base cost, and
/// `TAKEN_EXTRA` more for a conditional call or return that is taken.
pub open spec fn charge<B: Bus>(m: Machine<B::V>) -> usize {
    let base = cost(opcode_at::<B>(m)) as usize;
    if taken::<B>(m) {
        (base + TAKEN_EXTRA) as usize
    } else {
        base
    }
}

/// What `step` returns: the cost of the instruction, or 0 for HLT.
pub open spec fn elapsed<B: Bus>(m: Machine<B::V>) -> usize {
    if operation(opcode_at::<B>(m)) == Op::Hlt {
        0
    } else {
        charge::<B>(m)
    }
}

/// The port that the instruction at the program counter needs and the bus
/// does not have, if there is one.
pub open spec fn blocked<B: Bus>(m: Machine<B::V>) -> Option<PortFault> {
    let port = operand_byte::<B>(m);
    if operation(opcode_at::<B>(m)) == Op::In && !B::input_port(port) {
        Some(PortFault::Read(port))
    } else if operation(opcode_at::<B>(m)) == Op::Out && !B::output_port(port) {
        Some(PortFault::Write(port))
    } else {
        None
    }
}

/// The machine once the instruction at the program counter is fetched: the
/// program counter past the instruction, and its cost counted.
pub open spec fn fetched<B: Bus>(m: Machine<B::V>) -> Machine<B::V> {
    Machine {
        pc: m.pc.wrapping_add(length(opcode_at::<B>(m)) as u16),
        cycles: m.cycles.wrapping_add(charge::<B>(m)),
        ..m
    }
}

/// The machine after the instruction at the program counter.
///
/// Operands are read before anything is written. A jump, call or return
/// replaces the program counter that the fetch has advanced; a call pushes
/// that advanced counter.
pub open spec fn run<B: Bus>(m: Machine<B::V>) -> Machine<B::V> {
    let opcode = opcode_at::<B>(m);
    let d = dst(opcode);
    let rp = pair(opcode);
    let source = operand::<B>(m, src(opcode));
    let byte = operand_byte::<B>(m);
    let target = operand_word::<B>(m);
    let carry = m.f.has(PSW::C);
    let a = m.regs.a;
    let t = fetched::<B>(m);
    match operation(opcode) {
        Op::Nop | Op::Hlt => t,
        Op::Mov => with_operand::<B>(t, d, source),
        Op::Mvi => with_operand::<B>(t, d, byte),
        Op::Lxi => with_pair(t, rp, target),
        Op::Lda => Machine { regs: Regs { a: B::peek(m.bus, target), ..t.regs }, ..t },
        Op::Sta => Machine { bus: B::poke(m.bus, target, a), ..t },
        Op::Lhld => with_pair(t, 2, peek_word::<B>(m.bus, target)),
        Op::Shld => Machine { bus: poke_word::<B>(m.bus, target, m.regs.hl()), ..t },
        Op::Ldax => Machine { regs: Regs { a: B::peek(m.bus, pair_value(m, rp)), ..t.regs }, ..t },
        Op::Stax => Machine { bus: B::poke(m.bus, pair_value(m, rp), a), ..t },
        Op::Xchg => Machine {
            regs: Regs { d: m.regs.h, e: m.regs.l, h: m.regs.d, l: m.regs.e, ..t.regs },
            ..t
        },
        Op::Add => with_result(t, spec_adc(a, source, false, m.f)),
        Op::Adi => with_result(t, spec_adc(a, byte, false, m.f)),
        Op::Adc => with_result(t, spec_adc(a, source, carry, m.f)),
        Op::Aci => with_result(t, spec_adc(a, byte, carry, m.f)),
        Op::Sub => with_result(t, spec_sbb(a, source, false, m.f)),
        Op::Sui => with_result(t, spec_sbb(a, byte, false, m.f)),
        Op::Sbb => with_result(t, spec_sbb(a, source, carry, m.f)),
        Op::Sbi => with_result(t, spec_sbb(a, byte, carry, m.f)),
        Op::Compare => Machine { f: spec_sbb(a, source, false, m.f).1, ..t },
        Op::Cpi => Machine { f: spec_sbb(a, byte, false, m.f).1, ..t },
        Op::Ana => with_result(t, spec_ana(a, source, m.f)),
        Op::Ani => with_result(t, spec_ana(a, byte, m.f)),
        Op::Xra => with_result(t, spec_xra(a, source, m.f)),
        Op::Xri => with_result(t, spec_xra(a, byte, m.f)),
        Op::Ora => with_result(t, spec_ora(a, source, m.f)),
        Op::Ori => with_result(t, spec_ora(a, byte, m.f)),
        Op::Inr => {
            let (value, flags) = spec_inr(operand::<B>(m, d), m.f);
            with_operand::<B>(Machine { f: flags, ..t }, d, value)
        },
        Op::Dcr => {
            let (value, flags) = spec_dcr(operand::<B>(m, d), m.f);
            with_operand::<B>(Machine { f: flags, ..t }, d, value)
        },
        Op::Inx => with_pair(t, rp, pair_value(m, rp).wrapping_add(1)),
        Op::Dcx => with_pair(t, rp, pair_value(m, rp).wrapping_sub(1)),
        Op::Dad => {
            let (sum, flags) = spec_dad(m.regs.hl(), pair_value(m, rp), m.f);
            with_pair(Machine { f: flags, ..t }, 2, sum)
        },
        Op::Daa => with_result(t, spec_daa(a, m.f)),
        Op::Rlc => with_result(t, spec_rlc(a, m.f)),
        Op::Rrc => with_result(t, spec_rrc(a, m.f)),
        Op::Ral => with_result(t, spec_ral(a, m.f)),
        Op::Rar => with_result(t, spec_rar(a, m.f)),
        Op::Cma => Machine { regs: Regs { a: (255 - a) as u8, ..t.regs }, ..t },
        Op::Cmc => Machine { f: m.f.flipped(PSW::C), ..t },
        Op::Stc => Machine { f: m.f.with(PSW::C, true), ..t },
        Op::Jmp => jumped(t, target),
        Op::Jcc => if condition(m.f, d) {
            jumped(t, target)
        } else {
            t
        },
        Op::Call => jumped(pushed::<B>(t, t.pc), target),
        Op::Ccc => if condition(m.f, d) {
            jumped(pushed::<B>(t, t.pc), target)
        } else {
            t
        },
        Op::Ret => jumped(popped(t), top::<B>(t)),
        Op::Rcc => if condition(m.f, d) {
            jumped(popped(t), top::<B>(t))
        } else {
            t
        },
        Op::Rst => jumped(pushed::<B>(t, t.pc), (d * 8) as u16),
        Op::Pchl => jumped(t, m.regs.hl()),
        Op::Push => pushed::<B>(
            t,
            if rp == SP_OR_PSW {
                psw_word(m)
            } else {
                pair_value(m, rp)
            },
        ),
        Op::Pop => if rp == SP_OR_PSW {
            Machine {
                regs: Regs { a: (top::<B>(t) / 256) as u8, ..t.regs },
                f: (PSW { bits: (top::<B>(t) % 256) as u8 }).canonical(),
                ..popped(t)
            }
        } else {
            with_pair(popped(t), rp, top::<B>(t))
        },
        Op::Xthl => with_pair(pushed::<B>(popped(t), m.regs.hl()), 2, top::<B>(t)),
        Op::Sphl => Machine { sp: m.regs.hl(), ..t },
        Op::In => Machine { regs: Regs { a: B::port_in(m.bus, byte), ..t.regs }, ..t },
        Op::Out => Machine { bus: B::port_out(m.bus, byte, a), ..t },
        Op::Ei => Machine { ime: true, ..t },
        Op::Di => Machine { ime: false, ..t },
    }
}

} // verus!
