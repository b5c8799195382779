//! What holds of the processor over more than one instruction.

use vstd::prelude::*;
use crate::alu::{lemma_add_then_sub, spec_adc};
use crate::arcade::{InvBus, InvState, Region, decode};
use crate::bus::Bus;
use crate::diag::{CpmBus, CpmState};
use crate::flags::{PSW, lemma_canonical};
use crate::isa::{Op, length, operation, pair, src};
use crate::machine::{
    Machine, SP_OR_PSW, charge, elapsed, fetched, opcode_at, operand, operand_word, pair_value,
    popped, psw_word, pushed, run, top, with_pair, with_result,
};

verus! {

/// Whether the two bytes below the stack pointer keep `data` when it is
/// pushed: each reads back as written. They do not where one of them is in
/// memory that ignores writes, or where both are the same cell.
pub open spec fn stack_keeps<B: Bus>(m: Machine<B::V>, data: u16) -> bool {
    let after = pushed::<B>(m, data).bus;
    &&& B::peek(after, m.sp.wrapping_sub(2)) == data % 256
    &&& B::peek(after, m.sp.wrapping_sub(1)) == data / 256
}

/// A word pushed where the stack keeps it is the word on top of the stack,
/// and popping it puts the stack pointer back.
pub proof fn lemma_push_then_pop<B: Bus>(m: Machine<B::V>, data: u16)
    requires
        stack_keeps::<B>(m, data),
    ensures
        top::<B>(pushed::<B>(m, data)) == data,
        popped(pushed::<B>(m, data)).sp == m.sp,
{
}

/// How PUSH and POP of the pair with number `rp` are encoded.
proof fn lemma_stack_encodings(rp: u8)
    requires
        rp <= SP_OR_PSW,
    ensures
        operation((0xc5 + 16 * rp) as u8) == Op::Push,
        operation((0xc1 + 16 * rp) as u8) == Op::Pop,
        pair((0xc5 + 16 * rp) as u8) == rp,
        pair((0xc1 + 16 * rp) as u8) == rp,
        length((0xc5 + 16 * rp) as u8) == 1,
        length((0xc1 + 16 * rp) as u8) == 1,
{
}

/// How ADD and SUB of the operand with number `r` are encoded.
proof fn lemma_sum_encodings(r: u8)
    requires
        r <= 7,
    ensures
        operation((0x80 + r) as u8) == Op::Add,
        operation((0x90 + r) as u8) == Op::Sub,
        src((0x80 + r) as u8) == r,
        src((0x90 + r) as u8) == r,
        length((0x80 + r) as u8) == 1,
        length((0x90 + r) as u8) == 1,
{
}

/// Writing a register pair with the word it holds changes nothing.
pub proof fn lemma_pair_written_back<M>(m: Machine<M>, rp: u8)
    ensures
        with_pair(m, rp, pair_value(m, rp)) == m,
{
    assert((m.regs.b * 256 + m.regs.c) / 256 == m.regs.b as int);
    assert((m.regs.d * 256 + m.regs.e) / 256 == m.regs.d as int);
    assert((m.regs.h * 256 + m.regs.l) / 256 == m.regs.h as int);
}

/// Reading a register pair gives the word that was written to it.
pub proof fn lemma_pair_read_back<M>(m: Machine<M>, rp: u8, data: u16)
    ensures
        pair_value(with_pair(m, rp, data), rp) == data,
{
}

/// PUSH of a register pair and then POP of the same pair leave the registers
/// and the stack pointer as they were, where the stack keeps what is pushed
/// and the POP is still there after the PUSH has written.
pub proof fn lemma_push_pop_pair<B: Bus>(m: Machine<B::V>, rp: u8)
    requires
        rp < SP_OR_PSW,
        opcode_at::<B>(m) == 0xc5 + 16 * rp,
        opcode_at::<B>(run::<B>(m)) == 0xc1 + 16 * rp,
        stack_keeps::<B>(fetched::<B>(m), pair_value(m, rp)),
    ensures
        run::<B>(run::<B>(m)).regs == m.regs,
        run::<B>(run::<B>(m)).sp == m.sp,
        run::<B>(run::<B>(m)).f == m.f,
{
    lemma_stack_encodings(rp);
    let m1 = run::<B>(m);
    assert(m1 == pushed::<B>(fetched::<B>(m), pair_value(m, rp)));
    lemma_push_then_pop::<B>(fetched::<B>(m), pair_value(m, rp));
    let t1 = fetched::<B>(m1);
    assert(top::<B>(t1) == pair_value(m, rp));
    assert(pair_value(popped(t1), rp) == pair_value(m, rp));
    lemma_pair_written_back(popped(t1), rp);
    assert(run::<B>(m1) == with_pair(popped(t1), rp, top::<B>(t1)));
}

/// PUSH PSW and then POP PSW leave the accumulator, the five conditions and
/// the stack pointer as they were, and the flag register in the form the
/// stack gives it: bit 1 set, bits 3 and 5 clear, whatever they were.
pub proof fn lemma_push_pop_psw<B: Bus>(m: Machine<B::V>)
    requires
        opcode_at::<B>(m) == 0xf5,
        opcode_at::<B>(run::<B>(m)) == 0xf1,
        stack_keeps::<B>(fetched::<B>(m), psw_word(m)),
    ensures
        run::<B>(run::<B>(m)).regs == m.regs,
        run::<B>(run::<B>(m)).sp == m.sp,
        run::<B>(run::<B>(m)).f == m.f.canonical(),
        run::<B>(run::<B>(m)).f.has(PSW::S) == m.f.has(PSW::S),
        run::<B>(run::<B>(m)).f.has(PSW::Z) == m.f.has(PSW::Z),
        run::<B>(run::<B>(m)).f.has(PSW::A) == m.f.has(PSW::A),
        run::<B>(run::<B>(m)).f.has(PSW::P) == m.f.has(PSW::P),
        run::<B>(run::<B>(m)).f.has(PSW::C) == m.f.has(PSW::C),
        run::<B>(run::<B>(m)).f.bits & !PSW::CONDITIONS == PSW::F1,
{
    lemma_stack_encodings(SP_OR_PSW);
    let m1 = run::<B>(m);
    assert(m1 == pushed::<B>(fetched::<B>(m), psw_word(m)));
    lemma_push_then_pop::<B>(fetched::<B>(m), psw_word(m));
    assert(top::<B>(fetched::<B>(m1)) == psw_word(m));
    lemma_canonical(m.f);
}

/// ADD of a register other than the accumulator, or of the byte at HL, and
/// then SUB of the same give the accumulator back. After the two, Carry is
/// clear exactly where the addition did not pass 255, and Auxiliary Carry is
/// clear exactly where the low nibbles' sum passed 15.
pub proof fn lemma_add_sub_restores<B: Bus>(m: Machine<B::V>, r: u8)
    requires
        r < 7,
        opcode_at::<B>(m) == 0x80 + r,
        opcode_at::<B>(run::<B>(m)) == 0x90 + r,
    ensures
        run::<B>(run::<B>(m)).regs == m.regs,
        !run::<B>(run::<B>(m)).f.has(PSW::C) <==> m.regs.a + operand::<B>(m, r) <= 255,
        !run::<B>(run::<B>(m)).f.has(PSW::A) <==> m.regs.a % 16 + operand::<B>(m, r) % 16 > 15,
{
    lemma_sum_encodings(r);
    let m1 = run::<B>(m);
    let b = operand::<B>(m, r);
    assert(m1 == with_result(fetched::<B>(m), spec_adc(m.regs.a, b, false, m.f)));
    assert(operand::<B>(m1, r) == b);
    lemma_add_then_sub(m.regs.a, b, m.f);
}

/// No instruction takes more than 18 clock cycles.
pub proof fn lemma_cost_bounded<B: Bus>(m: Machine<B::V>)
    ensures
        elapsed::<B>(m) <= charge::<B>(m) <= 18,
{
}

/// After JMP the program counter is the operand, memory is as it was, and
/// the next instruction is the one at the operand, not the one after the
/// JMP.
pub proof fn lemma_jump_lands<B: Bus>(m: Machine<B::V>)
    requires
        operation(opcode_at::<B>(m)) == Op::Jmp,
    ensures
        run::<B>(m).pc == operand_word::<B>(m),
        run::<B>(m).bus == m.bus,
        opcode_at::<B>(run::<B>(m)) == B::peek(m.bus, operand_word::<B>(m)),
{
}

/// On the diagnostic machine the stack keeps every word, wherever it is.
pub proof fn lemma_flat_stack_keeps(m: Machine<CpmState>, data: u16)
    requires
        m.bus.wf(),
    ensures
        stack_keeps::<CpmBus>(m, data),
{
}

/// On the arcade board the stack keeps a word where neither of its two bytes
/// lies in the program memory.
pub proof fn lemma_arcade_stack_keeps(m: Machine<InvState>, data: u16)
    requires
        m.bus.wf(),
        decode(m.sp.wrapping_sub(1)).0 != Region::Rom,
        decode(m.sp.wrapping_sub(2)).0 != Region::Rom,
    ensures
        stack_keeps::<InvBus>(m, data),
{
}

} // verus!
