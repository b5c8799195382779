//! The processor: fetch, decode and execute, one instruction at a time.

use vstd::prelude::*;
use crate::alu::{
    adc, ana, complement, daa, dad, dcr, high_byte, inr, low_byte, ora, ral, rar, rlc, rrc, sbb,
    word, xra,
};
use crate::bus::Bus;
use crate::isa::{Instruction, Op, TAKEN_EXTRA, dst, dst_field, lookup, pair_field, src_field};
use crate::machine::{
    MEMORY, Machine, PortFault, Regs, SP_OR_PSW, blocked, condition, elapsed, jumped, operand,
    pair_value, popped, pushed, run, top, with_operand, with_pair, with_result,
};

pub use crate::flags::PSW;

verus! {

/// An 8080 on a bus.
pub struct Cpu<B: Bus> {
    pub regs: Regs,
    pub sp: u16,
    pub pc: u16,
    pub f: PSW,
    /// The interrupt-enable latch. EI sets it, DI and `reset` clear it; the
    /// processor itself never consults it.
    pub ime: bool,
    pub bus: B,
    /// Clock cycles spent since the processor was made, modulo the range of
    /// `usize`.
    pub cycles: usize,
}

impl<B: Bus> View for Cpu<B> {
    type V = Machine<B::V>;

    open spec fn view(&self) -> Machine<B::V> {
        Machine {
            regs: self.regs,
            sp: self.sp,
            pc: self.pc,
            f: self.f,
            ime: self.ime,
            cycles: self.cycles,
            bus: self.bus@,
        }
    }
}

impl<B: Bus> Cpu<B> {
    /// A processor on `bus`: every register 0, no condition set, interrupts
    /// disabled.
    pub fn new(bus: B) -> (cpu: Self)
        ensures
            cpu@ == (Machine {
                regs: Regs::zeroed(),
                sp: 0,
                pc: 0,
                f: PSW { bits: PSW::F1 },
                ime: false,
                cycles: 0,
                bus: bus@,
            }),
    {
        Cpu {
            regs: Regs::new(),
            sp: 0,
            pc: 0,
            f: PSW { bits: PSW::F1 },
            ime: false,
            bus,
            cycles: 0,
        }
    }

    /// Restarts the program: the program counter goes to 0 and interrupts are
    /// disabled. Registers, flags and memory stay.
    pub fn reset(&mut self)
        ensures
            final(self)@ == (Machine { pc: 0, ime: false, ..old(self)@ }),
    {
        self.pc = 0;
        self.ime = false;
    }

    pub fn read_rp(&self, rp: u8) -> (data: u16)
        ensures
            data == pair_value(self@, rp),
    {
        match rp {
            0 => word(self.regs.b, self.regs.c),
            1 => word(self.regs.d, self.regs.e),
            2 => word(self.regs.h, self.regs.l),
            _ => self.sp,
        }
    }

    pub fn write_rp(&mut self, rp: u8, data: u16)
        ensures
            final(self)@ == with_pair(old(self)@, rp, data),
    {
        let hi: u8 = high_byte(data);
        let lo: u8 = low_byte(data);
        match rp {
            0 => {
                self.regs.b = hi;
                self.regs.c = lo;
            },
            1 => {
                self.regs.d = hi;
                self.regs.e = lo;
            },
            2 => {
                self.regs.h = hi;
                self.regs.l = lo;
            },
            _ => {
                self.sp = data;
            },
        }
    }

    pub fn push_word(&mut self, data: u16)
        ensures
            final(self)@ == pushed::<B>(old(self)@, data),
    {
        self.bus.write_byte(self.sp.wrapping_sub(1), high_byte(data));
        self.bus.write_byte(self.sp.wrapping_sub(2), low_byte(data));
        self.sp = self.sp.wrapping_sub(2);
    }

    pub fn pop_word(&mut self) -> (data: u16)
        ensures
            final(self)@ == popped(old(self)@),
            data == top::<B>(old(self)@),
    {
        let lo: u8 = self.bus.read_byte(self.sp);
        let hi: u8 = self.bus.read_byte(self.sp.wrapping_add(1));
        self.sp = self.sp.wrapping_add(2);
        word(hi, lo)
    }

    /// Reads the operand with number `r`: a register, or for `MEMORY` the byte
    /// at HL.
    pub fn read_operand(&mut self, r: u8) -> (v: u8)
        ensures
            final(self)@ == old(self)@,
            v == operand::<B>(old(self)@, r),
    {
        if r == MEMORY {
            let hl: u16 = self.read_rp(2);
            self.bus.read_byte(hl)
        } else {
            self.regs.get(r)
        }
    }

    /// Writes the operand with number `r`: a register, or for `MEMORY` the
    /// byte at HL.
    pub fn write_operand(&mut self, r: u8, v: u8)
        ensures
            final(self)@ == with_operand::<B>(old(self)@, r, v),
    {
        if r == MEMORY {
            let hl: u16 = self.read_rp(2);
            self.bus.write_byte(hl, v);
        } else {
            self.regs.set(r, v);
        }
    }

    /// Whether condition number `c` holds of the flags.
    pub fn test(&self, c: u8) -> (holds: bool)
        ensures
            holds == condition(self.f, c),
    {
        match c {
            0 => !self.f.contains(PSW::Z),
            1 => self.f.contains(PSW::Z),
            2 => !self.f.contains(PSW::C),
            3 => self.f.contains(PSW::C),
            4 => !self.f.contains(PSW::P),
            5 => self.f.contains(PSW::P),
            6 => !self.f.contains(PSW::S),
            _ => self.f.contains(PSW::S),
        }
    }

    /// The port that the next instruction needs and the bus does not have, if
    /// there is one. `step` may be called where this is `None`.
    pub fn port_fault(&mut self) -> (fault: Option<PortFault>)
        ensures
            final(self)@ == old(self)@,
            fault == blocked::<B>(old(self)@),
    {
        let opcode: u8 = self.bus.read_byte(self.pc);
        let port: u8 = self.bus.read_byte(self.pc.wrapping_add(1));
        match lookup(opcode).op {
            Op::In => if self.bus.has_input_port(port) {
                None
            } else {
                Some(PortFault::Read(port))
            },
            Op::Out => if self.bus.has_output_port(port) {
                None
            } else {
                Some(PortFault::Write(port))
            },
            _ => None,
        }
    }

    /// Executes the instruction at the program counter and returns the clock
    /// cycles it took; 0 means that the processor has halted.
    pub fn step(&mut self) -> (cycles: usize)
        requires
            blocked::<B>(old(self)@) is None,
        ensures
            final(self)@ == run::<B>(old(self)@),
            cycles == elapsed::<B>(old(self)@),
    {
        let opcode: u8 = self.bus.read_byte(self.pc);
        let instr: Instruction = lookup(opcode);
        let d: u8 = dst_field(opcode);
        let rp: u8 = pair_field(opcode);
        let s: u8 = self.read_operand(src_field(opcode));
        let cond: bool = self.test(d);
        let op1: u8 = self.bus.read_byte(self.pc.wrapping_add(1));
        let op2: u8 = self.bus.read_byte(self.pc.wrapping_add(2));
        let opw: u16 = word(op2, op1);
        let carry: bool = self.f.contains(PSW::C);
        let a: u8 = self.regs.a;

        let mut spent: usize = instr.cycles as usize;
        let taken: bool = cond && match instr.op {
            Op::Ccc | Op::Rcc => true,
            _ => false,
        };
        if taken {
            spent = spent + TAKEN_EXTRA as usize;
        }
        self.cycles = self.cycles.wrapping_add(spent);
        self.pc = self.pc.wrapping_add(instr.bytes as u16);

        match instr.op {
            Op::Nop => {},
            Op::Hlt => {
                return 0;
            },
            Op::Mov => {
                self.write_operand(d, s);
            },
            Op::Mvi => {
                self.write_operand(d, op1);
            },
            Op::Lxi => {
                self.write_rp(rp, opw);
            },
            Op::Lda => {
                self.regs.a = self.bus.read_byte(opw);
            },
            Op::Sta => {
                self.bus.write_byte(opw, a);
            },
            Op::Lhld => {
                let tmp: u16 = self.bus.read_word(opw);
                self.write_rp(2, tmp);
            },
            Op::Shld => {
                let tmp: u16 = self.read_rp(2);
                self.bus.write_word(opw, tmp);
            },
            Op::Ldax => {
                let tmp: u16 = self.read_rp(rp);
                self.regs.a = self.bus.read_byte(tmp);
            },
            Op::Stax => {
                let tmp: u16 = self.read_rp(rp);
                self.bus.write_byte(tmp, a);
            },
            Op::Xchg => {
                let tmp: u8 = self.regs.h;
                self.regs.h = self.regs.d;
                self.regs.d = tmp;
                let tmp: u8 = self.regs.l;
                self.regs.l = self.regs.e;
                self.regs.e = tmp;
            },
            Op::Add => {
                self.accumulate(adc(a, s, false, self.f));
            },
            Op::Adi => {
                self.accumulate(adc(a, op1, false, self.f));
            },
            Op::Adc => {
                self.accumulate(adc(a, s, carry, self.f));
            },
            Op::Aci => {
                self.accumulate(adc(a, op1, carry, self.f));
            },
            Op::Sub => {
                self.accumulate(sbb(a, s, false, self.f));
            },
            Op::Sui => {
                self.accumulate(sbb(a, op1, false, self.f));
            },
            Op::Sbb => {
                self.accumulate(sbb(a, s, carry, self.f));
            },
            Op::Sbi => {
                self.accumulate(sbb(a, op1, carry, self.f));
            },
            Op::Compare => {
                self.f = sbb(a, s, false, self.f).1;
            },
            Op::Cpi => {
                self.f = sbb(a, op1, false, self.f).1;
            },
            Op::Ana => {
                self.accumulate(ana(a, s, self.f));
            },
            Op::Ani => {
                self.accumulate(ana(a, op1, self.f));
            },
            Op::Xra => {
                self.accumulate(xra(a, s, self.f));
            },
            Op::Xri => {
                self.accumulate(xra(a, op1, self.f));
            },
            Op::Ora => {
                self.accumulate(ora(a, s, self.f));
            },
            Op::Ori => {
                self.accumulate(ora(a, op1, self.f));
            },
            Op::Inr => {
                let before: u8 = self.read_operand(d);
                let (value, flags): (u8, PSW) = inr(before, self.f);
                self.f = flags;
                self.write_operand(d, value);
            },
            Op::Dcr => {
                let before: u8 = self.read_operand(d);
                let (value, flags): (u8, PSW) = dcr(before, self.f);
                self.f = flags;
                self.write_operand(d, value);
            },
            Op::Inx => {
                let tmp: u16 = self.read_rp(rp);
                self.write_rp(rp, tmp.wrapping_add(1));
            },
            Op::Dcx => {
                let tmp: u16 = self.read_rp(rp);
                self.write_rp(rp, tmp.wrapping_sub(1));
            },
            Op::Dad => {
                let hl: u16 = self.read_rp(2);
                let other: u16 = self.read_rp(rp);
                let (sum, flags): (u16, PSW) = dad(hl, other, self.f);
                self.f = flags;
                self.write_rp(2, sum);
            },
            Op::Daa => {
                self.accumulate(daa(a, self.f));
            },
            Op::Rlc => {
                self.accumulate(rlc(a, self.f));
            },
            Op::Rrc => {
                self.accumulate(rrc(a, self.f));
            },
            Op::Ral => {
                self.accumulate(ral(a, self.f));
            },
            Op::Rar => {
                self.accumulate(rar(a, self.f));
            },
            Op::Cma => {
                self.regs.a = complement(a);
            },
            Op::Cmc => {
                self.f.toggle(PSW::C);
            },
            Op::Stc => {
                self.f.insert(PSW::C);
            },
            Op::Jmp => {
                self.pc = opw;
            },
            Op::Jcc => {
                if cond {
                    self.pc = opw;
                }
            },
            Op::Call => {
                self.push_word(self.pc);
                self.pc = opw;
            },
            Op::Ccc => {
                if cond {
                    self.push_word(self.pc);
                    self.pc = opw;
                }
            },
            Op::Ret => {
                self.pc = self.pop_word();
            },
            Op::Rcc => {
                if cond {
                    self.pc = self.pop_word();
                }
            },
            Op::Rst => {
                self.push_word(self.pc);
                self.pc = (d * 8) as u16;
            },
            Op::Pchl => {
                self.pc = self.read_rp(2);
            },
            Op::Push => {
                let tmp: u16 = if rp == SP_OR_PSW {
                    word(a, self.f.normalized().as_u8())
                } else {
                    self.read_rp(rp)
                };
                self.push_word(tmp);
            },
            Op::Pop => {
                let tmp: u16 = self.pop_word();
                if rp != SP_OR_PSW {
                    self.write_rp(rp, tmp);
                } else {
                    self.regs.a = high_byte(tmp);
                    self.f = PSW::from_bits(low_byte(tmp)).unwrap().normalized();
                }
            },
            Op::Xthl => {
                let tmp: u16 = self.pop_word();
                let hl: u16 = self.read_rp(2);
                self.push_word(hl);
                self.write_rp(2, tmp);
            },
            Op::Sphl => {
                self.sp = self.read_rp(2);
            },
            Op::In => {
                self.regs.a = self.bus.read_io_byte(op1);
            },
            Op::Out => {
                self.bus.write_io_byte(op1, a);
            },
            Op::Ei => {
                self.ime = true;
            },
            Op::Di => {
                self.ime = false;
            },
        }
        spent
    }

    /// Executes the instruction at the program counter if the bus has the
    /// port it needs, and says which port is missing if it has not.
    pub fn try_step(&mut self) -> (outcome: Result<usize, PortFault>)
        ensures
            match blocked::<B>(old(self)@) {
                Some(fault) => outcome == Err::<usize, PortFault>(fault) && final(self)@ == old(
                    self,
                )@,
                None => outcome == Ok::<usize, PortFault>(elapsed::<B>(old(self)@)) && final(self)@
                    == run::<B>(old(self)@),
            },
    {
        match self.port_fault() {
            Some(fault) => Err(fault),
            None => Ok(self.step()),
        }
    }

    /// Delivers an interrupt: executes the restart instruction `vector` that
    /// the interrupting device has put on the bus, which pushes the program
    /// counter and jumps to 8 times the restart number. Whether interrupts
    /// are enabled is for the caller to ask.
    pub fn interrupt(&mut self, vector: u8)
        ensures
            final(self)@ == jumped(
                pushed::<B>(old(self)@, old(self)@.pc),
                (dst(vector) * 8) as u16,
            ),
    {
        let n: u8 = dst_field(vector);
        self.push_word(self.pc);
        self.pc = (n * 8) as u16;
    }

    /// Puts a result in the accumulator and its flags in the flag register.
    fn accumulate(&mut self, result: (u8, PSW))
        ensures
            final(self)@ == with_result(old(self)@, result),
    {
        self.regs.a = result.0;
        self.f = result.1;
    }
}

} // verus!
