use invaders::bus::{Bus, CpmBus, InvBus};
use invaders::cpu::{Cpu, PSW};
use invaders::machine::{PortFault, Regs};

fn boot(program: &[u8]) -> Cpu<CpmBus> {
    let mut bus = CpmBus::new();
    bus.load_bin(0, program);
    Cpu::new(bus)
}

fn arcade(program: &[u8]) -> Cpu<InvBus> {
    let mut bus = InvBus::new();
    bus.load_bin(0, program);
    Cpu::new(bus)
}

fn run(cpu: &mut Cpu<CpmBus>, steps: usize) -> usize {
    let mut total = 0;
    for _ in 0..steps {
        total += cpu.step();
    }
    total
}

#[test]
fn a_new_processor_has_only_the_fixed_flag_bit() {
    let cpu = boot(&[]);
    assert_eq!(cpu.regs, Regs { a: 0, b: 0, c: 0, d: 0, e: 0, h: 0, l: 0 });
    assert_eq!(cpu.sp, 0);
    assert_eq!(cpu.pc, 0);
    assert_eq!(cpu.f.as_u8(), 0x02);
    assert!(!cpu.ime);
    assert_eq!(cpu.cycles, 0);
}

#[test]
fn reset_restarts_the_program_and_keeps_the_registers() {
    let mut cpu = boot(&[0x3e, 0x55, 0xfb, 0x37]);
    run(&mut cpu, 3);
    assert_eq!(cpu.pc, 4);
    assert!(cpu.ime);
    cpu.sp = 0x2400;
    cpu.reset();
    assert_eq!(cpu.pc, 0);
    assert!(!cpu.ime);
    assert_eq!(cpu.regs.a, 0x55);
    assert_eq!(cpu.sp, 0x2400);
    assert_eq!(cpu.f.as_u8(), 0x03);
    assert_eq!(cpu.bus.read_byte(1), 0x55);
}

#[test]
fn register_pairs_read_and_write() {
    let mut cpu = boot(&[]);
    cpu.write_rp(0, 0x1234);
    cpu.write_rp(1, 0x5678);
    cpu.write_rp(2, 0x9abc);
    cpu.write_rp(3, 0xdef0);
    assert_eq!(cpu.regs, Regs { a: 0, b: 0x12, c: 0x34, d: 0x56, e: 0x78, h: 0x9a, l: 0xbc });
    assert_eq!(cpu.sp, 0xdef0);
    assert_eq!(cpu.read_rp(0), 0x1234);
    assert_eq!(cpu.read_rp(1), 0x5678);
    assert_eq!(cpu.read_rp(2), 0x9abc);
    assert_eq!(cpu.read_rp(3), 0xdef0);
}

#[test]
fn registers_by_number() {
    let mut regs = Regs::new();
    for r in 0..8u8 {
        regs.set(r, 0x10 + r);
    }
    assert_eq!(regs, Regs { b: 0x10, c: 0x11, d: 0x12, e: 0x13, h: 0x14, l: 0x15, a: 0x17 });
    assert_eq!(regs.get(0), 0x10);
    assert_eq!(regs.get(5), 0x15);
    assert_eq!(regs.get(7), 0x17);
}

#[test]
fn operand_six_is_the_byte_at_hl() {
    let mut cpu = boot(&[]);
    cpu.write_rp(2, 0x4000);
    cpu.write_operand(6, 0x99);
    assert_eq!(cpu.bus.read_byte(0x4000), 0x99);
    assert_eq!(cpu.read_operand(6), 0x99);
    assert_eq!(cpu.regs.a, 0);
    cpu.write_operand(7, 0x11);
    assert_eq!(cpu.regs.a, 0x11);
    assert_eq!(cpu.read_operand(7), 0x11);
    cpu.write_operand(0, 0x22);
    assert_eq!(cpu.regs.b, 0x22);
    assert_eq!(cpu.read_operand(0), 0x22);
    assert_eq!(cpu.read_operand(4), 0x40);
}

#[test]
fn the_eight_conditions() {
    let mut cpu = boot(&[]);
    cpu.f = PSW::from_bits(0x02).unwrap();
    let clear: Vec<bool> = (0..8u8).map(|c| cpu.test(c)).collect();
    assert_eq!(clear, vec![true, false, true, false, true, false, true, false]);
    cpu.f = PSW::from_bits(0xd7).unwrap();
    let set: Vec<bool> = (0..8u8).map(|c| cpu.test(c)).collect();
    assert_eq!(set, vec![false, true, false, true, false, true, false, true]);
    cpu.f = PSW::from_bits(0x40).unwrap();
    assert!(cpu.test(1));
    assert!(cpu.test(2));
}

#[test]
fn nop_and_its_undocumented_encodings() {
    let mut cpu = boot(&[0x00, 0x08, 0x38]);
    assert_eq!(cpu.step(), 4);
    assert_eq!(cpu.pc, 1);
    assert_eq!(cpu.step(), 4);
    assert_eq!(cpu.step(), 4);
    assert_eq!(cpu.pc, 3);
    assert_eq!(cpu.cycles, 12);
    assert_eq!(cpu.regs, Regs::new());
    assert_eq!(cpu.f.as_u8(), 0x02);
}

#[test]
fn halt_returns_no_cycles() {
    let mut cpu = boot(&[0x76, 0x3e, 0x01]);
    assert_eq!(cpu.step(), 0);
    assert_eq!(cpu.pc, 1);
    assert_eq!(cpu.cycles, 7);
    assert_eq!(cpu.regs.a, 0);
}

#[test]
fn moves_between_registers_and_memory() {
    let mut cpu = boot(&[0x06, 0x12, 0x48, 0x21, 0x00, 0x20, 0x70, 0x5e, 0x7b]);
    assert_eq!(cpu.step(), 7);
    assert_eq!(cpu.regs.b, 0x12);
    assert_eq!(cpu.step(), 5);
    assert_eq!(cpu.regs.c, 0x12);
    assert_eq!(cpu.step(), 10);
    assert_eq!((cpu.regs.h, cpu.regs.l), (0x20, 0x00));
    assert_eq!(cpu.step(), 7);
    assert_eq!(cpu.bus.read_byte(0x2000), 0x12);
    assert_eq!(cpu.step(), 7);
    assert_eq!(cpu.regs.e, 0x12);
    assert_eq!(cpu.step(), 5);
    assert_eq!(cpu.regs.a, 0x12);
    assert_eq!(cpu.pc, 9);
    assert_eq!(cpu.f.as_u8(), 0x02);
}

#[test]
fn move_immediate_to_memory() {
    let mut cpu = boot(&[0x21, 0x34, 0x12, 0x36, 0x99]);
    cpu.step();
    assert_eq!(cpu.step(), 10);
    assert_eq!(cpu.bus.read_byte(0x1234), 0x99);
    assert_eq!(cpu.pc, 5);
    assert_eq!(cpu.regs.a, 0);
}

#[test]
fn load_immediate_pairs() {
    let mut cpu = boot(&[0x01, 0x34, 0x12, 0x11, 0x78, 0x56, 0x21, 0xbc, 0x9a, 0x31, 0xfe, 0xca]);
    assert_eq!(run(&mut cpu, 4), 40);
    assert_eq!(cpu.regs, Regs { a: 0, b: 0x12, c: 0x34, d: 0x56, e: 0x78, h: 0x9a, l: 0xbc });
    assert_eq!(cpu.sp, 0xcafe);
    assert_eq!(cpu.pc, 12);
}

#[test]
fn store_and_load_the_accumulator_directly() {
    let mut cpu = boot(&[0x3e, 0x5a, 0x32, 0x00, 0x30, 0x3e, 0x00, 0x3a, 0x00, 0x30]);
    assert_eq!(cpu.step(), 7);
    assert_eq!(cpu.step(), 13);
    assert_eq!(cpu.bus.read_byte(0x3000), 0x5a);
    cpu.step();
    assert_eq!(cpu.regs.a, 0);
    assert_eq!(cpu.step(), 13);
    assert_eq!(cpu.regs.a, 0x5a);
}

#[test]
fn store_and_load_hl_directly() {
    let mut cpu = boot(&[0x21, 0x34, 0x12, 0x22, 0x00, 0x40, 0x21, 0x00, 0x00, 0x2a, 0x00, 0x40]);
    cpu.step();
    assert_eq!(cpu.step(), 16);
    assert_eq!(cpu.bus.read_byte(0x4000), 0x34);
    assert_eq!(cpu.bus.read_byte(0x4001), 0x12);
    cpu.step();
    assert_eq!(cpu.read_rp(2), 0);
    assert_eq!(cpu.step(), 16);
    assert_eq!((cpu.regs.h, cpu.regs.l), (0x12, 0x34));
}

#[test]
fn store_and_load_the_accumulator_through_a_pair() {
    let mut cpu = boot(&[
        0x01, 0x00, 0x50, 0x11, 0x00, 0x60, 0x3e, 0x77, 0x02, 0x3e, 0x88, 0x12, 0x3e, 0x00, 0x0a,
        0x47, 0x1a,
    ]);
    run(&mut cpu, 3);
    assert_eq!(cpu.step(), 7);
    assert_eq!(cpu.bus.read_byte(0x5000), 0x77);
    cpu.step();
    assert_eq!(cpu.step(), 7);
    assert_eq!(cpu.bus.read_byte(0x6000), 0x88);
    cpu.step();
    assert_eq!(cpu.step(), 7);
    assert_eq!(cpu.regs.a, 0x77);
    cpu.step();
    assert_eq!(cpu.step(), 7);
    assert_eq!(cpu.regs.a, 0x88);
    assert_eq!(cpu.regs.b, 0x77);
}

#[test]
fn exchange_hl_and_de() {
    let mut cpu = boot(&[0x21, 0x34, 0x12, 0x11, 0x78, 0x56, 0xeb]);
    run(&mut cpu, 2);
    assert_eq!(cpu.step(), 4);
    assert_eq!(cpu.regs, Regs { a: 0, b: 0, c: 0, d: 0x12, e: 0x34, h: 0x56, l: 0x78 });
}

#[test]
fn add_then_decimal_adjust() {
    let mut cpu = boot(&[0x3e, 0x15, 0x06, 0x27, 0x80, 0x27]);
    run(&mut cpu, 2);
    assert_eq!(cpu.step(), 4);
    assert_eq!(cpu.regs.a, 0x3c);
    assert_eq!(cpu.f.as_u8(), 0x06);
    assert_eq!(cpu.step(), 4);
    assert_eq!(cpu.regs.a, 0x42);
    assert!(!cpu.f.contains(PSW::C));
    assert_eq!(cpu.f.as_u8(), 0x16);
    assert_eq!(cpu.regs.b, 0x27);
}

#[test]
fn add_and_subtract_the_byte_at_hl() {
    let mut cpu = boot(&[0x21, 0x00, 0x20, 0x36, 0x05, 0x3e, 0x03, 0x86, 0x96, 0x96]);
    run(&mut cpu, 3);
    assert_eq!(cpu.step(), 7);
    assert_eq!(cpu.regs.a, 0x08);
    assert_eq!(cpu.step(), 7);
    assert_eq!(cpu.regs.a, 0x03);
    assert_eq!(cpu.step(), 7);
    assert_eq!(cpu.regs.a, 0xfe);
    assert!(cpu.f.contains(PSW::C));
    assert!(cpu.f.contains(PSW::S));
    assert_eq!(cpu.bus.read_byte(0x2000), 0x05);
}

#[test]
fn add_then_subtract_a_register_restores_the_accumulator() {
    for (a, b) in [(0x00u8, 0x00u8), (0x12, 0x34), (0xff, 0x01), (0x0f, 0x01), (0x80, 0x80), (0xff, 0xff)] {
        let mut cpu = boot(&[0x3e, a, 0x06, b, 0x80, 0x90]);
        run(&mut cpu, 4);
        assert_eq!(cpu.regs.a, a);
        assert_eq!(cpu.regs.b, b);
        assert_eq!(!cpu.f.contains(PSW::C), a as u16 + b as u16 <= 0xff);
        assert_eq!(!cpu.f.contains(PSW::A), (a & 0x0f) + (b & 0x0f) > 0x0f);
    }
}

#[test]
fn immediate_arithmetic() {
    let mut cpu = boot(&[0x3e, 0xf0, 0xc6, 0x20, 0xce, 0x01, 0xd6, 0x12, 0xde, 0x00]);
    cpu.step();
    assert_eq!(cpu.step(), 7);
    assert_eq!(cpu.regs.a, 0x10);
    assert_eq!(cpu.f.as_u8(), 0x03);
    assert_eq!(cpu.step(), 7);
    assert_eq!(cpu.regs.a, 0x12);
    assert_eq!(cpu.f.as_u8(), 0x06);
    assert_eq!(cpu.step(), 7);
    assert_eq!(cpu.regs.a, 0x00);
    assert_eq!(cpu.f.as_u8(), 0x56);
    assert_eq!(cpu.step(), 7);
    assert_eq!(cpu.regs.a, 0x00);
    assert_eq!(cpu.f.as_u8(), 0x56);
    assert_eq!(cpu.pc, 10);
}

#[test]
fn add_and_subtract_with_the_carry() {
    let mut cpu = boot(&[0x37, 0x3e, 0x01, 0x06, 0x01, 0x88, 0x37, 0x98]);
    run(&mut cpu, 3);
    assert_eq!(cpu.step(), 4);
    assert_eq!(cpu.regs.a, 0x03);
    assert_eq!(cpu.f.as_u8(), 0x06);
    cpu.step();
    assert_eq!(cpu.step(), 4);
    assert_eq!(cpu.regs.a, 0x01);
    assert_eq!(cpu.f.as_u8(), 0x12);
}

#[test]
fn compare_sets_flags_and_keeps_the_accumulator() {
    let mut cpu = boot(&[0x3e, 0x10, 0xfe, 0x20, 0x06, 0x10, 0xb8, 0x21, 0x00, 0x20, 0xbe]);
    cpu.step();
    assert_eq!(cpu.step(), 7);
    assert_eq!(cpu.regs.a, 0x10);
    assert_eq!(cpu.f.as_u8(), 0x97);
    cpu.step();
    assert_eq!(cpu.step(), 4);
    assert_eq!(cpu.regs.a, 0x10);
    assert_eq!(cpu.f.as_u8(), 0x56);
    cpu.step();
    assert_eq!(cpu.step(), 7);
    assert_eq!(cpu.regs.a, 0x10);
    assert!(!cpu.f.contains(PSW::Z));
    assert!(!cpu.f.contains(PSW::C));
}

#[test]
fn logic_on_registers_and_immediates() {
    let mut cpu = boot(&[0x37, 0x3e, 0xfc, 0xe6, 0x0f, 0x06, 0x03, 0xa0, 0xf6, 0x80, 0xee, 0xff, 0xa8, 0xb0]);
    run(&mut cpu, 2);
    assert_eq!(cpu.step(), 7);
    assert_eq!(cpu.regs.a, 0x0c);
    assert_eq!(cpu.f.as_u8(), 0x16);
    cpu.step();
    assert_eq!(cpu.step(), 4);
    assert_eq!(cpu.regs.a, 0x00);
    assert_eq!(cpu.f.as_u8(), 0x56);
    assert_eq!(cpu.step(), 7);
    assert_eq!(cpu.regs.a, 0x80);
    assert_eq!(cpu.f.as_u8(), 0x82);
    assert_eq!(cpu.step(), 7);
    assert_eq!(cpu.regs.a, 0x7f);
    assert_eq!(cpu.f.as_u8(), 0x02);
    assert_eq!(cpu.step(), 4);
    assert_eq!(cpu.regs.a, 0x7c);
    assert_eq!(cpu.f.as_u8(), 0x02);
    assert_eq!(cpu.step(), 4);
    assert_eq!(cpu.regs.a, 0x7f);
    assert_eq!(cpu.f.as_u8(), 0x02);
}

#[test]
fn increment_and_decrement_a_register() {
    let mut cpu = boot(&[0x37, 0x06, 0xff, 0x04, 0x05, 0x3c, 0x3d]);
    run(&mut cpu, 2);
    assert_eq!(cpu.step(), 5);
    assert_eq!(cpu.regs.b, 0x00);
    assert_eq!(cpu.f.as_u8(), 0x57);
    assert_eq!(cpu.step(), 5);
    assert_eq!(cpu.regs.b, 0xff);
    assert_eq!(cpu.f.as_u8(), 0x87);
    assert_eq!(cpu.step(), 5);
    assert_eq!(cpu.regs.a, 0x01);
    assert_eq!(cpu.f.as_u8(), 0x03);
    assert_eq!(cpu.step(), 5);
    assert_eq!(cpu.regs.a, 0x00);
    assert_eq!(cpu.f.as_u8(), 0x57);
}

#[test]
fn increment_and_decrement_the_byte_at_hl() {
    let mut cpu = boot(&[0x21, 0x00, 0x20, 0x36, 0xff, 0x3e, 0x07, 0x34, 0x35]);
    run(&mut cpu, 3);
    assert_eq!(cpu.step(), 10);
    assert_eq!(cpu.bus.read_byte(0x2000), 0x00);
    assert_eq!(cpu.f.as_u8(), 0x56);
    assert_eq!(cpu.regs.a, 0x07);
    assert_eq!(cpu.step(), 10);
    assert_eq!(cpu.bus.read_byte(0x2000), 0xff);
    assert_eq!(cpu.f.as_u8(), 0x86);
    assert_eq!(cpu.regs.a, 0x07);
}

#[test]
fn increment_and_decrement_pairs_without_flags() {
    let mut cpu = boot(&[0x01, 0xff, 0xff, 0x03, 0x0b, 0x31, 0x00, 0x00, 0x3b, 0x33, 0x23, 0x2b, 0x1b]);
    cpu.step();
    assert_eq!(cpu.step(), 5);
    assert_eq!(cpu.read_rp(0), 0x0000);
    assert_eq!(cpu.step(), 5);
    assert_eq!(cpu.read_rp(0), 0xffff);
    cpu.step();
    assert_eq!(cpu.step(), 5);
    assert_eq!(cpu.sp, 0xffff);
    assert_eq!(cpu.step(), 5);
    assert_eq!(cpu.sp, 0x0000);
    cpu.step();
    assert_eq!(cpu.read_rp(2), 0x0001);
    cpu.step();
    assert_eq!(cpu.read_rp(2), 0x0000);
    cpu.step();
    assert_eq!(cpu.read_rp(1), 0xffff);
    assert_eq!(cpu.f.as_u8(), 0x02);
}

#[test]
fn double_add_sets_only_the_carry() {
    let mut cpu = boot(&[0x21, 0xff, 0xff, 0x01, 0x01, 0x00, 0x09, 0x29, 0x31, 0x34, 0x12, 0x39, 0x19]);
    run(&mut cpu, 2);
    assert_eq!(cpu.step(), 10);
    assert_eq!(cpu.read_rp(2), 0x0000);
    assert_eq!(cpu.f.as_u8(), 0x03);
    assert_eq!(cpu.step(), 10);
    assert_eq!(cpu.read_rp(2), 0x0000);
    assert_eq!(cpu.f.as_u8(), 0x02);
    cpu.step();
    assert_eq!(cpu.step(), 10);
    assert_eq!(cpu.read_rp(2), 0x1234);
    assert_eq!(cpu.step(), 10);
    assert_eq!(cpu.read_rp(2), 0x1234);
    assert_eq!(cpu.read_rp(0), 0x0001);
}

#[test]
fn rotates_complement_and_carry() {
    let mut cpu = boot(&[0x3e, 0x81, 0x07, 0x0f, 0x17, 0x1f, 0x2f, 0x37, 0x3f, 0x3f]);
    cpu.step();
    assert_eq!(cpu.step(), 4);
    assert_eq!(cpu.regs.a, 0x03);
    assert_eq!(cpu.f.as_u8(), 0x03);
    assert_eq!(cpu.step(), 4);
    assert_eq!(cpu.regs.a, 0x81);
    assert_eq!(cpu.f.as_u8(), 0x03);
    assert_eq!(cpu.step(), 4);
    assert_eq!(cpu.regs.a, 0x03);
    assert_eq!(cpu.f.as_u8(), 0x03);
    assert_eq!(cpu.step(), 4);
    assert_eq!(cpu.regs.a, 0x81);
    assert_eq!(cpu.f.as_u8(), 0x03);
    assert_eq!(cpu.step(), 4);
    assert_eq!(cpu.regs.a, 0x7e);
    assert_eq!(cpu.f.as_u8(), 0x03);
    assert_eq!(cpu.step(), 4);
    assert_eq!(cpu.f.as_u8(), 0x03);
    assert_eq!(cpu.step(), 4);
    assert_eq!(cpu.f.as_u8(), 0x02);
    assert_eq!(cpu.step(), 4);
    assert_eq!(cpu.f.as_u8(), 0x03);
    assert_eq!(cpu.regs.a, 0x7e);
}

#[test]
fn a_jump_lands_on_its_operand() {
    let mut bus = CpmBus::new();
    bus.load_bin(0, &[0xc3, 0x34, 0x12, 0x3e, 0x99]);
    bus.load_bin(0x1234, &[0x3e, 0x42]);
    let mut cpu = Cpu::new(bus);
    assert_eq!(cpu.step(), 10);
    assert_eq!(cpu.pc, 0x1234);
    assert_eq!(cpu.step(), 7);
    assert_eq!(cpu.regs.a, 0x42);
    assert_eq!(cpu.pc, 0x1236);
}

#[test]
fn the_undocumented_jump() {
    let mut cpu = boot(&[0xcb, 0x00, 0x80]);
    assert_eq!(cpu.step(), 10);
    assert_eq!(cpu.pc, 0x8000);
}

#[test]
fn conditional_jumps_cost_the_same_taken_or_not() {
    let opcodes = [0xc2u8, 0xca, 0xd2, 0xda, 0xe2, 0xea, 0xf2, 0xfa];
    for (c, &opcode) in opcodes.iter().enumerate() {
        for bits in [0x02u8, 0xd7] {
            let mut cpu = boot(&[opcode, 0x00, 0x10]);
            cpu.f = PSW::from_bits(bits).unwrap();
            let taken = (c % 2 == 1) == (bits == 0xd7);
            assert_eq!(cpu.step(), 10);
            assert_eq!(cpu.pc, if taken { 0x1000 } else { 3 });
            assert_eq!(cpu.f.as_u8(), bits);
        }
    }
}

#[test]
fn call_and_return() {
    let mut bus = CpmBus::new();
    bus.load_bin(0, &[0x31, 0x00, 0x24, 0xcd, 0x10, 0x00]);
    bus.load_bin(0x10, &[0xc9]);
    let mut cpu = Cpu::new(bus);
    cpu.step();
    assert_eq!(cpu.step(), 17);
    assert_eq!(cpu.pc, 0x0010);
    assert_eq!(cpu.sp, 0x23fe);
    assert_eq!(cpu.bus.read_byte(0x23fe), 0x06);
    assert_eq!(cpu.bus.read_byte(0x23ff), 0x00);
    assert_eq!(cpu.step(), 10);
    assert_eq!(cpu.pc, 0x0006);
    assert_eq!(cpu.sp, 0x2400);
}

#[test]
fn the_undocumented_calls_and_return() {
    for opcode in [0xddu8, 0xed, 0xfd] {
        let mut bus = CpmBus::new();
        bus.load_bin(0x0100, &[opcode, 0x00, 0x02]);
        bus.load_bin(0x0200, &[0xd9]);
        let mut cpu = Cpu::new(bus);
        cpu.pc = 0x0100;
        cpu.sp = 0x3000;
        assert_eq!(cpu.step(), 17);
        assert_eq!(cpu.pc, 0x0200);
        assert_eq!(cpu.bus.read_word(0x2ffe), 0x0103);
        assert_eq!(cpu.step(), 10);
        assert_eq!(cpu.pc, 0x0103);
        assert_eq!(cpu.sp, 0x3000);
    }
}

#[test]
fn a_conditional_call_costs_six_more_when_taken() {
    let opcodes = [0xc4u8, 0xcc, 0xd4, 0xdc, 0xe4, 0xec, 0xf4, 0xfc];
    for (c, &opcode) in opcodes.iter().enumerate() {
        for bits in [0x02u8, 0xd7] {
            let mut cpu = boot(&[opcode, 0x00, 0x10]);
            cpu.f = PSW::from_bits(bits).unwrap();
            cpu.sp = 0x2400;
            let taken = (c % 2 == 1) == (bits == 0xd7);
            assert_eq!(cpu.step(), if taken { 17 } else { 11 });
            assert_eq!(cpu.pc, if taken { 0x1000 } else { 3 });
            assert_eq!(cpu.sp, if taken { 0x23fe } else { 0x2400 });
            assert_eq!(cpu.cycles, if taken { 17 } else { 11 });
            if taken {
                assert_eq!(cpu.bus.read_word(0x23fe), 0x0003);
            }
        }
    }
}

#[test]
fn a_conditional_return_costs_six_more_when_taken() {
    let opcodes = [0xc0u8, 0xc8, 0xd0, 0xd8, 0xe0, 0xe8, 0xf0, 0xf8];
    for (c, &opcode) in opcodes.iter().enumerate() {
        for bits in [0x02u8, 0xd7] {
            let mut cpu = boot(&[opcode]);
            cpu.f = PSW::from_bits(bits).unwrap();
            cpu.sp = 0x2400;
            cpu.bus.write_word(0x2400, 0x4321);
            let taken = (c % 2 == 1) == (bits == 0xd7);
            assert_eq!(cpu.step(), if taken { 11 } else { 5 });
            assert_eq!(cpu.pc, if taken { 0x4321 } else { 1 });
            assert_eq!(cpu.sp, if taken { 0x2402 } else { 0x2400 });
            assert_eq!(cpu.cycles, if taken { 11 } else { 5 });
        }
    }
}

#[test]
fn restart_calls_eight_times_its_number() {
    for n in 0..8u8 {
        let mut bus = CpmBus::new();
        bus.load_bin(0x0100, &[0xc7 | (n << 3)]);
        let mut cpu = Cpu::new(bus);
        cpu.pc = 0x0100;
        cpu.sp = 0x2400;
        assert_eq!(cpu.step(), 11);
        assert_eq!(cpu.pc, 8 * n as u16);
        assert_eq!(cpu.sp, 0x23fe);
        assert_eq!(cpu.bus.read_word(0x23fe), 0x0101);
    }
}

#[test]
fn jump_to_hl_and_stack_pointer_from_hl() {
    let mut bus = CpmBus::new();
    bus.load_bin(0, &[0x21, 0x00, 0x30, 0xe9]);
    bus.load_bin(0x3000, &[0xf9]);
    let mut cpu = Cpu::new(bus);
    cpu.step();
    assert_eq!(cpu.step(), 5);
    assert_eq!(cpu.pc, 0x3000);
    assert_eq!(cpu.step(), 5);
    assert_eq!(cpu.sp, 0x3000);
    assert_eq!(cpu.pc, 0x3001);
}

#[test]
fn push_then_pop_restores_the_pair_and_the_stack_pointer() {
    for rp in 0..3u8 {
        let mut cpu = boot(&[0xc5 | (rp << 4), 0xc1 | (rp << 4)]);
        cpu.sp = 0x2400;
        cpu.regs = Regs { a: 0x01, b: 0x12, c: 0x34, d: 0x56, e: 0x78, h: 0x9a, l: 0xbc };
        let before = cpu.regs;
        let pair = cpu.read_rp(rp);
        assert_eq!(cpu.step(), 11);
        assert_eq!(cpu.sp, 0x23fe);
        assert_eq!(cpu.bus.read_byte(0x23ff), (pair >> 8) as u8);
        assert_eq!(cpu.bus.read_byte(0x23fe), (pair & 0xff) as u8);
        cpu.write_rp(rp, 0);
        assert_eq!(cpu.step(), 10);
        assert_eq!(cpu.regs, before);
        assert_eq!(cpu.sp, 0x2400);
    }
}

#[test]
fn pop_into_another_pair() {
    let mut cpu = boot(&[0x01, 0x34, 0x12, 0x31, 0x00, 0x24, 0xc5, 0xd1, 0xc5, 0xe1]);
    run(&mut cpu, 4);
    assert_eq!(cpu.read_rp(1), 0x1234);
    run(&mut cpu, 2);
    assert_eq!(cpu.read_rp(2), 0x1234);
    assert_eq!(cpu.sp, 0x2400);
}

#[test]
fn push_psw_then_pop_psw_fixes_the_spare_bits() {
    let mut cpu = boot(&[0xf5, 0xf1]);
    cpu.sp = 0x2400;
    cpu.regs.a = 0xa5;
    cpu.f = PSW::from_bits(0xff).unwrap();
    assert_eq!(cpu.step(), 11);
    assert_eq!(cpu.bus.read_byte(0x23ff), 0xa5);
    assert_eq!(cpu.bus.read_byte(0x23fe), 0xd7);
    assert_eq!(cpu.sp, 0x23fe);
    cpu.regs.a = 0;
    cpu.f = PSW::from_bits(0x00).unwrap();
    assert_eq!(cpu.step(), 10);
    assert_eq!(cpu.regs.a, 0xa5);
    assert_eq!(cpu.f.as_u8(), 0xd7);
    assert_eq!(cpu.sp, 0x2400);
}

#[test]
fn push_psw_then_pop_psw_keeps_every_condition() {
    for bits in 0..=255u8 {
        let mut cpu = boot(&[0xf5, 0xf1]);
        cpu.sp = 0x8000;
        cpu.regs.a = bits ^ 0x3c;
        cpu.f = PSW::from_bits(bits).unwrap();
        run(&mut cpu, 2);
        assert_eq!(cpu.regs.a, bits ^ 0x3c);
        assert_eq!(cpu.f.as_u8() & 0xd5, bits & 0xd5);
        assert_eq!(cpu.f.as_u8() & 0x2a, 0x02);
        assert_eq!(cpu.sp, 0x8000);
    }
}

#[test]
fn pop_psw_fixes_the_spare_bits_of_any_byte_on_the_stack() {
    let mut cpu = boot(&[0xf1, 0xf1]);
    cpu.sp = 0x2400;
    cpu.bus.write_word(0x2400, 0x1228);
    cpu.bus.write_word(0x2402, 0x34ff);
    cpu.step();
    assert_eq!(cpu.regs.a, 0x12);
    assert_eq!(cpu.f.as_u8(), 0x02);
    cpu.step();
    assert_eq!(cpu.regs.a, 0x34);
    assert_eq!(cpu.f.as_u8(), 0xd7);
    assert_eq!(cpu.sp, 0x2404);
}

#[test]
fn a_stack_in_working_memory_of_the_board_keeps_its_words() {
    let mut cpu = arcade(&[0x31, 0x00, 0x24, 0x21, 0xcd, 0xab, 0xe5, 0x21, 0x00, 0x00, 0xe1]);
    for _ in 0..5 {
        cpu.step();
    }
    assert_eq!(cpu.read_rp(2), 0xabcd);
    assert_eq!(cpu.sp, 0x2400);
    assert_eq!(cpu.bus.ram[0x3fe], 0xcd);
    assert_eq!(cpu.bus.ram[0x3ff], 0xab);
}

#[test]
fn a_stack_in_program_memory_keeps_nothing() {
    let mut cpu = arcade(&[0x01, 0x34, 0x12, 0xc5, 0xc1]);
    cpu.sp = 0x1000;
    cpu.step();
    assert_eq!(cpu.step(), 11);
    assert_eq!(cpu.sp, 0x0ffe);
    assert_eq!(cpu.step(), 10);
    assert_eq!(cpu.read_rp(0), 0x0000);
    assert_eq!(cpu.sp, 0x1000);
}

#[test]
fn exchange_hl_with_the_top_of_the_stack() {
    let mut cpu = boot(&[0x31, 0x00, 0x24, 0x21, 0x34, 0x12, 0xe3]);
    cpu.bus.write_word(0x2400, 0x5678);
    run(&mut cpu, 2);
    assert_eq!(cpu.step(), 18);
    assert_eq!(cpu.read_rp(2), 0x5678);
    assert_eq!(cpu.bus.read_word(0x2400), 0x1234);
    assert_eq!(cpu.sp, 0x2400);
}

#[test]
fn enable_and_disable_interrupts() {
    let mut cpu = boot(&[0xfb, 0xf3, 0xfb]);
    assert_eq!(cpu.step(), 4);
    assert!(cpu.ime);
    assert_eq!(cpu.step(), 4);
    assert!(!cpu.ime);
    cpu.step();
    assert!(cpu.ime);
}

#[test]
fn input_and_output_on_the_arcade_board() {
    let mut cpu = arcade(&[
        0x3e, 0xf0, 0xd3, 0x04, 0x3e, 0x04, 0xd3, 0x02, 0x3e, 0xf0, 0xd3, 0x04, 0xdb, 0x03, 0xdb,
        0x01, 0xd3, 0x03, 0xd3, 0x06, 0xdb, 0x06,
    ]);
    cpu.step();
    assert_eq!(cpu.port_fault(), None);
    assert_eq!(cpu.step(), 10);
    cpu.step();
    cpu.step();
    cpu.step();
    cpu.step();
    assert_eq!(cpu.port_fault(), None);
    assert_eq!(cpu.step(), 10);
    assert_eq!(cpu.regs.a, 0x0f);
    cpu.bus.inputs.credit = true;
    assert_eq!(cpu.step(), 10);
    assert_eq!(cpu.regs.a, 0x09);
    assert_eq!(cpu.step(), 10);
    assert_eq!(cpu.bus.sfx, [true, false]);
    assert_eq!(cpu.bus.sfx_data, [0x09, 0x00]);
    assert_eq!(cpu.step(), 10);
    assert_eq!(cpu.step(), 10);
    assert_eq!(cpu.regs.a, 0x00);
    assert_eq!(cpu.pc, 22);
}

#[test]
fn output_on_the_flat_machine() {
    let mut cpu = boot(&[0x3e, 0x4f, 0xd3, 0xaa, 0x3e, 0x4b, 0xd3, 0xaa, 0xd3, 0xff]);
    run(&mut cpu, 4);
    assert_eq!(cpu.bus.console, vec![0x4f, 0x4b]);
    assert!(!cpu.bus.warm_boot);
    assert_eq!(cpu.port_fault(), None);
    assert_eq!(cpu.step(), 10);
    assert!(cpu.bus.warm_boot);
}

#[test]
fn a_port_that_no_device_serves_is_a_fault() {
    let mut cpu = boot(&[0xdb, 0x01]);
    assert_eq!(cpu.port_fault(), Some(PortFault::Read(0x01)));
    assert_eq!(cpu.pc, 0);
    let mut cpu = boot(&[0xd3, 0x07]);
    assert_eq!(cpu.port_fault(), Some(PortFault::Write(0x07)));
    let mut cpu = boot(&[0xd3, 0xaa]);
    assert_eq!(cpu.port_fault(), None);
    let mut cpu = boot(&[0x3e, 0x01]);
    assert_eq!(cpu.port_fault(), None);
    let mut cpu = arcade(&[0xdb, 0x04]);
    assert_eq!(cpu.port_fault(), Some(PortFault::Read(0x04)));
    let mut cpu = arcade(&[0xd3, 0x01]);
    assert_eq!(cpu.port_fault(), Some(PortFault::Write(0x01)));
    let mut cpu = arcade(&[0xdb, 0x01]);
    assert_eq!(cpu.port_fault(), None);
}

#[test]
fn try_step_runs_what_the_bus_can_serve_and_reports_what_it_cannot() {
    let mut cpu = boot(&[0x3e, 0x41, 0xd3, 0xaa, 0xdb, 0x01, 0x3c]);
    assert_eq!(cpu.try_step(), Ok(7));
    assert_eq!(cpu.try_step(), Ok(10));
    assert_eq!(cpu.bus.console, vec![0x41]);
    assert_eq!(cpu.try_step(), Err(PortFault::Read(0x01)));
    assert_eq!(cpu.pc, 4);
    assert_eq!(cpu.cycles, 17);
    assert_eq!(cpu.regs.a, 0x41);
    assert_eq!(cpu.try_step(), Err(PortFault::Read(0x01)));
    let mut cpu = arcade(&[0xd3, 0x07, 0x76]);
    assert_eq!(cpu.try_step(), Err(PortFault::Write(0x07)));
    cpu.pc = 2;
    assert_eq!(cpu.try_step(), Ok(0));
}

#[test]
fn an_interrupt_calls_its_restart_address() {
    let mut cpu = boot(&[]);
    cpu.pc = 0x1234;
    cpu.sp = 0x2400;
    cpu.interrupt(0xcf);
    assert_eq!(cpu.pc, 0x0008);
    assert_eq!(cpu.sp, 0x23fe);
    assert_eq!(cpu.bus.read_word(0x23fe), 0x1234);
    cpu.interrupt(0xd7);
    assert_eq!(cpu.pc, 0x0010);
    assert_eq!(cpu.bus.read_word(0x23fc), 0x0008);
    assert!(!cpu.ime);
    assert_eq!(cpu.cycles, 0);
}

#[test]
fn push_and_pop_words() {
    let mut cpu = boot(&[]);
    cpu.sp = 0x0001;
    cpu.push_word(0xbeef);
    assert_eq!(cpu.sp, 0xffff);
    assert_eq!(cpu.bus.read_byte(0x0000), 0xbe);
    assert_eq!(cpu.bus.read_byte(0xffff), 0xef);
    assert_eq!(cpu.pop_word(), 0xbeef);
    assert_eq!(cpu.sp, 0x0001);
}

#[test]
fn the_cycle_counter_adds_up_what_step_returns() {
    let mut cpu = boot(&[0x31, 0x00, 0x24, 0xcd, 0x08, 0x00, 0x76, 0x00, 0x3e, 0x01, 0xb7, 0xc0]);
    let mut total = 0;
    loop {
        let spent = cpu.step();
        if spent == 0 {
            break;
        }
        total += spent;
    }
    assert_eq!(total, 10 + 17 + 7 + 4 + 11);
    assert_eq!(cpu.cycles, total + 7);
    assert_eq!(cpu.pc, 7);
    assert_eq!(cpu.regs.a, 0x01);
}

#[test]
fn the_cycle_counter_wraps() {
    let mut cpu = boot(&[0x00]);
    cpu.cycles = usize::MAX - 1;
    assert_eq!(cpu.step(), 4);
    assert_eq!(cpu.cycles, 2);
}

#[test]
fn the_program_counter_wraps() {
    let mut bus = CpmBus::new();
    bus.load_bin(0xffff, &[0x3e]);
    bus.load_bin(0x0000, &[0x42]);
    let mut cpu = Cpu::new(bus);
    cpu.pc = 0xffff;
    assert_eq!(cpu.step(), 7);
    assert_eq!(cpu.regs.a, 0x42);
    assert_eq!(cpu.pc, 0x0001);
}

#[test]
fn the_arcade_program_runs_from_program_memory() {
    let mut cpu = arcade(&[0x31, 0x00, 0x24, 0x21, 0x00, 0x24, 0x36, 0xff, 0x3e, 0x07, 0x32, 0x00, 0x20]);
    let mut spent = 0;
    for _ in 0..5 {
        spent += cpu.step();
    }
    assert_eq!(spent, 10 + 10 + 10 + 7 + 13);
    assert_eq!(cpu.bus.vram[0], 0xff);
    assert_eq!(cpu.bus.ram[0], 0x07);
    cpu.bus.step(spent);
    assert_eq!(cpu.bus.timer.cycles, 50);
}
