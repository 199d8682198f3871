use emu6502::bus::Bus;
use emu6502::cpu::instruction_set::{adc, sbc};
use emu6502::cpu::instructions::{join_bytes, page_crossed, Addrmode, Data, Op};
use emu6502::cpu::lookup_table::lookup;
use emu6502::cpu::registers::Flag;
use emu6502::cpu::{ExecError, LoadError, CPU};

fn fresh_cpu() -> CPU {
    CPU::new(Bus::new())
}

#[test]
fn initialise_cpu() {
    let b = Bus { memory: [0; 65536], cycles: 0 };
    let mut pu = CPU::new(b);
    let game_code = vec![
        0x20, 0x06, 0x06, 0x20, 0x38, 0x06, 0x20, 0x0d, 0x06, 0x20, 0x2a, 0x06, 0x60, 0xa9,
        0x02, 0x85, 0x02, 0xa9, 0x04, 0x85, 0x03, 0xa9, 0x11, 0x85, 0x10, 0xa9, 0x10, 0x85,
        0x12, 0xa9, 0x0f, 0x85, 0x14, 0xa9, 0x04, 0x85, 0x11, 0x85, 0x13, 0x85, 0x15, 0x60,
        0xa5, 0xfe, 0x85, 0x00, 0xa5, 0xfe, 0x29, 0x03, 0x18, 0x69, 0x02, 0x85, 0x01, 0x60,
        0x20, 0x4d, 0x06, 0x20, 0x8d, 0x06, 0x20, 0xc3, 0x06, 0x20, 0x19, 0x07, 0x20, 0x20,
        0x07, 0x20, 0x2d, 0x07, 0x4c, 0x38, 0x06, 0xa5, 0xff, 0xc9, 0x77, 0xf0, 0x0d, 0xc9,
        0x64, 0xf0, 0x14, 0xc9, 0x73, 0xf0, 0x1b, 0xc9, 0x61, 0xf0, 0x22, 0x60, 0xa9, 0x04,
        0x24, 0x02, 0xd0, 0x26, 0xa9, 0x01, 0x85, 0x02, 0x60, 0xa9, 0x08, 0x24, 0x02, 0xd0,
        0x1b, 0xa9, 0x02, 0x85, 0x02, 0x60, 0xa9, 0x01, 0x24, 0x02, 0xd0, 0x10, 0xa9, 0x04,
        0x85, 0x02, 0x60, 0xa9, 0x02, 0x24, 0x02, 0xd0, 0x05, 0xa9, 0x08, 0x85, 0x02, 0x60,
        0x60, 0x20, 0x94, 0x06, 0x20, 0xa8, 0x06, 0x60, 0xa5, 0x00, 0xc5, 0x10, 0xd0, 0x0d,
        0xa5, 0x01, 0xc5, 0x11, 0xd0, 0x07, 0xe6, 0x03, 0xe6, 0x03, 0x20, 0x2a, 0x06, 0x60,
        0xa2, 0x02, 0xb5, 0x10, 0xc5, 0x10, 0xd0, 0x06, 0xb5, 0x11, 0xc5, 0x11, 0xf0, 0x09,
        0xe8, 0xe8, 0xe4, 0x03, 0xf0, 0x06, 0x4c, 0xaa, 0x06, 0x4c, 0x35, 0x07, 0x60, 0xa6,
        0x03, 0xca, 0x8a, 0xb5, 0x10, 0x95, 0x12, 0xca, 0x10, 0xf9, 0xa5, 0x02, 0x4a, 0xb0,
        0x09, 0x4a, 0xb0, 0x19, 0x4a, 0xb0, 0x1f, 0x4a, 0xb0, 0x2f, 0xa5, 0x10, 0x38, 0xe9,
        0x20, 0x85, 0x10, 0x90, 0x01, 0x60, 0xc6, 0x11, 0xa9, 0x01, 0xc5, 0x11, 0xf0, 0x28,
        0x60, 0xe6, 0x10, 0xa9, 0x1f, 0x24, 0x10, 0xf0, 0x1f, 0x60, 0xa5, 0x10, 0x18, 0x69,
        0x20, 0x85, 0x10, 0xb0, 0x01, 0x60, 0xe6, 0x11, 0xa9, 0x06, 0xc5, 0x11, 0xf0, 0x0c,
        0x60, 0xc6, 0x10, 0xa5, 0x10, 0x29, 0x1f, 0xc9, 0x1f, 0xf0, 0x01, 0x60, 0x4c, 0x35,
        0x07, 0xa0, 0x00, 0xa5, 0xfe, 0x91, 0x00, 0x60, 0xa6, 0x03, 0xa9, 0x00, 0x81, 0x10,
        0xa2, 0x00, 0xa9, 0x01, 0x81, 0x10, 0x60, 0xa6, 0xff, 0xea, 0xea, 0xca, 0xd0, 0xfb,
        0x60,
    ];

    pu.load(game_code).unwrap();
    pu.reset();
}

#[test]
fn get_flag() {
    let mut flag = Flag::default();
    flag.reset();
    flag.negative = true;
    flag.b = true;

    println!("FLAG, {:b}", u8::from(flag));

    let q = u8::from(flag);
    let mut w = Flag::from(q);
    w.zero = false;

    assert_eq!(q, u8::from(w));
}

#[test]
fn eztest() {
    let mut c = CPU::new(Bus { memory: [0; 65536], cycles: 0 });

    let ezcode = vec![
        0xa9, 0x10, // LDA #$10     -> A = #$10
        0x85, 0x20, // STA $20      -> $20 = #$10
        0xa9, 0x01, // LDA #$1      -> A = #$1
        0x65, 0x20, // ADC $20      -> A = #$11
        0x85, 0x21, // STA $21      -> $21=#$11
        0xe6, 0x21, // INC $21      -> $21=#$12
        0xa4, 0x21, // LDY $21      -> Y=#$12
        0xc8, // INY          -> Y=#$13
        0x00, // BRK
    ];

    c.load(ezcode).unwrap();
    assert_eq!(c.run(1000, move |_cpu| {}), Ok(9));
    assert!(c.halted);
    assert_eq!(c.bus.read(0x20), 0x10);
    assert_eq!(c.bus.read(0x21), 0x12);
    assert_eq!(c.reg.a, 0x11);
    assert_eq!(c.reg.y, 0x13);
}

#[test]
fn status_byte_round_trip_all_values() {
    for v in 0..=255u8 {
        assert_eq!(u8::from(Flag::from(v)) & 0b1100_1111, v & 0b1100_1111);
        assert_eq!(u8::from(Flag::from(v)), v | 0b10_0000);
    }
}

#[test]
fn status_byte_layout() {
    let f = Flag::from(0b1000_0001);
    assert!(f.carry && f.negative);
    assert!(!f.zero && !f.interrupt_disable && !f.decimal && !f.b && !f.overflow);
    assert_eq!(u8::from(Flag::default()), 0b0010_0000);
}

#[test]
fn page_crossing_detection() {
    for a in [0x0000u16, 0x00FF, 0x1234, 0xFFFF] {
        assert!(!page_crossed(a, a));
    }
    assert!(page_crossed(0x10FF, 0x1100));
    assert!(page_crossed(0xFFFF, 0xFFFFu16.wrapping_add(1)));
    assert!(!page_crossed(0x1200, 0x12FF));
}

#[test]
fn join_bytes_low_first() {
    assert_eq!(join_bytes(0x34, 0x12), 0x1234);
}

#[test]
fn adc_signed_overflow_boundary() {
    let mut c = fresh_cpu();
    c.reg.a = 0x7F;
    c.flags.carry = false;
    adc(Data::Immediate(0x01), &mut c);
    assert_eq!(c.reg.a, 0x80);
    assert!(!c.flags.carry);
    assert!(c.flags.overflow);
    assert!(c.flags.negative);
    assert!(!c.flags.zero);
}

#[test]
fn adc_carry_out_and_zero() {
    let mut c = fresh_cpu();
    c.reg.a = 0xFF;
    c.flags.carry = true;
    c.bus.write(0x40, 0x01);
    adc(Data::Address(0x40), &mut c);
    assert_eq!(c.reg.a, 0x01);
    assert!(c.flags.carry);
    assert!(!c.flags.overflow);
    assert!(!c.flags.zero);
}

#[test]
fn sbc_borrow_wraps() {
    let mut c = fresh_cpu();
    c.reg.a = 0x00;
    c.flags.carry = true;
    sbc(Data::Immediate(0x01), &mut c);
    assert_eq!(c.reg.a, 0xFF);
    assert!(!c.flags.carry);
    assert!(c.flags.negative);
}

#[test]
fn stack_round_trip_16_bits() {
    for v in [0x0000u16, 0x00FF, 0x1234, 0xFFFF] {
        let mut c = fresh_cpu();
        let sp = c.reg.sp;
        c.stack_push16(v);
        assert_eq!(c.reg.sp, sp.wrapping_sub(2));
        assert_eq!(c.stack_pop16(), v);
        assert_eq!(c.reg.sp, sp);
    }
}

#[test]
fn stack_wraps_within_its_page() {
    let mut c = fresh_cpu();
    c.reg.sp = 0x00;
    c.stack_push(0xAB);
    assert_eq!(c.bus.read(0x0100), 0xAB);
    assert_eq!(c.reg.sp, 0xFF);
    assert_eq!(c.stack_pop(), 0xAB);
    assert_eq!(c.reg.sp, 0x00);
}

#[test]
fn call_then_return_resumes_after_call() {
    let mut c = fresh_cpu();
    // JSR $0610 ; BRK ... at $0610: RTS
    let mut image = vec![0xEAu8; 0x11];
    image[0] = 0x20;
    image[1] = 0x10;
    image[2] = 0x06;
    image[3] = 0x00;
    image[0x10] = 0x60;
    c.load(image).unwrap();
    c.exec().unwrap();
    assert_eq!(c.pc, 0x0610);
    c.exec().unwrap();
    assert_eq!(c.pc, 0x0603);
    assert_eq!(c.reg.sp, 0xfd);
}

#[test]
fn branch_timing() {
    let mut c = fresh_cpu();
    c.pc = 0x06F0;
    c.branch(0x20, false);
    assert_eq!(c.bus.cycles, 0);
    assert_eq!(c.pc, 0x06F0);

    c.branch(0x05, true);
    assert_eq!(c.bus.cycles, 1);
    assert_eq!(c.pc, 0x06F5);

    c.branch(0x20, true);
    assert_eq!(c.bus.cycles, 3);
    assert_eq!(c.pc, 0x0715);

    c.branch(-0x20, true);
    assert_eq!(c.bus.cycles, 5);
    assert_eq!(c.pc, 0x06F5);
}

#[test]
fn branch_page_cross_counts_from_next_instruction() {
    // Displacement byte at $06FF: the next instruction is at $0700.
    let mut c = fresh_cpu();
    c.pc = 0x06FF;
    c.branch(-1, true);
    // Target $06FF lies on another page than $0700.
    assert_eq!(c.bus.cycles, 2);
    assert_eq!(c.pc.wrapping_add(1), 0x06FF);

    let mut c = fresh_cpu();
    c.pc = 0x06FF;
    c.branch(0x10, true);
    // Target $0710 shares the page of $0700.
    assert_eq!(c.bus.cycles, 1);
    assert_eq!(c.pc.wrapping_add(1), 0x0710);
}

#[test]
fn run_reports_unknown_opcode_before_callback() {
    let mut c = fresh_cpu();
    c.load(vec![0x02]).unwrap();
    let mut calls = 0u32;
    assert_eq!(c.run(10, |_cpu| calls += 1), Err(ExecError::UnknownOpcode(0x02)));
    assert_eq!(calls, 0);
    assert_eq!(c.pc, 0x0600);
}

#[test]
fn run_on_halted_machine_does_nothing() {
    let mut c = fresh_cpu();
    c.load(vec![0xEA, 0x00]).unwrap();
    c.halted = true;
    assert_eq!(c.run(10, |_cpu| {}), Ok(0));
    assert_eq!(c.pc, 0x0600);
    c.halted = false;
    assert_eq!(c.run(0, |_cpu| {}), Ok(0));
    assert_eq!(c.pc, 0x0600);
}

#[test]
fn taken_branch_in_a_program() {
    let mut c = fresh_cpu();
    // LDX #$00 ; BEQ +2 ; BRK ; BRK ; LDA #$07 ; BRK
    c.load(vec![0xA2, 0x00, 0xF0, 0x02, 0x00, 0x00, 0xA9, 0x07, 0x00]).unwrap();
    assert_eq!(c.run_for(100), Ok(4));
    assert_eq!(c.reg.a, 0x07);
    // 2 (LDX) + 2 + 1 (taken BEQ) + 2 (LDA) + 7 (BRK)
    assert_eq!(c.bus.cycles, 14);
}

#[test]
fn unknown_opcode_stops_without_effect() {
    let mut c = fresh_cpu();
    c.load(vec![0xA9, 0x05, 0x02, 0xA9, 0x09]).unwrap();
    assert_eq!(c.run_for(100), Err(ExecError::UnknownOpcode(0x02)));
    assert_eq!(c.pc, 0x0602);
    assert_eq!(c.reg.a, 0x05);
    let memory = c.bus.memory;
    let (reg, flags, cycles) = (c.reg, c.flags, c.bus.cycles);
    assert_eq!(c.exec(), Err(ExecError::UnknownOpcode(0x02)));
    assert_eq!(c.pc, 0x0602);
    assert_eq!(c.reg, reg);
    assert_eq!(c.flags, flags);
    assert_eq!(c.bus.cycles, cycles);
    assert!(c.bus.memory == memory);
    assert!(!c.halted);
}

#[test]
fn lookup_table_entries() {
    assert_eq!(lookup(0x02), None);
    let brk = lookup(0x00).unwrap();
    assert_eq!((brk.op, brk.mode, brk.cycles), (Op::Brk, Addrmode::Impl, 7));
    let lda = lookup(0xB1).unwrap();
    assert_eq!((lda.op, lda.mode, lda.cycles), (Op::Lda, Addrmode::IndY, 5));
    let known = (0..=255u8).filter(|&b| lookup(b).is_some()).count();
    assert_eq!(known, 151);
}

#[test]
fn load_rejects_oversized_image() {
    let mut c = fresh_cpu();
    c.bus.write(0x0600, 0x42);
    let image = vec![0xEAu8; 0x10000 - 0x0600 + 1];
    assert_eq!(c.load(image), Err(LoadError::TooLarge));
    assert_eq!(c.bus.read(0x0600), 0x42);
    assert_eq!(c.bus.read(0xFFFC), 0x00);
    assert_eq!(c.pc, 0);
}

#[test]
fn load_largest_image_then_reset_vector() {
    let mut c = fresh_cpu();
    let image = vec![0xEAu8; 0x10000 - 0x0600];
    assert_eq!(c.load(image), Ok(()));
    assert_eq!(c.bus.read(0xFFFF), 0xEA);
    assert_eq!(c.bus.read(0xFFFC), 0x00);
    assert_eq!(c.bus.read(0xFFFD), 0x06);
    assert_eq!(c.pc, 0x0600);
    assert_eq!(c.reg.sp, 0xfd);
    assert!(c.flags.interrupt_disable);
}

#[test]
fn indexed_modes_and_page_penalty() {
    let mut c = fresh_cpu();
    c.bus.write(0x1100, 0x77);
    // LDX #$01 ; LDA $10FF,X ; BRK
    c.load(vec![0xA2, 0x01, 0xBD, 0xFF, 0x10, 0x00]).unwrap();
    assert_eq!(c.run_for(10), Ok(3));
    assert_eq!(c.reg.a, 0x77);
    assert_eq!(c.bus.cycles, 2 + 4 + 1 + 7);
}

#[test]
fn zero_page_index_wraps() {
    let mut c = fresh_cpu();
    c.bus.write(0x0001, 0x33);
    c.bus.write(0x0101, 0x44);
    // LDX #$02 ; LDA $FF,X ; BRK
    c.load(vec![0xA2, 0x02, 0xB5, 0xFF, 0x00]).unwrap();
    c.run_for(10).unwrap();
    assert_eq!(c.reg.a, 0x33);
}

#[test]
fn indirect_modes_read_pointers() {
    let mut c = fresh_cpu();
    c.bus.write(0x00FF, 0x00);
    c.bus.write(0x0000, 0x20);
    c.bus.write(0x2005, 0x5A);
    c.bus.write(0x0044, 0x10);
    c.bus.write(0x0045, 0x30);
    c.bus.write(0x3010, 0xA5);
    // LDY #$05 ; LDA ($FF),Y ; TAX ; LDX #$04 ; LDA ($40,X) ; BRK
    c.load(vec![0xA0, 0x05, 0xB1, 0xFF, 0xAA, 0xA2, 0x04, 0xA1, 0x40, 0x00]).unwrap();
    c.run_for(10).unwrap();
    assert_eq!(c.reg.x, 0x04);
    assert_eq!(c.reg.a, 0xA5);
    c.halted = false;
    c.load(vec![0xA0, 0x05, 0xB1, 0xFF, 0x00]).unwrap();
    c.run_for(10).unwrap();
    assert_eq!(c.reg.a, 0x5A);
}

#[test]
fn jump_indirect() {
    let mut c = fresh_cpu();
    c.bus.write(0x0300, 0x10);
    c.bus.write(0x0301, 0x06);
    // JMP ($0300) ; ... at $0610: LDA #$2A ; BRK
    let mut image = vec![0x00u8; 0x13];
    image[0] = 0x6C;
    image[1] = 0x00;
    image[2] = 0x03;
    image[0x10] = 0xA9;
    image[0x11] = 0x2A;
    image[0x12] = 0x00;
    c.load(image).unwrap();
    c.run_for(10).unwrap();
    assert_eq!(c.reg.a, 0x2A);
}

#[test]
fn load_x_sets_flags_from_x() {
    let mut c = fresh_cpu();
    // LDY #$01 ; LDX #$00 ; BRK
    c.load(vec![0xA0, 0x01, 0xA2, 0x00, 0x00]).unwrap();
    c.run_for(10).unwrap();
    assert!(c.flags.zero);
    assert!(!c.flags.negative);
}

#[test]
fn shifts_on_memory_and_accumulator() {
    let mut c = fresh_cpu();
    c.bus.write(0x10, 0x81);
    // ASL $10 ; LDA #$81 ; LSR A ; BRK
    c.load(vec![0x06, 0x10, 0xA9, 0x81, 0x4A, 0x00]).unwrap();
    c.run_for(10).unwrap();
    assert_eq!(c.bus.read(0x10), 0x02);
    assert_eq!(c.reg.a, 0x40);
    assert!(c.flags.carry);
    assert!(!c.flags.zero);
}

#[test]
fn rotates_through_carry() {
    let mut c = fresh_cpu();
    // SEC ; LDA #$80 ; ROL A ; BRK
    c.load(vec![0x38, 0xA9, 0x80, 0x2A, 0x00]).unwrap();
    c.run_for(10).unwrap();
    assert_eq!(c.reg.a, 0x01);
    assert!(c.flags.carry);
    // SEC ; LDA #$01 ; ROR A ; BRK
    let mut c = fresh_cpu();
    c.load(vec![0x38, 0xA9, 0x01, 0x6A, 0x00]).unwrap();
    c.run_for(10).unwrap();
    assert_eq!(c.reg.a, 0x80);
    assert!(c.flags.carry);
    assert!(c.flags.negative);
}

#[test]
fn compare_sets_three_flags() {
    let mut c = fresh_cpu();
    // LDA #$10 ; CMP #$20 ; BRK
    c.load(vec![0xA9, 0x10, 0xC9, 0x20, 0x00]).unwrap();
    c.run_for(10).unwrap();
    assert!(!c.flags.zero);
    assert!(!c.flags.carry);
    assert!(c.flags.negative);
    // LDX #$20 ; CPX #$20 ; BRK
    let mut c = fresh_cpu();
    c.load(vec![0xA2, 0x20, 0xE0, 0x20, 0x00]).unwrap();
    c.run_for(10).unwrap();
    assert!(c.flags.zero);
    assert!(c.flags.carry);
    assert!(!c.flags.negative);
}

#[test]
fn status_push_and_pull() {
    let mut c = fresh_cpu();
    // SEC ; PHP ; CLC ; PLP ; BRK
    c.load(vec![0x38, 0x08, 0x18, 0x28, 0x00]).unwrap();
    c.run_for(10).unwrap();
    assert_eq!(c.bus.read(0x01FD), 0b0011_0101);
    assert!(c.flags.carry);
    assert!(!c.flags.b);
    assert!(c.flags.interrupt_disable);
}

#[test]
fn accumulator_push_and_pull() {
    let mut c = fresh_cpu();
    // LDA #$99 ; PHA ; LDA #$00 ; PLA ; BRK
    c.load(vec![0xA9, 0x99, 0x48, 0xA9, 0x00, 0x68, 0x00]).unwrap();
    c.run_for(10).unwrap();
    assert_eq!(c.reg.a, 0x99);
    assert!(c.flags.negative);
    assert_eq!(c.reg.sp, 0xfd);
}

#[test]
fn bit_test_flags() {
    let mut c = fresh_cpu();
    c.bus.write(0x10, 0xC0);
    // LDA #$01 ; BIT $10 ; BRK
    c.load(vec![0xA9, 0x01, 0x24, 0x10, 0x00]).unwrap();
    c.run_for(10).unwrap();
    assert!(c.flags.zero);
    assert!(c.flags.negative);
    assert!(c.flags.overflow);
}

#[test]
fn run_hands_each_step_to_callback() {
    let mut c = fresh_cpu();
    // NOP ; LDA $FE ; STA $10 ; BRK
    c.load(vec![0xEA, 0xA5, 0xFE, 0x85, 0x10, 0x00]).unwrap();
    let mut seen = Vec::new();
    let r = c.run(100, |cpu| {
        seen.push(cpu.pc);
        cpu.bus.write(0xFE, 0x3C);
    });
    assert_eq!(r, Ok(4));
    assert_eq!(seen, vec![0x0601, 0x0603, 0x0605, 0x0606]);
    assert_eq!(c.bus.read(0x10), 0x3C);
}

#[test]
fn callback_can_stop_the_run() {
    let mut c = fresh_cpu();
    c.load(vec![0x4C, 0x00, 0x06]).unwrap();
    assert_eq!(c.run(1000, |cpu| cpu.halted = true), Ok(1));
}

#[test]
fn run_stops_at_budget() {
    let mut c = fresh_cpu();
    // JMP $0600, forever
    c.load(vec![0x4C, 0x00, 0x06]).unwrap();
    assert_eq!(c.run_for(25), Ok(25));
    assert!(!c.halted);
    assert_eq!(c.pc, 0x0600);
    assert_eq!(c.bus.cycles, 75);
}

#[test]
fn tick_accumulates_cycles() {
    let mut b = Bus::default();
    b.tick(3);
    b.tick(4);
    assert_eq!(b.cycles, 7);
    b.write(0xFFFF, 9);
    assert_eq!(b.read(0xFFFF), 9);
}
