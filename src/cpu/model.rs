use vstd::prelude::*;
use crate::bus::add_cycles;
use crate::cpu::instructions::{Addrmode, Data, Instr, Op, crosses_page, word};
use crate::cpu::lookup_table::decode;
use crate::cpu::registers::{Flag, Registers, bit_of, flag_byte, flags_of, with_zero_negative};
use crate::cpu::ExecError;

verus! {

/// The state of the emulated machine as a mathematical value.
pub struct Machine {
    pub mem: Seq<u8>,
    pub cycles: u64,
    pub pc: u16,
    pub flags: Flag,
    pub reg: Registers,
    pub halted: bool,
}

/// `x` taken modulo 2^16.
pub open spec fn wrap16(x: int) -> u16 {
    (x % 0x10000) as u16
}

/// `x` taken modulo 2^8.
pub open spec fn wrap8(x: int) -> u8 {
    (x % 0x100) as u8
}

/// The byte `b` read as a two's-complement number.
pub open spec fn signed(b: u8) -> int {
    if b < 0x80 {
        b as int
    } else {
        b - 0x100
    }
}

/// The address of the stack slot that the stack pointer `sp` designates.
pub open spec fn stack_slot(sp: u8) -> int {
    0x100 + sp
}

/// The address that an operand designates.
pub open spec fn target(d: Data) -> u16 {
    match d {
        Data::Address(a) => a,
        Data::Immediate(v) => v,
    }
}

/// The value of an operand: the immediate byte, or the byte at the address.
pub open spec fn operand_value(d: Data, m: Machine) -> u8 {
    match d {
        Data::Immediate(v) => v as u8,
        Data::Address(a) => m.mem[a as int],
    }
}

/// The operand that `mode` resolves to from the bytes after the opcode, whether
/// an indexed addition crossed a page, and the program counter after the
/// operand bytes were consumed.
pub open spec fn resolve(mode: Addrmode, m: Machine) -> (Data, bool, u16) {
    let pc1 = wrap16(m.pc + 1);
    let pc2 = wrap16(m.pc + 2);
    let b1 = m.mem[pc1 as int];
    let abs = word(b1, m.mem[pc2 as int]);
    match mode {
        Addrmode::A => (Data::Immediate(m.reg.a as u16), false, m.pc),
        Addrmode::Imm | Addrmode::Rel => (Data::Immediate(b1 as u16), false, pc1),
        Addrmode::Zpg => (Data::Address(b1 as u16), false, pc1),
        Addrmode::ZpgX => (Data::Address(wrap8(b1 + m.reg.x) as u16), false, pc1),
        Addrmode::ZpgY => (Data::Address(wrap8(b1 + m.reg.y) as u16), false, pc1),
        Addrmode::Abs => (Data::Address(abs), false, pc2),
        Addrmode::AbsX => {
            let t = wrap16(abs + m.reg.x);
            (Data::Address(t), crosses_page(abs, t), pc2)
        },
        Addrmode::AbsY => {
            let t = wrap16(abs + m.reg.y);
            (Data::Address(t), crosses_page(abs, t), pc2)
        },
        Addrmode::Ind => (
            Data::Address(word(m.mem[abs as int], m.mem[wrap16(abs + 1) as int])),
            false,
            pc2,
        ),
        Addrmode::XInd => {
            let ptr = wrap8(b1 + m.reg.x);
            (Data::Address(word(m.mem[ptr as int], m.mem[wrap8(ptr + 1) as int])), false, pc1)
        },
        Addrmode::IndY => {
            let base = word(m.mem[b1 as int], m.mem[wrap8(b1 + 1) as int]);
            let t = wrap16(base + m.reg.y);
            (Data::Address(t), crosses_page(base, t), pc1)
        },
        Addrmode::Impl => (Data::Address(0), false, m.pc),
    }
}

pub open spec fn with_flags(m: Machine, f: Flag) -> Machine {
    Machine { flags: f, ..m }
}

pub open spec fn store(m: Machine, a: u16, v: u8) -> Machine {
    Machine { mem: m.mem.update(a as int, v), ..m }
}

/// Loads the accumulator with `v`, setting zero and negative from it.
pub open spec fn load_a(m: Machine, v: u8) -> Machine {
    Machine { reg: Registers { a: v, ..m.reg }, flags: with_zero_negative(m.flags, v), ..m }
}

pub open spec fn load_x(m: Machine, v: u8) -> Machine {
    Machine { reg: Registers { x: v, ..m.reg }, flags: with_zero_negative(m.flags, v), ..m }
}

pub open spec fn load_y(m: Machine, v: u8) -> Machine {
    Machine { reg: Registers { y: v, ..m.reg }, flags: with_zero_negative(m.flags, v), ..m }
}

/// Adds `v` and the carry to the accumulator.
pub open spec fn add_with_carry(m: Machine, v: u8) -> Machine {
    let sum = m.reg.a + v + bit_of(m.flags.carry);
    let r = wrap8(sum);
    Machine {
        reg: Registers { a: r, ..m.reg },
        flags: Flag {
            carry: sum > 0xFF,
            overflow: (v ^ r) & (m.reg.a ^ r) & 0x80 != 0,
            ..with_zero_negative(m.flags, r)
        },
        ..m
    }
}

/// The overflow flag of an addition is set exactly when both inputs have the
/// same sign and the result has the other one.
pub proof fn lemma_overflow_is_sign_change(m: Machine, v: u8)
    ensures
        add_with_carry(m, v).flags.overflow == ((m.reg.a >= 0x80) == (v >= 0x80) && (
        add_with_carry(m, v).reg.a >= 0x80) != (v >= 0x80)),
{
    let a = m.reg.a;
    let r = add_with_carry(m, v).reg.a;
    assert(((v ^ r) & (a ^ r) & 0x80 != 0) == ((a & 0x80 == v & 0x80) && (r & 0x80 != v & 0x80)))
        by (bit_vector);
    assert((a & 0x80 == 0) == (a < 0x80)) by (bit_vector);
    assert((v & 0x80 == 0) == (v < 0x80)) by (bit_vector);
    assert((r & 0x80 == 0) == (r < 0x80)) by (bit_vector);
    assert((a & 0x80 == 0x80) == (a >= 0x80)) by (bit_vector);
    assert((v & 0x80 == 0x80) == (v >= 0x80)) by (bit_vector);
    assert((r & 0x80 == 0x80) == (r >= 0x80)) by (bit_vector);
    assert(a & 0x80 == 0 || a & 0x80 == 0x80) by (bit_vector);
    assert(v & 0x80 == 0 || v & 0x80 == 0x80) by (bit_vector);
    assert(r & 0x80 == 0 || r & 0x80 == 0x80) by (bit_vector);
}

/// Compares register value `r` with `v`.
pub open spec fn compare(m: Machine, r: u8, v: u8) -> Machine {
    with_flags(m, Flag { zero: r == v, carry: r >= v, negative: wrap8(r - v) >= 0x80, ..m.flags })
}

/// The result of a shift or rotate of `v` with carry in `c`, and the bit shifted out.
pub open spec fn shifted(op: Op, v: u8, c: bool) -> (u8, bool) {
    match op {
        Op::Asl => (wrap8(2 * v), v >= 0x80),
        Op::Rol => (wrap8(2 * v + bit_of(c)), v >= 0x80),
        Op::Lsr => (v / 2, v % 2 == 1),
        _ => ((v / 2 + if c {
            0x80int
        } else {
            0
        }) as u8, v % 2 == 1),
    }
}

/// A shift or rotate: of the accumulator for an immediate operand, else of the
/// byte at the operand's address, which receives the result.
pub open spec fn shift(op: Op, d: Data, m: Machine) -> Machine {
    let (r, c) = shifted(op, operand_value(d, m), m.flags.carry);
    let m1 = match d {
        Data::Immediate(_) => Machine { reg: Registers { a: r, ..m.reg }, ..m },
        Data::Address(a) => store(m, a, r),
    };
    with_flags(m1, Flag { carry: c, ..with_zero_negative(m.flags, r) })
}

pub open spec fn push(m: Machine, v: u8) -> Machine {
    Machine {
        mem: m.mem.update(stack_slot(m.reg.sp), v),
        reg: Registers { sp: wrap8(m.reg.sp - 1), ..m.reg },
        ..m
    }
}

/// Pushes the high byte of `v`, then its low byte.
pub open spec fn push16(m: Machine, v: u16) -> Machine {
    push(push(m, (v / 256) as u8), (v % 256) as u8)
}

/// The byte that a pop returns.
pub open spec fn top(m: Machine) -> u8 {
    m.mem[stack_slot(wrap8(m.reg.sp + 1))]
}

/// The machine after a pop.
pub open spec fn popped(m: Machine) -> Machine {
    Machine { reg: Registers { sp: wrap8(m.reg.sp + 1), ..m.reg }, ..m }
}

/// The 16-bit value that two pops return, low byte first.
pub open spec fn top16(m: Machine) -> u16 {
    word(top(m), top(popped(m)))
}

/// A branch by displacement `w`, taken when `c` holds, the program counter
/// standing on the displacement byte: one extra cycle, and one more when the
/// instruction after the branch and the target lie on different pages. The
/// program counter is left one byte before the target, where the step's final
/// increment completes the jump.
pub open spec fn branch_to(m: Machine, w: int, c: bool) -> Machine {
    if !c {
        m
    } else {
        let t = wrap16(m.pc + w);
        Machine {
            pc: t,
            cycles: add_cycles(
                m.cycles,
                if crosses_page(wrap16(m.pc + 1), wrap16(t + 1)) {
                    2
                } else {
                    1
                },
            ),
            ..m
        }
    }
}

/// What instruction `op` does with operand `d`, the program counter standing on
/// its last operand byte.
#[verifier::opaque]
pub open spec fn effect(op: Op, d: Data, m: Machine) -> Machine {
    let v = operand_value(d, m);
    let f = m.flags;
    let r = m.reg;
    match op {
        Op::Adc => add_with_carry(m, v),
        Op::Sbc => add_with_carry(m, (0xFF - v) as u8),
        Op::Inc => with_flags(
            store(m, target(d), wrap8(v + 1)),
            with_zero_negative(f, wrap8(v + 1)),
        ),
        Op::Dec => with_flags(
            store(m, target(d), wrap8(v - 1)),
            with_zero_negative(f, wrap8(v - 1)),
        ),
        Op::Inx => load_x(m, wrap8(r.x + 1)),
        Op::Iny => load_y(m, wrap8(r.y + 1)),
        Op::Dex => load_x(m, wrap8(r.x - 1)),
        Op::Dey => load_y(m, wrap8(r.y - 1)),
        Op::Lda => load_a(m, v),
        Op::Ldx => load_x(m, v),
        Op::Ldy => load_y(m, v),
        Op::Sta => store(m, target(d), r.a),
        Op::Stx => store(m, target(d), r.x),
        Op::Sty => store(m, target(d), r.y),
        Op::Tax => load_x(m, r.a),
        Op::Tay => load_y(m, r.a),
        Op::Tsx => load_x(m, r.sp),
        Op::Txa => load_a(m, r.x),
        Op::Tya => load_a(m, r.y),
        Op::Txs => Machine { reg: Registers { sp: r.x, ..r }, ..m },
        Op::Pha => push(m, r.a),
        Op::Php => push(m, flag_byte(f) | 0b11_0000),
        Op::Pla => load_a(popped(m), top(m)),
        Op::Plp => with_flags(popped(m), flags_of(top(m) & 0b1100_1111)),
        Op::And => load_a(m, r.a & v),
        Op::Eor => load_a(m, r.a ^ v),
        Op::Ora => load_a(m, r.a | v),
        Op::Asl | Op::Lsr | Op::Rol | Op::Ror => shift(op, d, m),
        Op::Clc => with_flags(m, Flag { carry: false, ..f }),
        Op::Cld => with_flags(m, Flag { decimal: false, ..f }),
        Op::Cli => with_flags(m, Flag { interrupt_disable: false, ..f }),
        Op::Clv => with_flags(m, Flag { overflow: false, ..f }),
        Op::Sec => with_flags(m, Flag { carry: true, ..f }),
        Op::Sed => with_flags(m, Flag { decimal: true, ..f }),
        Op::Sei => with_flags(m, Flag { interrupt_disable: true, ..f }),
        Op::Cmp => compare(m, r.a, v),
        Op::Cpx => compare(m, r.x, v),
        Op::Cpy => compare(m, r.y, v),
        Op::Bcc => branch_to(m, signed(v), !f.carry),
        Op::Bcs => branch_to(m, signed(v), f.carry),
        Op::Beq => branch_to(m, signed(v), f.zero),
        Op::Bne => branch_to(m, signed(v), !f.zero),
        Op::Bmi => branch_to(m, signed(v), f.negative),
        Op::Bpl => branch_to(m, signed(v), !f.negative),
        Op::Bvs => branch_to(m, signed(v), f.overflow),
        Op::Bvc => branch_to(m, signed(v), !f.overflow),
        Op::Jmp => Machine { pc: wrap16(target(d) - 1), ..m },
        Op::Jsr => Machine { pc: wrap16(target(d) - 1), ..push16(m, wrap16(m.pc + 1)) },
        Op::Rts => Machine { pc: wrap16(top16(m) - 1), ..popped(popped(m)) },
        Op::Brk => Machine { halted: true, ..m },
        Op::Bit => with_flags(
            m,
            Flag { zero: r.a & v == 0, negative: v >= 0x80, overflow: v & 0x40 != 0, ..f },
        ),
        Op::Rti | Op::Nop => m,
    }
}

/// One fetch, decode and execute from state `m`: the opcode at the program
/// counter is looked up, its operand resolved, its cycles charged, the
/// instruction applied and the program counter advanced by one.
#[verifier::opaque]
pub open spec fn step(m: Machine) -> Result<Machine, ExecError> {
    let opcode = m.mem[m.pc as int];
    match decode(opcode) {
        None => Err(ExecError::UnknownOpcode(opcode)),
        Some(i) => {
            let (d, crossed, pc) = resolve(i.mode, m);
            let charged = i.cycles + if crossed {
                1int
            } else {
                0
            };
            let m2 = effect(i.op, d, Machine { pc, cycles: add_cycles(m.cycles, charged), ..m });
            Ok(Machine { pc: wrap16(m2.pc + 1), ..m2 })
        },
    }
}

/// Steps from `m` until the machine halts, a step fails, or `fuel` steps were
/// made: the last state, the failure if one came, and the number of steps made.
pub open spec fn run_spec(m: Machine, fuel: nat) -> (Machine, Option<ExecError>, nat)
    decreases fuel,
{
    if m.halted || fuel == 0 {
        (m, None, 0)
    } else {
        match step(m) {
            Err(e) => (m, Some(e), 0),
            Ok(m1) => {
                let (last, err, n) = run_spec(m1, (fuel - 1) as nat);
                (last, err, n + 1)
            },
        }
    }
}

/// Popping 16 bits right after pushing them gives the pushed value back and
/// restores the stack pointer.
pub proof fn lemma_stack_round_trip(m: Machine, v: u16)
    requires
        m.mem.len() == 0x10000,
    ensures
        top16(push16(m, v)) == v,
        popped(popped(push16(m, v))).reg.sp == m.reg.sp,
{
    let m1 = push(m, (v / 256) as u8);
    let m2 = push(m1, (v % 256) as u8);
    assert(wrap8(m2.reg.sp + 1) == m1.reg.sp);
    assert(wrap8(m1.reg.sp + 1) == m.reg.sp);
    assert(top(m2) == (v % 256) as u8);
    assert(top(popped(m2)) == (v / 256) as u8);
}

proof fn lemma_call_step(m: Machine)
    requires
        m.mem[m.pc as int] == 0x20,
    ensures
        step(m) == Ok::<Machine, ExecError>(
            Machine {
                pc: wrap16(
                    wrap16(word(m.mem[wrap16(m.pc + 1) as int], m.mem[wrap16(m.pc + 2) as int]) - 1)
                        + 1,
                ),
                ..push16(
                    Machine { pc: wrap16(m.pc + 2), cycles: add_cycles(m.cycles, 6), ..m },
                    wrap16(wrap16(m.pc + 2) + 1),
                )
            },
        ),
{
    assert(decode(0x20) == Some(Instr { op: Op::Jsr, mode: Addrmode::Abs, cycles: 6 })) by {
        reveal(decode);
    }
    reveal(effect);
    reveal(step);
}

proof fn lemma_return_step(c: Machine)
    requires
        c.mem[c.pc as int] == 0x60,
    ensures
        step(c) == Ok::<Machine, ExecError>(
            Machine {
                pc: wrap16(wrap16(top16(c) - 1) + 1),
                ..popped(popped(Machine { cycles: add_cycles(c.cycles, 6), ..c }))
            },
        ),
{
    assert(decode(0x60) == Some(Instr { op: Op::Rts, mode: Addrmode::Impl, cycles: 6 })) by {
        reveal(decode);
    }
    reveal(effect);
    reveal(step);
}

/// A call to `T` followed by a return resumes at the instruction after the call:
/// the call lands on `T`, and when `T` holds a return, the return lands three
/// bytes after the call.
pub proof fn lemma_call_return(m: Machine)
    requires
        m.mem.len() == 0x10000,
        m.mem[m.pc as int] == 0x20,
    ensures
        step(m) is Ok,
        step(m)->Ok_0.pc == word(m.mem[wrap16(m.pc + 1) as int], m.mem[wrap16(m.pc + 2) as int]),
        step(m)->Ok_0.mem[step(m)->Ok_0.pc as int] == 0x60 ==> step(step(m)->Ok_0) is Ok && step(
            step(m)->Ok_0,
        )->Ok_0.pc == wrap16(m.pc + 3),
{
    lemma_call_step(m);
    let m1 = Machine { pc: wrap16(m.pc + 2), cycles: add_cycles(m.cycles, 6), ..m };
    let ret = wrap16(wrap16(m.pc + 2) + 1);
    assert(ret == wrap16(m.pc + 3));
    lemma_stack_round_trip(m1, ret);
    let c = step(m)->Ok_0;
    if c.mem[c.pc as int] == 0x60 {
        lemma_return_step(c);
        assert(top16(c) == ret);
    }
}

} // verus!
