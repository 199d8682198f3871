use vstd::prelude::*;
use crate::cpu::instructions::{Data, Op, needs_address};
use crate::cpu::model::{Machine, add_with_carry, compare, effect, store, with_flags};
use crate::cpu::registers::{Flag, Registers, with_zero_negative};
use crate::cpu::CPU;

verus! {

fn add_to_accumulator(w: u8, cpu: &mut CPU)
    ensures
        final(cpu)@ == add_with_carry(old(cpu)@, w),
{
    let carry: u16 = if cpu.flags.carry {
        1
    } else {
        0
    };
    let sum: u16 = cpu.reg.a as u16 + w as u16 + carry;
    let result = (sum % 0x100) as u8;
    cpu.flags.carry = sum > 0xFF;
    cpu.flags.set_zero_negative(result);
    cpu.flags.overflow = (w ^ result) & (cpu.reg.a ^ result) & 0x80 != 0;
    cpu.reg.a = result;
}

fn compare_with(r: u8, w: u8, cpu: &mut CPU)
    ensures
        final(cpu)@ == compare(old(cpu)@, r, w),
{
    cpu.flags.zero = w == r;
    cpu.flags.carry = r >= w;
    cpu.flags.negative = r.wrapping_sub(w) >= 0x80;
}

/// Puts the result `r` of a shift or rotate where its operand came from, and
/// sets the carry to `c` and zero and negative from `r`.
fn store_shifted(d: Data, r: u8, c: bool, cpu: &mut CPU)
    ensures
        final(cpu)@ == with_flags(
            match d {
                Data::Immediate(_) => Machine { reg: Registers { a: r, ..old(cpu)@.reg }, ..old(cpu)@ },
                Data::Address(a) => store(old(cpu)@, a, r),
            },
            Flag { carry: c, ..with_zero_negative(old(cpu).flags, r) },
        ),
{
    match d {
        Data::Immediate(_) => {
            cpu.reg.a = r;
        },
        Data::Address(a) => {
            cpu.bus.write(a, r);
        },
    }
    cpu.flags.carry = c;
    cpu.flags.set_zero_negative(r);
}

/// Adds the operand and the carry to the accumulator.
pub fn adc(d: Data, cpu: &mut CPU)
    ensures
        final(cpu)@ == effect(Op::Adc, d, old(cpu)@),
{
    proof {
        reveal(effect);
    }
    let w = Data::default_unwrap(d, cpu);
    add_to_accumulator(w, cpu);
}

/// Subtracts the operand and the borrow (a clear carry) from the accumulator.
pub fn sbc(d: Data, cpu: &mut CPU)
    ensures
        final(cpu)@ == effect(Op::Sbc, d, old(cpu)@),
{
    proof {
        reveal(effect);
    }
    let w = Data::default_unwrap(d, cpu);
    add_to_accumulator(0xFF - w, cpu);
}

pub fn inc(d: Data, cpu: &mut CPU)
    requires
        d is Address,
    ensures
        final(cpu)@ == effect(Op::Inc, d, old(cpu)@),
{
    proof {
        reveal(effect);
    }
    let q = Data::default_unwrap(d, cpu).wrapping_add(1);
    let addr = Data::address_unwrap(d);
    cpu.bus.write(addr, q);
    cpu.flags.set_zero_negative(q);
}

pub fn inx(d: Data, cpu: &mut CPU)
    ensures
        final(cpu)@ == effect(Op::Inx, d, old(cpu)@),
{
    proof {
        reveal(effect);
    }
    cpu.reg.x = cpu.reg.x.wrapping_add(1);
    cpu.flags.set_zero_negative(cpu.reg.x);
}

pub fn iny(d: Data, cpu: &mut CPU)
    ensures
        final(cpu)@ == effect(Op::Iny, d, old(cpu)@),
{
    proof {
        reveal(effect);
    }
    cpu.reg.y = cpu.reg.y.wrapping_add(1);
    cpu.flags.set_zero_negative(cpu.reg.y);
}

pub fn dex(d: Data, cpu: &mut CPU)
    ensures
        final(cpu)@ == effect(Op::Dex, d, old(cpu)@),
{
    proof {
        reveal(effect);
    }
    cpu.reg.x = cpu.reg.x.wrapping_sub(1);
    cpu.flags.set_zero_negative(cpu.reg.x);
}

pub fn dey(d: Data, cpu: &mut CPU)
    ensures
        final(cpu)@ == effect(Op::Dey, d, old(cpu)@),
{
    proof {
        reveal(effect);
    }
    cpu.reg.y = cpu.reg.y.wrapping_sub(1);
    cpu.flags.set_zero_negative(cpu.reg.y);
}

pub fn dec(d: Data, cpu: &mut CPU)
    requires
        d is Address,
    ensures
        final(cpu)@ == effect(Op::Dec, d, old(cpu)@),
{
    proof {
        reveal(effect);
    }
    let q = Data::default_unwrap(d, cpu).wrapping_sub(1);
    let addr = Data::address_unwrap(d);
    cpu.bus.write(addr, q);
    cpu.flags.set_zero_negative(q);
}

pub fn ldy(d: Data, cpu: &mut CPU)
    ensures
        final(cpu)@ == effect(Op::Ldy, d, old(cpu)@),
{
    proof {
        reveal(effect);
    }
    cpu.reg.y = Data::default_unwrap(d, cpu);
    cpu.flags.set_zero_negative(cpu.reg.y);
}

pub fn ldx(d: Data, cpu: &mut CPU)
    ensures
        final(cpu)@ == effect(Op::Ldx, d, old(cpu)@),
{
    proof {
        reveal(effect);
    }
    cpu.reg.x = Data::default_unwrap(d, cpu);
    cpu.flags.set_zero_negative(cpu.reg.x);
}

pub fn lda(d: Data, cpu: &mut CPU)
    ensures
        final(cpu)@ == effect(Op::Lda, d, old(cpu)@),
{
    proof {
        reveal(effect);
    }
    cpu.reg.a = Data::default_unwrap(d, cpu);
    cpu.flags.set_zero_negative(cpu.reg.a);
}

pub fn sta(d: Data, cpu: &mut CPU)
    requires
        d is Address,
    ensures
        final(cpu)@ == effect(Op::Sta, d, old(cpu)@),
{
    proof {
        reveal(effect);
    }
    let v = cpu.reg.a;
    cpu.bus.write(Data::address_unwrap(d), v);
}

pub fn stx(d: Data, cpu: &mut CPU)
    requires
        d is Address,
    ensures
        final(cpu)@ == effect(Op::Stx, d, old(cpu)@),
{
    proof {
        reveal(effect);
    }
    let v = cpu.reg.x;
    cpu.bus.write(Data::address_unwrap(d), v);
}

pub fn sty(d: Data, cpu: &mut CPU)
    requires
        d is Address,
    ensures
        final(cpu)@ == effect(Op::Sty, d, old(cpu)@),
{
    proof {
        reveal(effect);
    }
    let v = cpu.reg.y;
    cpu.bus.write(Data::address_unwrap(d), v);
}

pub fn tax(d: Data, cpu: &mut CPU)
    ensures
        final(cpu)@ == effect(Op::Tax, d, old(cpu)@),
{
    proof {
        reveal(effect);
    }
    cpu.reg.x = cpu.reg.a;
    cpu.flags.set_zero_negative(cpu.reg.x);
}

pub fn tay(d: Data, cpu: &mut CPU)
    ensures
        final(cpu)@ == effect(Op::Tay, d, old(cpu)@),
{
    proof {
        reveal(effect);
    }
    cpu.reg.y = cpu.reg.a;
    cpu.flags.set_zero_negative(cpu.reg.y);
}

pub fn tsx(d: Data, cpu: &mut CPU)
    ensures
        final(cpu)@ == effect(Op::Tsx, d, old(cpu)@),
{
    proof {
        reveal(effect);
    }
    cpu.reg.x = cpu.reg.sp;
    cpu.flags.set_zero_negative(cpu.reg.x);
}

pub fn txa(d: Data, cpu: &mut CPU)
    ensures
        final(cpu)@ == effect(Op::Txa, d, old(cpu)@),
{
    proof {
        reveal(effect);
    }
    cpu.reg.a = cpu.reg.x;
    cpu.flags.set_zero_negative(cpu.reg.a);
}

pub fn txs(d: Data, cpu: &mut CPU)
    ensures
        final(cpu)@ == effect(Op::Txs, d, old(cpu)@),
{
    proof {
        reveal(effect);
    }
    cpu.reg.sp = cpu.reg.x;
}

pub fn tya(d: Data, cpu: &mut CPU)
    ensures
        final(cpu)@ == effect(Op::Tya, d, old(cpu)@),
{
    proof {
        reveal(effect);
    }
    cpu.reg.a = cpu.reg.y;
    cpu.flags.set_zero_negative(cpu.reg.a);
}

pub fn pha(d: Data, cpu: &mut CPU)
    ensures
        final(cpu)@ == effect(Op::Pha, d, old(cpu)@),
{
    proof {
        reveal(effect);
    }
    let v = cpu.reg.a;
    cpu.stack_push(v);
}

/// Pushes the status byte with bits 4 and 5 set.
pub fn php(d: Data, cpu: &mut CPU)
    ensures
        final(cpu)@ == effect(Op::Php, d, old(cpu)@),
{
    proof {
        reveal(effect);
    }
    let t = u8::from(cpu.flags) | 0b11_0000;
    cpu.stack_push(t);
}

/// Pops the status byte, bits 4 and 5 cleared.
pub fn plp(d: Data, cpu: &mut CPU)
    ensures
        final(cpu)@ == effect(Op::Plp, d, old(cpu)@),
{
    proof {
        reveal(effect);
    }
    let t = cpu.stack_pop() & 0b1100_1111;
    cpu.flags = Flag::from(t);
}

pub fn pla(d: Data, cpu: &mut CPU)
    ensures
        final(cpu)@ == effect(Op::Pla, d, old(cpu)@),
{
    proof {
        reveal(effect);
    }
    cpu.reg.a = cpu.stack_pop();
    cpu.flags.set_zero_negative(cpu.reg.a);
}

pub fn and(d: Data, cpu: &mut CPU)
    ensures
        final(cpu)@ == effect(Op::And, d, old(cpu)@),
{
    proof {
        reveal(effect);
    }
    let w = Data::default_unwrap(d, cpu);
    cpu.reg.a = cpu.reg.a & w;
    cpu.flags.set_zero_negative(cpu.reg.a);
}

pub fn eor(d: Data, cpu: &mut CPU)
    ensures
        final(cpu)@ == effect(Op::Eor, d, old(cpu)@),
{
    proof {
        reveal(effect);
    }
    let w = Data::default_unwrap(d, cpu);
    cpu.reg.a = cpu.reg.a ^ w;
    cpu.flags.set_zero_negative(cpu.reg.a);
}

pub fn ora(d: Data, cpu: &mut CPU)
    ensures
        final(cpu)@ == effect(Op::Ora, d, old(cpu)@),
{
    proof {
        reveal(effect);
    }
    let w = Data::default_unwrap(d, cpu);
    cpu.reg.a = cpu.reg.a | w;
    cpu.flags.set_zero_negative(cpu.reg.a);
}

/// Shifts left; bit 7 goes to the carry.
pub fn asl(d: Data, cpu: &mut CPU)
    ensures
        final(cpu)@ == effect(Op::Asl, d, old(cpu)@),
{
    proof {
        reveal(effect);
    }
    let w = Data::default_unwrap(d, cpu);
    assert((w % 0x80) * 2 == (2 * w) % 0x100) by (nonlinear_arith)
        requires
            w < 0x100,
    ;
    store_shifted(d, (w % 0x80) * 2, w >= 0x80, cpu);
}

/// Shifts right; bit 0 goes to the carry.
pub fn lsr(d: Data, cpu: &mut CPU)
    ensures
        final(cpu)@ == effect(Op::Lsr, d, old(cpu)@),
{
    proof {
        reveal(effect);
    }
    let w = Data::default_unwrap(d, cpu);
    store_shifted(d, w / 2, w % 2 == 1, cpu);
}

/// Rotates left through the carry.
pub fn rol(d: Data, cpu: &mut CPU)
    ensures
        final(cpu)@ == effect(Op::Rol, d, old(cpu)@),
{
    proof {
        reveal(effect);
    }
    let w = Data::default_unwrap(d, cpu);
    let c: u8 = if cpu.flags.carry {
        1
    } else {
        0
    };
    assert((w % 0x80) * 2 + c == (2 * w + c) % 0x100) by (nonlinear_arith)
        requires
            w < 0x100,
            c <= 1,
    ;
    store_shifted(d, (w % 0x80) * 2 + c, w >= 0x80, cpu);
}

/// Rotates right through the carry.
pub fn ror(d: Data, cpu: &mut CPU)
    ensures
        final(cpu)@ == effect(Op::Ror, d, old(cpu)@),
{
    proof {
        reveal(effect);
    }
    let w = Data::default_unwrap(d, cpu);
    let c: u8 = if cpu.flags.carry {
        0x80
    } else {
        0
    };
    store_shifted(d, w / 2 + c, w % 2 == 1, cpu);
}

pub fn clc(d: Data, cpu: &mut CPU)
    ensures
        final(cpu)@ == effect(Op::Clc, d, old(cpu)@),
{
    proof {
        reveal(effect);
    }
    cpu.flags.carry = false;
}

pub fn cld(d: Data, cpu: &mut CPU)
    ensures
        final(cpu)@ == effect(Op::Cld, d, old(cpu)@),
{
    proof {
        reveal(effect);
    }
    cpu.flags.decimal = false;
}

pub fn cli(d: Data, cpu: &mut CPU)
    ensures
        final(cpu)@ == effect(Op::Cli, d, old(cpu)@),
{
    proof {
        reveal(effect);
    }
    cpu.flags.interrupt_disable = false;
}

pub fn clv(d: Data, cpu: &mut CPU)
    ensures
        final(cpu)@ == effect(Op::Clv, d, old(cpu)@),
{
    proof {
        reveal(effect);
    }
    cpu.flags.overflow = false;
}

pub fn sec(d: Data, cpu: &mut CPU)
    ensures
        final(cpu)@ == effect(Op::Sec, d, old(cpu)@),
{
    proof {
        reveal(effect);
    }
    cpu.flags.carry = true;
}

pub fn sed(d: Data, cpu: &mut CPU)
    ensures
        final(cpu)@ == effect(Op::Sed, d, old(cpu)@),
{
    proof {
        reveal(effect);
    }
    cpu.flags.decimal = true;
}

pub fn sei(d: Data, cpu: &mut CPU)
    ensures
        final(cpu)@ == effect(Op::Sei, d, old(cpu)@),
{
    proof {
        reveal(effect);
    }
    cpu.flags.interrupt_disable = true;
}

pub fn cmp(d: Data, cpu: &mut CPU)
    ensures
        final(cpu)@ == effect(Op::Cmp, d, old(cpu)@),
{
    proof {
        reveal(effect);
    }
    let w = Data::default_unwrap(d, cpu);
    let r = cpu.reg.a;
    compare_with(r, w, cpu);
}

pub fn cpx(d: Data, cpu: &mut CPU)
    ensures
        final(cpu)@ == effect(Op::Cpx, d, old(cpu)@),
{
    proof {
        reveal(effect);
    }
    let w = Data::default_unwrap(d, cpu);
    let r = cpu.reg.x;
    compare_with(r, w, cpu);
}

pub fn cpy(d: Data, cpu: &mut CPU)
    ensures
        final(cpu)@ == effect(Op::Cpy, d, old(cpu)@),
{
    proof {
        reveal(effect);
    }
    let w = Data::default_unwrap(d, cpu);
    let r = cpu.reg.y;
    compare_with(r, w, cpu);
}

pub fn bcc(d: Data, cpu: &mut CPU)
    ensures
        final(cpu)@ == effect(Op::Bcc, d, old(cpu)@),
{
    proof {
        reveal(effect);
    }
    let i = Data::int_unwrap(d, cpu);
    let c = !cpu.flags.carry;
    cpu.branch(i, c);
}

pub fn bcs(d: Data, cpu: &mut CPU)
    ensures
        final(cpu)@ == effect(Op::Bcs, d, old(cpu)@),
{
    proof {
        reveal(effect);
    }
    let i = Data::int_unwrap(d, cpu);
    let c = cpu.flags.carry;
    cpu.branch(i, c);
}

pub fn beq(d: Data, cpu: &mut CPU)
    ensures
        final(cpu)@ == effect(Op::Beq, d, old(cpu)@),
{
    proof {
        reveal(effect);
    }
    let i = Data::int_unwrap(d, cpu);
    let c = cpu.flags.zero;
    cpu.branch(i, c);
}

pub fn bmi(d: Data, cpu: &mut CPU)
    ensures
        final(cpu)@ == effect(Op::Bmi, d, old(cpu)@),
{
    proof {
        reveal(effect);
    }
    let i = Data::int_unwrap(d, cpu);
    let c = cpu.flags.negative;
    cpu.branch(i, c);
}

pub fn bne(d: Data, cpu: &mut CPU)
    ensures
        final(cpu)@ == effect(Op::Bne, d, old(cpu)@),
{
    proof {
        reveal(effect);
    }
    let i = Data::int_unwrap(d, cpu);
    let c = !cpu.flags.zero;
    cpu.branch(i, c);
}

pub fn bpl(d: Data, cpu: &mut CPU)
    ensures
        final(cpu)@ == effect(Op::Bpl, d, old(cpu)@),
{
    proof {
        reveal(effect);
    }
    let i = Data::int_unwrap(d, cpu);
    let c = !cpu.flags.negative;
    cpu.branch(i, c);
}

pub fn bvc(d: Data, cpu: &mut CPU)
    ensures
        final(cpu)@ == effect(Op::Bvc, d, old(cpu)@),
{
    proof {
        reveal(effect);
    }
    let i = Data::int_unwrap(d, cpu);
    let c = !cpu.flags.overflow;
    cpu.branch(i, c);
}

pub fn bvs(d: Data, cpu: &mut CPU)
    ensures
        final(cpu)@ == effect(Op::Bvs, d, old(cpu)@),
{
    proof {
        reveal(effect);
    }
    let i = Data::int_unwrap(d, cpu);
    let c = cpu.flags.overflow;
    cpu.branch(i, c);
}

/// Jumps to the operand's address; the step's final increment lands on it.
pub fn jmp(d: Data, cpu: &mut CPU)
    requires
        d is Address,
    ensures
        final(cpu)@ == effect(Op::Jmp, d, old(cpu)@),
{
    proof {
        reveal(effect);
    }
    cpu.pc = Data::address_unwrap(d).wrapping_sub(1);
}

/// Pushes the address of the next instruction and jumps to the operand's address.
pub fn jsr(d: Data, cpu: &mut CPU)
    requires
        d is Address,
    ensures
        final(cpu)@ == effect(Op::Jsr, d, old(cpu)@),
{
    proof {
        reveal(effect);
    }
    let ret = cpu.pc.wrapping_add(1);
    cpu.stack_push16(ret);
    cpu.pc = Data::address_unwrap(d).wrapping_sub(1);
}

/// Returns to the address that the matching call pushed.
pub fn rts(d: Data, cpu: &mut CPU)
    ensures
        final(cpu)@ == effect(Op::Rts, d, old(cpu)@),
{
    proof {
        reveal(effect);
    }
    cpu.pc = cpu.stack_pop16().wrapping_sub(1);
}

/// Halts the processor.
pub fn brk(d: Data, cpu: &mut CPU)
    ensures
        final(cpu)@ == effect(Op::Brk, d, old(cpu)@),
{
    proof {
        reveal(effect);
    }
    cpu.halted = true;
}

/// Interrupts are not serviced, so there is nothing to return from.
pub fn rti(d: Data, cpu: &mut CPU)
    ensures
        final(cpu)@ == effect(Op::Rti, d, old(cpu)@),
{
    proof {
        reveal(effect);
    }

}

pub fn bit(d: Data, cpu: &mut CPU)
    ensures
        final(cpu)@ == effect(Op::Bit, d, old(cpu)@),
{
    proof {
        reveal(effect);
    }
    let w = Data::default_unwrap(d, cpu);
    cpu.flags.zero = cpu.reg.a & w == 0;
    cpu.flags.negative = w >= 0x80;
    cpu.flags.overflow = w & 0x40 != 0;
}

pub fn nop(d: Data, cpu: &mut CPU)
    ensures
        final(cpu)@ == effect(Op::Nop, d, old(cpu)@),
{
    proof {
        reveal(effect);
    }

}

/// Runs instruction `op` on operand `d`.
pub fn execute(op: Op, d: Data, cpu: &mut CPU)
    requires
        needs_address(op) ==> d is Address,
    ensures
        final(cpu)@ == effect(op, d, old(cpu)@),
{
    match op {
        Op::Adc => adc(d, cpu),
        Op::Sbc => sbc(d, cpu),
        Op::Inc => inc(d, cpu),
        Op::Inx => inx(d, cpu),
        Op::Iny => iny(d, cpu),
        Op::Dec => dec(d, cpu),
        Op::Dex => dex(d, cpu),
        Op::Dey => dey(d, cpu),
        Op::Ldy => ldy(d, cpu),
        Op::Ldx => ldx(d, cpu),
        Op::Lda => lda(d, cpu),
        Op::Sta => sta(d, cpu),
        Op::Stx => stx(d, cpu),
        Op::Sty => sty(d, cpu),
        Op::Tax => tax(d, cpu),
        Op::Tay => tay(d, cpu),
        Op::Tsx => tsx(d, cpu),
        Op::Txa => txa(d, cpu),
        Op::Txs => txs(d, cpu),
        Op::Tya => tya(d, cpu),
        Op::Pha => pha(d, cpu),
        Op::Php => php(d, cpu),
        Op::Plp => plp(d, cpu),
        Op::Pla => pla(d, cpu),
        Op::And => and(d, cpu),
        Op::Eor => eor(d, cpu),
        Op::Ora => ora(d, cpu),
        Op::Asl => asl(d, cpu),
        Op::Lsr => lsr(d, cpu),
        Op::Rol => rol(d, cpu),
        Op::Ror => ror(d, cpu),
        Op::Clc => clc(d, cpu),
        Op::Cld => cld(d, cpu),
        Op::Cli => cli(d, cpu),
        Op::Clv => clv(d, cpu),
        Op::Sec => sec(d, cpu),
        Op::Sed => sed(d, cpu),
        Op::Sei => sei(d, cpu),
        Op::Cmp => cmp(d, cpu),
        Op::Cpx => cpx(d, cpu),
        Op::Cpy => cpy(d, cpu),
        Op::Bcc => bcc(d, cpu),
        Op::Bcs => bcs(d, cpu),
        Op::Beq => beq(d, cpu),
        Op::Bmi => bmi(d, cpu),
        Op::Bne => bne(d, cpu),
        Op::Bpl => bpl(d, cpu),
        Op::Bvc => bvc(d, cpu),
        Op::Bvs => bvs(d, cpu),
        Op::Jmp => jmp(d, cpu),
        Op::Jsr => jsr(d, cpu),
        Op::Rts => rts(d, cpu),
        Op::Brk => brk(d, cpu),
        Op::Rti => rti(d, cpu),
        Op::Bit => bit(d, cpu),
        Op::Nop => nop(d, cpu),
    }
}

} // verus!
