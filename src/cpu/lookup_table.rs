use vstd::prelude::*;
use crate::cpu::instructions::{Addrmode, Instr, Op, needs_address, yields_address};

verus! {

/// The instruction table: the descriptor of each documented opcode of the
/// instructions this processor models, and none for any other byte.
#[verifier::opaque]
pub open spec fn decode(opcode: u8) -> Option<Instr> {
    match opcode {
        0x00 => Some(Instr { op: Op::Brk, mode: Addrmode::Impl, cycles: 7 }),
        0x01 => Some(Instr { op: Op::Ora, mode: Addrmode::XInd, cycles: 6 }),
        0x05 => Some(Instr { op: Op::Ora, mode: Addrmode::Zpg, cycles: 3 }),
        0x06 => Some(Instr { op: Op::Asl, mode: Addrmode::Zpg, cycles: 5 }),
        0x08 => Some(Instr { op: Op::Php, mode: Addrmode::Impl, cycles: 3 }),
        0x09 => Some(Instr { op: Op::Ora, mode: Addrmode::Imm, cycles: 2 }),
        0x0A => Some(Instr { op: Op::Asl, mode: Addrmode::A, cycles: 2 }),
        0x0D => Some(Instr { op: Op::Ora, mode: Addrmode::Abs, cycles: 4 }),
        0x0E => Some(Instr { op: Op::Asl, mode: Addrmode::Abs, cycles: 6 }),
        0x10 => Some(Instr { op: Op::Bpl, mode: Addrmode::Rel, cycles: 2 }),
        0x11 => Some(Instr { op: Op::Ora, mode: Addrmode::IndY, cycles: 5 }),
        0x15 => Some(Instr { op: Op::Ora, mode: Addrmode::ZpgX, cycles: 4 }),
        0x16 => Some(Instr { op: Op::Asl, mode: Addrmode::ZpgX, cycles: 6 }),
        0x18 => Some(Instr { op: Op::Clc, mode: Addrmode::Impl, cycles: 2 }),
        0x19 => Some(Instr { op: Op::Ora, mode: Addrmode::AbsY, cycles: 4 }),
        0x1D => Some(Instr { op: Op::Ora, mode: Addrmode::AbsX, cycles: 4 }),
        0x1E => Some(Instr { op: Op::Asl, mode: Addrmode::AbsX, cycles: 7 }),
        0x20 => Some(Instr { op: Op::Jsr, mode: Addrmode::Abs, cycles: 6 }),
        0x21 => Some(Instr { op: Op::And, mode: Addrmode::XInd, cycles: 6 }),
        0x24 => Some(Instr { op: Op::Bit, mode: Addrmode::Zpg, cycles: 3 }),
        0x25 => Some(Instr { op: Op::And, mode: Addrmode::Zpg, cycles: 3 }),
        0x26 => Some(Instr { op: Op::Rol, mode: Addrmode::Zpg, cycles: 5 }),
        0x28 => Some(Instr { op: Op::Plp, mode: Addrmode::Impl, cycles: 4 }),
        0x29 => Some(Instr { op: Op::And, mode: Addrmode::Imm, cycles: 2 }),
        0x2A => Some(Instr { op: Op::Rol, mode: Addrmode::A, cycles: 2 }),
        0x2C => Some(Instr { op: Op::Bit, mode: Addrmode::Abs, cycles: 4 }),
        0x2D => Some(Instr { op: Op::And, mode: Addrmode::Abs, cycles: 4 }),
        0x2E => Some(Instr { op: Op::Rol, mode: Addrmode::Abs, cycles: 6 }),
        0x30 => Some(Instr { op: Op::Bmi, mode: Addrmode::Rel, cycles: 2 }),
        0x31 => Some(Instr { op: Op::And, mode: Addrmode::IndY, cycles: 5 }),
        0x35 => Some(Instr { op: Op::And, mode: Addrmode::ZpgX, cycles: 4 }),
        0x36 => Some(Instr { op: Op::Rol, mode: Addrmode::ZpgX, cycles: 6 }),
        0x38 => Some(Instr { op: Op::Sec, mode: Addrmode::Impl, cycles: 2 }),
        0x39 => Some(Instr { op: Op::And, mode: Addrmode::AbsY, cycles: 4 }),
        0x3D => Some(Instr { op: Op::And, mode: Addrmode::AbsX, cycles: 4 }),
        0x3E => Some(Instr { op: Op::Rol, mode: Addrmode::AbsX, cycles: 7 }),
        0x40 => Some(Instr { op: Op::Rti, mode: Addrmode::Impl, cycles: 6 }),
        0x41 => Some(Instr { op: Op::Eor, mode: Addrmode::XInd, cycles: 6 }),
        0x45 => Some(Instr { op: Op::Eor, mode: Addrmode::Zpg, cycles: 3 }),
        0x46 => Some(Instr { op: Op::Lsr, mode: Addrmode::Zpg, cycles: 5 }),
        0x48 => Some(Instr { op: Op::Pha, mode: Addrmode::Impl, cycles: 3 }),
        0x49 => Some(Instr { op: Op::Eor, mode: Addrmode::Imm, cycles: 2 }),
        0x4A => Some(Instr { op: Op::Lsr, mode: Addrmode::A, cycles: 2 }),
        0x4C => Some(Instr { op: Op::Jmp, mode: Addrmode::Abs, cycles: 3 }),
        0x4D => Some(Instr { op: Op::Eor, mode: Addrmode::Abs, cycles: 4 }),
        0x4E => Some(Instr { op: Op::Lsr, mode: Addrmode::Abs, cycles: 6 }),
        0x50 => Some(Instr { op: Op::Bvc, mode: Addrmode::Rel, cycles: 2 }),
        0x51 => Some(Instr { op: Op::Eor, mode: Addrmode::IndY, cycles: 5 }),
        0x55 => Some(Instr { op: Op::Eor, mode: Addrmode::ZpgX, cycles: 4 }),
        0x56 => Some(Instr { op: Op::Lsr, mode: Addrmode::ZpgX, cycles: 6 }),
        0x58 => Some(Instr { op: Op::Cli, mode: Addrmode::Impl, cycles: 2 }),
        0x59 => Some(Instr { op: Op::Eor, mode: Addrmode::AbsY, cycles: 4 }),
        0x5D => Some(Instr { op: Op::Eor, mode: Addrmode::AbsX, cycles: 4 }),
        0x5E => Some(Instr { op: Op::Lsr, mode: Addrmode::AbsX, cycles: 7 }),
        0x60 => Some(Instr { op: Op::Rts, mode: Addrmode::Impl, cycles: 6 }),
        0x61 => Some(Instr { op: Op::Adc, mode: Addrmode::XInd, cycles: 6 }),
        0x65 => Some(Instr { op: Op::Adc, mode: Addrmode::Zpg, cycles: 3 }),
        0x66 => Some(Instr { op: Op::Ror, mode: Addrmode::Zpg, cycles: 5 }),
        0x68 => Some(Instr { op: Op::Pla, mode: Addrmode::Impl, cycles: 4 }),
        0x69 => Some(Instr { op: Op::Adc, mode: Addrmode::Imm, cycles: 2 }),
        0x6A => Some(Instr { op: Op::Ror, mode: Addrmode::A, cycles: 2 }),
        0x6C => Some(Instr { op: Op::Jmp, mode: Addrmode::Ind, cycles: 5 }),
        0x6D => Some(Instr { op: Op::Adc, mode: Addrmode::Abs, cycles: 4 }),
        0x6E => Some(Instr { op: Op::Ror, mode: Addrmode::Abs, cycles: 6 }),
        0x70 => Some(Instr { op: Op::Bvs, mode: Addrmode::Rel, cycles: 2 }),
        0x71 => Some(Instr { op: Op::Adc, mode: Addrmode::IndY, cycles: 5 }),
        0x75 => Some(Instr { op: Op::Adc, mode: Addrmode::ZpgX, cycles: 4 }),
        0x76 => Some(Instr { op: Op::Ror, mode: Addrmode::ZpgX, cycles: 6 }),
        0x78 => Some(Instr { op: Op::Sei, mode: Addrmode::Impl, cycles: 2 }),
        0x79 => Some(Instr { op: Op::Adc, mode: Addrmode::AbsY, cycles: 4 }),
        0x7D => Some(Instr { op: Op::Adc, mode: Addrmode::AbsX, cycles: 4 }),
        0x7E => Some(Instr { op: Op::Ror, mode: Addrmode::AbsX, cycles: 7 }),
        0x81 => Some(Instr { op: Op::Sta, mode: Addrmode::XInd, cycles: 6 }),
        0x84 => Some(Instr { op: Op::Sty, mode: Addrmode::Zpg, cycles: 3 }),
        0x85 => Some(Instr { op: Op::Sta, mode: Addrmode::Zpg, cycles: 3 }),
        0x86 => Some(Instr { op: Op::Stx, mode: Addrmode::Zpg, cycles: 3 }),
        0x88 => Some(Instr { op: Op::Dey, mode: Addrmode::Impl, cycles: 2 }),
        0x8A => Some(Instr { op: Op::Txa, mode: Addrmode::Impl, cycles: 2 }),
        0x8C => Some(Instr { op: Op::Sty, mode: Addrmode::Abs, cycles: 4 }),
        0x8D => Some(Instr { op: Op::Sta, mode: Addrmode::Abs, cycles: 4 }),
        0x8E => Some(Instr { op: Op::Stx, mode: Addrmode::Abs, cycles: 4 }),
        0x90 => Some(Instr { op: Op::Bcc, mode: Addrmode::Rel, cycles: 2 }),
        0x91 => Some(Instr { op: Op::Sta, mode: Addrmode::IndY, cycles: 6 }),
        0x94 => Some(Instr { op: Op::Sty, mode: Addrmode::ZpgX, cycles: 4 }),
        0x95 => Some(Instr { op: Op::Sta, mode: Addrmode::ZpgX, cycles: 4 }),
        0x96 => Some(Instr { op: Op::Stx, mode: Addrmode::ZpgY, cycles: 4 }),
        0x98 => Some(Instr { op: Op::Tya, mode: Addrmode::Impl, cycles: 2 }),
        0x99 => Some(Instr { op: Op::Sta, mode: Addrmode::AbsY, cycles: 5 }),
        0x9A => Some(Instr { op: Op::Txs, mode: Addrmode::Impl, cycles: 2 }),
        0x9D => Some(Instr { op: Op::Sta, mode: Addrmode::AbsX, cycles: 5 }),
        0xA0 => Some(Instr { op: Op::Ldy, mode: Addrmode::Imm, cycles: 2 }),
        0xA1 => Some(Instr { op: Op::Lda, mode: Addrmode::XInd, cycles: 6 }),
        0xA2 => Some(Instr { op: Op::Ldx, mode: Addrmode::Imm, cycles: 2 }),
        0xA4 => Some(Instr { op: Op::Ldy, mode: Addrmode::Zpg, cycles: 3 }),
        0xA5 => Some(Instr { op: Op::Lda, mode: Addrmode::Zpg, cycles: 3 }),
        0xA6 => Some(Instr { op: Op::Ldx, mode: Addrmode::Zpg, cycles: 3 }),
        0xA8 => Some(Instr { op: Op::Tay, mode: Addrmode::Impl, cycles: 2 }),
        0xA9 => Some(Instr { op: Op::Lda, mode: Addrmode::Imm, cycles: 2 }),
        0xAA => Some(Instr { op: Op::Tax, mode: Addrmode::Impl, cycles: 2 }),
        0xAC => Some(Instr { op: Op::Ldy, mode: Addrmode::Abs, cycles: 4 }),
        0xAD => Some(Instr { op: Op::Lda, mode: Addrmode::Abs, cycles: 4 }),
        0xAE => Some(Instr { op: Op::Ldx, mode: Addrmode::Abs, cycles: 4 }),
        0xB0 => Some(Instr { op: Op::Bcs, mode: Addrmode::Rel, cycles: 2 }),
        0xB1 => Some(Instr { op: Op::Lda, mode: Addrmode::IndY, cycles: 5 }),
        0xB4 => Some(Instr { op: Op::Ldy, mode: Addrmode::ZpgX, cycles: 4 }),
        0xB5 => Some(Instr { op: Op::Lda, mode: Addrmode::ZpgX, cycles: 4 }),
        0xB6 => Some(Instr { op: Op::Ldx, mode: Addrmode::ZpgY, cycles: 4 }),
        0xB8 => Some(Instr { op: Op::Clv, mode: Addrmode::Impl, cycles: 2 }),
        0xB9 => Some(Instr { op: Op::Lda, mode: Addrmode::AbsY, cycles: 4 }),
        0xBA => Some(Instr { op: Op::Tsx, mode: Addrmode::Impl, cycles: 2 }),
        0xBC => Some(Instr { op: Op::Ldy, mode: Addrmode::AbsX, cycles: 4 }),
        0xBD => Some(Instr { op: Op::Lda, mode: Addrmode::AbsX, cycles: 4 }),
        0xBE => Some(Instr { op: Op::Ldx, mode: Addrmode::AbsY, cycles: 4 }),
        0xC0 => Some(Instr { op: Op::Cpy, mode: Addrmode::Imm, cycles: 2 }),
        0xC1 => Some(Instr { op: Op::Cmp, mode: Addrmode::XInd, cycles: 6 }),
        0xC4 => Some(Instr { op: Op::Cpy, mode: Addrmode::Zpg, cycles: 3 }),
        0xC5 => Some(Instr { op: Op::Cmp, mode: Addrmode::Zpg, cycles: 3 }),
        0xC6 => Some(Instr { op: Op::Dec, mode: Addrmode::Zpg, cycles: 5 }),
        0xC8 => Some(Instr { op: Op::Iny, mode: Addrmode::Impl, cycles: 2 }),
        0xC9 => Some(Instr { op: Op::Cmp, mode: Addrmode::Imm, cycles: 2 }),
        0xCA => Some(Instr { op: Op::Dex, mode: Addrmode::Impl, cycles: 2 }),
        0xCC => Some(Instr { op: Op::Cpy, mode: Addrmode::Abs, cycles: 4 }),
        0xCD => Some(Instr { op: Op::Cmp, mode: Addrmode::Abs, cycles: 4 }),
        0xCE => Some(Instr { op: Op::Dec, mode: Addrmode::Abs, cycles: 6 }),
        0xD0 => Some(Instr { op: Op::Bne, mode: Addrmode::Rel, cycles: 2 }),
        0xD1 => Some(Instr { op: Op::Cmp, mode: Addrmode::IndY, cycles: 5 }),
        0xD5 => Some(Instr { op: Op::Cmp, mode: Addrmode::ZpgX, cycles: 4 }),
        0xD6 => Some(Instr { op: Op::Dec, mode: Addrmode::ZpgX, cycles: 6 }),
        0xD8 => Some(Instr { op: Op::Cld, mode: Addrmode::Impl, cycles: 2 }),
        0xD9 => Some(Instr { op: Op::Cmp, mode: Addrmode::AbsY, cycles: 4 }),
        0xDD => Some(Instr { op: Op::Cmp, mode: Addrmode::AbsX, cycles: 4 }),
        0xDE => Some(Instr { op: Op::Dec, mode: Addrmode::AbsX, cycles: 7 }),
        0xE0 => Some(Instr { op: Op::Cpx, mode: Addrmode::Imm, cycles: 2 }),
        0xE1 => Some(Instr { op: Op::Sbc, mode: Addrmode::XInd, cycles: 6 }),
        0xE4 => Some(Instr { op: Op::Cpx, mode: Addrmode::Zpg, cycles: 3 }),
        0xE5 => Some(Instr { op: Op::Sbc, mode: Addrmode::Zpg, cycles: 3 }),
        0xE6 => Some(Instr { op: Op::Inc, mode: Addrmode::Zpg, cycles: 5 }),
        0xE8 => Some(Instr { op: Op::Inx, mode: Addrmode::Impl, cycles: 2 }),
        0xE9 => Some(Instr { op: Op::Sbc, mode: Addrmode::Imm, cycles: 2 }),
        0xEA => Some(Instr { op: Op::Nop, mode: Addrmode::Impl, cycles: 2 }),
        0xEC => Some(Instr { op: Op::Cpx, mode: Addrmode::Abs, cycles: 4 }),
        0xED => Some(Instr { op: Op::Sbc, mode: Addrmode::Abs, cycles: 4 }),
        0xEE => Some(Instr { op: Op::Inc, mode: Addrmode::Abs, cycles: 6 }),
        0xF0 => Some(Instr { op: Op::Beq, mode: Addrmode::Rel, cycles: 2 }),
        0xF1 => Some(Instr { op: Op::Sbc, mode: Addrmode::IndY, cycles: 5 }),
        0xF5 => Some(Instr { op: Op::Sbc, mode: Addrmode::ZpgX, cycles: 4 }),
        0xF6 => Some(Instr { op: Op::Inc, mode: Addrmode::ZpgX, cycles: 6 }),
        0xF8 => Some(Instr { op: Op::Sed, mode: Addrmode::Impl, cycles: 2 }),
        0xF9 => Some(Instr { op: Op::Sbc, mode: Addrmode::AbsY, cycles: 4 }),
        0xFD => Some(Instr { op: Op::Sbc, mode: Addrmode::AbsX, cycles: 4 }),
        0xFE => Some(Instr { op: Op::Inc, mode: Addrmode::AbsX, cycles: 7 }),
        _ => None,
    }
}

/// Looks up the descriptor of `opcode`. An instruction that writes to or jumps
/// to its operand is always paired with a mode that yields an address.
pub fn lookup(opcode: u8) -> (r: Option<Instr>)
    ensures
        r == decode(opcode),
        r matches Some(i) ==> (needs_address(i.op) ==> yields_address(i.mode)),
        r matches Some(i) ==> i.cycles <= 7,
{
    proof {
        reveal(decode);
    }
    match opcode {
        0x00 => Some(Instr { op: Op::Brk, mode: Addrmode::Impl, cycles: 7 }),
        0x01 => Some(Instr { op: Op::Ora, mode: Addrmode::XInd, cycles: 6 }),
        0x05 => Some(Instr { op: Op::Ora, mode: Addrmode::Zpg, cycles: 3 }),
        0x06 => Some(Instr { op: Op::Asl, mode: Addrmode::Zpg, cycles: 5 }),
        0x08 => Some(Instr { op: Op::Php, mode: Addrmode::Impl, cycles: 3 }),
        0x09 => Some(Instr { op: Op::Ora, mode: Addrmode::Imm, cycles: 2 }),
        0x0A => Some(Instr { op: Op::Asl, mode: Addrmode::A, cycles: 2 }),
        0x0D => Some(Instr { op: Op::Ora, mode: Addrmode::Abs, cycles: 4 }),
        0x0E => Some(Instr { op: Op::Asl, mode: Addrmode::Abs, cycles: 6 }),
        0x10 => Some(Instr { op: Op::Bpl, mode: Addrmode::Rel, cycles: 2 }),
        0x11 => Some(Instr { op: Op::Ora, mode: Addrmode::IndY, cycles: 5 }),
        0x15 => Some(Instr { op: Op::Ora, mode: Addrmode::ZpgX, cycles: 4 }),
        0x16 => Some(Instr { op: Op::Asl, mode: Addrmode::ZpgX, cycles: 6 }),
        0x18 => Some(Instr { op: Op::Clc, mode: Addrmode::Impl, cycles: 2 }),
        0x19 => Some(Instr { op: Op::Ora, mode: Addrmode::AbsY, cycles: 4 }),
        0x1D => Some(Instr { op: Op::Ora, mode: Addrmode::AbsX, cycles: 4 }),
        0x1E => Some(Instr { op: Op::Asl, mode: Addrmode::AbsX, cycles: 7 }),
        0x20 => Some(Instr { op: Op::Jsr, mode: Addrmode::Abs, cycles: 6 }),
        0x21 => Some(Instr { op: Op::And, mode: Addrmode::XInd, cycles: 6 }),
        0x24 => Some(Instr { op: Op::Bit, mode: Addrmode::Zpg, cycles: 3 }),
        0x25 => Some(Instr { op: Op::And, mode: Addrmode::Zpg, cycles: 3 }),
        0x26 => Some(Instr { op: Op::Rol, mode: Addrmode::Zpg, cycles: 5 }),
        0x28 => Some(Instr { op: Op::Plp, mode: Addrmode::Impl, cycles: 4 }),
        0x29 => Some(Instr { op: Op::And, mode: Addrmode::Imm, cycles: 2 }),
        0x2A => Some(Instr { op: Op::Rol, mode: Addrmode::A, cycles: 2 }),
        0x2C => Some(Instr { op: Op::Bit, mode: Addrmode::Abs, cycles: 4 }),
        0x2D => Some(Instr { op: Op::And, mode: Addrmode::Abs, cycles: 4 }),
        0x2E => Some(Instr { op: Op::Rol, mode: Addrmode::Abs, cycles: 6 }),
        0x30 => Some(Instr { op: Op::Bmi, mode: Addrmode::Rel, cycles: 2 }),
        0x31 => Some(Instr { op: Op::And, mode: Addrmode::IndY, cycles: 5 }),
        0x35 => Some(Instr { op: Op::And, mode: Addrmode::ZpgX, cycles: 4 }),
        0x36 => Some(Instr { op: Op::Rol, mode: Addrmode::ZpgX, cycles: 6 }),
        0x38 => Some(Instr { op: Op::Sec, mode: Addrmode::Impl, cycles: 2 }),
        0x39 => Some(Instr { op: Op::And, mode: Addrmode::AbsY, cycles: 4 }),
        0x3D => Some(Instr { op: Op::And, mode: Addrmode::AbsX, cycles: 4 }),
        0x3E => Some(Instr { op: Op::Rol, mode: Addrmode::AbsX, cycles: 7 }),
        0x40 => Some(Instr { op: Op::Rti, mode: Addrmode::Impl, cycles: 6 }),
        0x41 => Some(Instr { op: Op::Eor, mode: Addrmode::XInd, cycles: 6 }),
        0x45 => Some(Instr { op: Op::Eor, mode: Addrmode::Zpg, cycles: 3 }),
        0x46 => Some(Instr { op: Op::Lsr, mode: Addrmode::Zpg, cycles: 5 }),
        0x48 => Some(Instr { op: Op::Pha, mode: Addrmode::Impl, cycles: 3 }),
        0x49 => Some(Instr { op: Op::Eor, mode: Addrmode::Imm, cycles: 2 }),
        0x4A => Some(Instr { op: Op::Lsr, mode: Addrmode::A, cycles: 2 }),
        0x4C => Some(Instr { op: Op::Jmp, mode: Addrmode::Abs, cycles: 3 }),
        0x4D => Some(Instr { op: Op::Eor, mode: Addrmode::Abs, cycles: 4 }),
        0x4E => Some(Instr { op: Op::Lsr, mode: Addrmode::Abs, cycles: 6 }),
        0x50 => Some(Instr { op: Op::Bvc, mode: Addrmode::Rel, cycles: 2 }),
        0x51 => Some(Instr { op: Op::Eor, mode: Addrmode::IndY, cycles: 5 }),
        0x55 => Some(Instr { op: Op::Eor, mode: Addrmode::ZpgX, cycles: 4 }),
        0x56 => Some(Instr { op: Op::Lsr, mode: Addrmode::ZpgX, cycles: 6 }),
        0x58 => Some(Instr { op: Op::Cli, mode: Addrmode::Impl, cycles: 2 }),
        0x59 => Some(Instr { op: Op::Eor, mode: Addrmode::AbsY, cycles: 4 }),
        0x5D => Some(Instr { op: Op::Eor, mode: Addrmode::AbsX, cycles: 4 }),
        0x5E => Some(Instr { op: Op::Lsr, mode: Addrmode::AbsX, cycles: 7 }),
        0x60 => Some(Instr { op: Op::Rts, mode: Addrmode::Impl, cycles: 6 }),
        0x61 => Some(Instr { op: Op::Adc, mode: Addrmode::XInd, cycles: 6 }),
        0x65 => Some(Instr { op: Op::Adc, mode: Addrmode::Zpg, cycles: 3 }),
        0x66 => Some(Instr { op: Op::Ror, mode: Addrmode::Zpg, cycles: 5 }),
        0x68 => Some(Instr { op: Op::Pla, mode: Addrmode::Impl, cycles: 4 }),
        0x69 => Some(Instr { op: Op::Adc, mode: Addrmode::Imm, cycles: 2 }),
        0x6A => Some(Instr { op: Op::Ror, mode: Addrmode::A, cycles: 2 }),
        0x6C => Some(Instr { op: Op::Jmp, mode: Addrmode::Ind, cycles: 5 }),
        0x6D => Some(Instr { op: Op::Adc, mode: Addrmode::Abs, cycles: 4 }),
        0x6E => Some(Instr { op: Op::Ror, mode: Addrmode::Abs, cycles: 6 }),
        0x70 => Some(Instr { op: Op::Bvs, mode: Addrmode::Rel, cycles: 2 }),
        0x71 => Some(Instr { op: Op::Adc, mode: Addrmode::IndY, cycles: 5 }),
        0x75 => Some(Instr { op: Op::Adc, mode: Addrmode::ZpgX, cycles: 4 }),
        0x76 => Some(Instr { op: Op::Ror, mode: Addrmode::ZpgX, cycles: 6 }),
        0x78 => Some(Instr { op: Op::Sei, mode: Addrmode::Impl, cycles: 2 }),
        0x79 => Some(Instr { op: Op::Adc, mode: Addrmode::AbsY, cycles: 4 }),
        0x7D => Some(Instr { op: Op::Adc, mode: Addrmode::AbsX, cycles: 4 }),
        0x7E => Some(Instr { op: Op::Ror, mode: Addrmode::AbsX, cycles: 7 }),
        0x81 => Some(Instr { op: Op::Sta, mode: Addrmode::XInd, cycles: 6 }),
        0x84 => Some(Instr { op: Op::Sty, mode: Addrmode::Zpg, cycles: 3 }),
        0x85 => Some(Instr { op: Op::Sta, mode: Addrmode::Zpg, cycles: 3 }),
        0x86 => Some(Instr { op: Op::Stx, mode: Addrmode::Zpg, cycles: 3 }),
        0x88 => Some(Instr { op: Op::Dey, mode: Addrmode::Impl, cycles: 2 }),
        0x8A => Some(Instr { op: Op::Txa, mode: Addrmode::Impl, cycles: 2 }),
        0x8C => Some(Instr { op: Op::Sty, mode: Addrmode::Abs, cycles: 4 }),
        0x8D => Some(Instr { op: Op::Sta, mode: Addrmode::Abs, cycles: 4 }),
        0x8E => Some(Instr { op: Op::Stx, mode: Addrmode::Abs, cycles: 4 }),
        0x90 => Some(Instr { op: Op::Bcc, mode: Addrmode::Rel, cycles: 2 }),
        0x91 => Some(Instr { op: Op::Sta, mode: Addrmode::IndY, cycles: 6 }),
        0x94 => Some(Instr { op: Op::Sty, mode: Addrmode::ZpgX, cycles: 4 }),
        0x95 => Some(Instr { op: Op::Sta, mode: Addrmode::ZpgX, cycles: 4 }),
        0x96 => Some(Instr { op: Op::Stx, mode: Addrmode::ZpgY, cycles: 4 }),
        0x98 => Some(Instr { op: Op::Tya, mode: Addrmode::Impl, cycles: 2 }),
        0x99 => Some(Instr { op: Op::Sta, mode: Addrmode::AbsY, cycles: 5 }),
        0x9A => Some(Instr { op: Op::Txs, mode: Addrmode::Impl, cycles: 2 }),
        0x9D => Some(Instr { op: Op::Sta, mode: Addrmode::AbsX, cycles: 5 }),
        0xA0 => Some(Instr { op: Op::Ldy, mode: Addrmode::Imm, cycles: 2 }),
        0xA1 => Some(Instr { op: Op::Lda, mode: Addrmode::XInd, cycles: 6 }),
        0xA2 => Some(Instr { op: Op::Ldx, mode: Addrmode::Imm, cycles: 2 }),
        0xA4 => Some(Instr { op: Op::Ldy, mode: Addrmode::Zpg, cycles: 3 }),
        0xA5 => Some(Instr { op: Op::Lda, mode: Addrmode::Zpg, cycles: 3 }),
        0xA6 => Some(Instr { op: Op::Ldx, mode: Addrmode::Zpg, cycles: 3 }),
        0xA8 => Some(Instr { op: Op::Tay, mode: Addrmode::Impl, cycles: 2 }),
        0xA9 => Some(Instr { op: Op::Lda, mode: Addrmode::Imm, cycles: 2 }),
        0xAA => Some(Instr { op: Op::Tax, mode: Addrmode::Impl, cycles: 2 }),
        0xAC => Some(Instr { op: Op::Ldy, mode: Addrmode::Abs, cycles: 4 }),
        0xAD => Some(Instr { op: Op::Lda, mode: Addrmode::Abs, cycles: 4 }),
        0xAE => Some(Instr { op: Op::Ldx, mode: Addrmode::Abs, cycles: 4 }),
        0xB0 => Some(Instr { op: Op::Bcs, mode: Addrmode::Rel, cycles: 2 }),
        0xB1 => Some(Instr { op: Op::Lda, mode: Addrmode::IndY, cycles: 5 }),
        0xB4 => Some(Instr { op: Op::Ldy, mode: Addrmode::ZpgX, cycles: 4 }),
        0xB5 => Some(Instr { op: Op::Lda, mode: Addrmode::ZpgX, cycles: 4 }),
        0xB6 => Some(Instr { op: Op::Ldx, mode: Addrmode::ZpgY, cycles: 4 }),
        0xB8 => Some(Instr { op: Op::Clv, mode: Addrmode::Impl, cycles: 2 }),
        0xB9 => Some(Instr { op: Op::Lda, mode: Addrmode::AbsY, cycles: 4 }),
        0xBA => Some(Instr { op: Op::Tsx, mode: Addrmode::Impl, cycles: 2 }),
        0xBC => Some(Instr { op: Op::Ldy, mode: Addrmode::AbsX, cycles: 4 }),
        0xBD => Some(Instr { op: Op::Lda, mode: Addrmode::AbsX, cycles: 4 }),
        0xBE => Some(Instr { op: Op::Ldx, mode: Addrmode::AbsY, cycles: 4 }),
        0xC0 => Some(Instr { op: Op::Cpy, mode: Addrmode::Imm, cycles: 2 }),
        0xC1 => Some(Instr { op: Op::Cmp, mode: Addrmode::XInd, cycles: 6 }),
        0xC4 => Some(Instr { op: Op::Cpy, mode: Addrmode::Zpg, cycles: 3 }),
        0xC5 => Some(Instr { op: Op::Cmp, mode: Addrmode::Zpg, cycles: 3 }),
        0xC6 => Some(Instr { op: Op::Dec, mode: Addrmode::Zpg, cycles: 5 }),
        0xC8 => Some(Instr { op: Op::Iny, mode: Addrmode::Impl, cycles: 2 }),
        0xC9 => Some(Instr { op: Op::Cmp, mode: Addrmode::Imm, cycles: 2 }),
        0xCA => Some(Instr { op: Op::Dex, mode: Addrmode::Impl, cycles: 2 }),
        0xCC => Some(Instr { op: Op::Cpy, mode: Addrmode::Abs, cycles: 4 }),
        0xCD => Some(Instr { op: Op::Cmp, mode: Addrmode::Abs, cycles: 4 }),
        0xCE => Some(Instr { op: Op::Dec, mode: Addrmode::Abs, cycles: 6 }),
        0xD0 => Some(Instr { op: Op::Bne, mode: Addrmode::Rel, cycles: 2 }),
        0xD1 => Some(Instr { op: Op::Cmp, mode: Addrmode::IndY, cycles: 5 }),
        0xD5 => Some(Instr { op: Op::Cmp, mode: Addrmode::ZpgX, cycles: 4 }),
        0xD6 => Some(Instr { op: Op::Dec, mode: Addrmode::ZpgX, cycles: 6 }),
        0xD8 => Some(Instr { op: Op::Cld, mode: Addrmode::Impl, cycles: 2 }),
        0xD9 => Some(Instr { op: Op::Cmp, mode: Addrmode::AbsY, cycles: 4 }),
        0xDD => Some(Instr { op: Op::Cmp, mode: Addrmode::AbsX, cycles: 4 }),
        0xDE => Some(Instr { op: Op::Dec, mode: Addrmode::AbsX, cycles: 7 }),
        0xE0 => Some(Instr { op: Op::Cpx, mode: Addrmode::Imm, cycles: 2 }),
        0xE1 => Some(Instr { op: Op::Sbc, mode: Addrmode::XInd, cycles: 6 }),
        0xE4 => Some(Instr { op: Op::Cpx, mode: Addrmode::Zpg, cycles: 3 }),
        0xE5 => Some(Instr { op: Op::Sbc, mode: Addrmode::Zpg, cycles: 3 }),
        0xE6 => Some(Instr { op: Op::Inc, mode: Addrmode::Zpg, cycles: 5 }),
        0xE8 => Some(Instr { op: Op::Inx, mode: Addrmode::Impl, cycles: 2 }),
        0xE9 => Some(Instr { op: Op::Sbc, mode: Addrmode::Imm, cycles: 2 }),
        0xEA => Some(Instr { op: Op::Nop, mode: Addrmode::Impl, cycles: 2 }),
        0xEC => Some(Instr { op: Op::Cpx, mode: Addrmode::Abs, cycles: 4 }),
        0xED => Some(Instr { op: Op::Sbc, mode: Addrmode::Abs, cycles: 4 }),
        0xEE => Some(Instr { op: Op::Inc, mode: Addrmode::Abs, cycles: 6 }),
        0xF0 => Some(Instr { op: Op::Beq, mode: Addrmode::Rel, cycles: 2 }),
        0xF1 => Some(Instr { op: Op::Sbc, mode: Addrmode::IndY, cycles: 5 }),
        0xF5 => Some(Instr { op: Op::Sbc, mode: Addrmode::ZpgX, cycles: 4 }),
        0xF6 => Some(Instr { op: Op::Inc, mode: Addrmode::ZpgX, cycles: 6 }),
        0xF8 => Some(Instr { op: Op::Sed, mode: Addrmode::Impl, cycles: 2 }),
        0xF9 => Some(Instr { op: Op::Sbc, mode: Addrmode::AbsY, cycles: 4 }),
        0xFD => Some(Instr { op: Op::Sbc, mode: Addrmode::AbsX, cycles: 4 }),
        0xFE => Some(Instr { op: Op::Inc, mode: Addrmode::AbsX, cycles: 7 }),
        _ => None,
    }
}

} // verus!
