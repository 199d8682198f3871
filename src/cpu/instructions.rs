use vstd::prelude::*;
use crate::cpu::model::{Machine, operand_value, resolve, signed, target, wrap16, wrap8};
use crate::cpu::CPU;

verus! {

/// A resolved operand: an immediate value or an effective address.
#[derive(Clone, Copy, Debug, PartialEq, Eq, Structural)]
pub enum Data {
    Immediate(u16),
    Address(u16),
}

/// The addressing modes.
#[derive(Clone, Copy, Debug, PartialEq, Eq, Structural)]
pub enum Addrmode {
    A,
    Abs,
    AbsX,
    AbsY,
    Imm,
    Impl,
    Ind,
    XInd,
    IndY,
    Rel,
    Zpg,
    ZpgX,
    ZpgY,
}

/// The instructions that the table knows, one per mnemonic.
#[derive(Clone, Copy, Debug, PartialEq, Eq, Structural)]
pub enum Op {
    Adc,
    Sbc,
    Inc,
    Inx,
    Iny,
    Dec,
    Dex,
    Dey,
    Ldy,
    Ldx,
    Lda,
    Sta,
    Stx,
    Sty,
    Tax,
    Tay,
    Tsx,
    Txa,
    Txs,
    Tya,
    Pha,
    Php,
    Plp,
    Pla,
    And,
    Eor,
    Ora,
    Asl,
    Lsr,
    Rol,
    Ror,
    Clc,
    Cld,
    Cli,
    Clv,
    Sec,
    Sed,
    Sei,
    Cmp,
    Cpx,
    Cpy,
    Bcc,
    Bcs,
    Beq,
    Bmi,
    Bne,
    Bpl,
    Bvc,
    Bvs,
    Jmp,
    Jsr,
    Rts,
    Brk,
    Rti,
    Bit,
    Nop,
}

/// What an opcode stands for: the instruction, how its operand is found, and
/// its base cycle count.
#[derive(Clone, Copy, Debug, PartialEq, Eq, Structural)]
pub struct Instr {
    pub op: Op,
    pub mode: Addrmode,
    pub cycles: u8,
}

/// Whether `mode` resolves to an address rather than an immediate value.
pub open spec fn yields_address(mode: Addrmode) -> bool {
    !(mode is A || mode is Imm || mode is Rel)
}

/// Whether `op` writes to or jumps to its operand, and so needs an address.
pub open spec fn needs_address(op: Op) -> bool {
    op is Inc || op is Dec || op is Sta || op is Stx || op is Sty || op is Jmp || op is Jsr
}

/// The 16-bit value with low byte `lo` and high byte `hi`.
pub open spec fn word(lo: u8, hi: u8) -> u16 {
    (lo + 256 * hi) as u16
}

/// Whether two addresses lie on different 256-byte pages.
pub open spec fn crosses_page(a1: u16, a2: u16) -> bool {
    a1 & 0xFF00 != a2 & 0xFF00
}

pub fn join_bytes(lo: u8, hi: u8) -> (r: u16)
    ensures
        r == word(lo, hi),
        r == lo + 256 * hi,
{
    assert(((hi as u16) << 8u16) | (lo as u16) == (lo as u16) + 256 * (hi as u16)) by (bit_vector);
    ((hi as u16) << 8u16) | lo as u16
}

pub fn page_crossed(a1: u16, a2: u16) -> (r: bool)
    ensures
        r == crosses_page(a1, a2),
        r == (a1 / 256 != a2 / 256),
{
    assert((a1 & 0xFF00 != a2 & 0xFF00) == (a1 / 256 != a2 / 256)) by (bit_vector);
    a1 & 0xFF00 != a2 & 0xFF00
}

/// No address crosses a page with itself, and adding an offset whose sum has
/// another high byte is reported as a page crossing.
pub proof fn lemma_page_crossing(a: u16, k: u16)
    ensures
        !crosses_page(a, a),
        (a & 0xFF00) != (wrap16(a + k) & 0xFF00) ==> crosses_page(a, wrap16(a + k)),
{
}

impl Data {
    /// The operand's value: the immediate byte, or the byte at the address.
    pub(crate) fn default_unwrap(d: Data, cpu: &CPU) -> (r: u8)
        ensures
            r == operand_value(d, cpu@),
    {
        match d {
            Data::Immediate(x) => {
                #[verifier::truncate]
                (x as u8)
            },
            Data::Address(x) => cpu.bus.read(x),
        }
    }

    /// The operand's address; only an address operand has one.
    pub(crate) fn address_unwrap(d: Data) -> (r: u16)
        requires
            d is Address,
        ensures
            r == target(d),
    {
        match d {
            Data::Address(x) => x,
            Data::Immediate(x) => x,
        }
    }

    /// The operand's value read as a signed displacement.
    pub(crate) fn int_unwrap(d: Data, cpu: &CPU) -> (r: i8)
        ensures
            r == signed(operand_value(d, cpu@)),
    {
        let b = Data::default_unwrap(d, cpu);
        if b < 0x80 {
            b as i8
        } else {
            (b as i16 - 0x100) as i8
        }
    }
}

fn add16(a: u16, b: u16) -> (r: u16)
    ensures
        r == wrap16(a + b),
{
    a.wrapping_add(b)
}

fn add8(a: u8, b: u8) -> (r: u8)
    ensures
        r == wrap8(a + b),
{
    a.wrapping_add(b)
}

/// The address stored at zero-page location `ptr`, its high byte read from the
/// next location within the zero page.
fn zero_page_pointer(cpu: &CPU, ptr: u8) -> (r: u16)
    ensures
        r == word(cpu@.mem[ptr as int], cpu@.mem[wrap8(ptr + 1) as int]),
{
    let lo = cpu.bus.read(ptr as u16);
    let hi = cpu.bus.read(add8(ptr, 1) as u16);
    join_bytes(lo, hi)
}

impl Addrmode {
    /// Resolves the operand of the instruction whose opcode stands at the
    /// program counter, consuming its operand bytes, and reports whether an
    /// indexed addition crossed a page.
    #[verifier::spinoff_prover]
    pub fn unpack(&self, cpu: &mut CPU) -> (r: (Data, bool))
        ensures
            (r.0, r.1, final(cpu).pc) == resolve(*self, old(cpu)@),
            final(cpu)@ == (Machine { pc: final(cpu).pc, ..old(cpu)@ }),
            yields_address(*self) ==> r.0 is Address,
    {
        match self {
            Addrmode::Rel => (Data::Immediate(cpu.u8_operand() as u16), false),
            Addrmode::Imm => (Data::Immediate(cpu.u8_operand() as u16), false),
            Addrmode::A => (Data::Immediate(cpu.reg.a as u16), false),
            Addrmode::Abs => (Data::Address(cpu.u16_operand()), false),
            Addrmode::AbsX => {
                let base = cpu.u16_operand();
                let addr = add16(base, cpu.reg.x as u16);
                (Data::Address(addr), page_crossed(base, addr))
            },
            Addrmode::AbsY => {
                let base = cpu.u16_operand();
                let addr = add16(base, cpu.reg.y as u16);
                (Data::Address(addr), page_crossed(base, addr))
            },
            Addrmode::Zpg => (Data::Address(cpu.u8_operand() as u16), false),
            Addrmode::ZpgX => {
                let zp = cpu.u8_operand();
                (Data::Address(add8(zp, cpu.reg.x) as u16), false)
            },
            Addrmode::ZpgY => {
                let zp = cpu.u8_operand();
                (Data::Address(add8(zp, cpu.reg.y) as u16), false)
            },
            Addrmode::Ind => {
                let adr = cpu.u16_operand();
                let lo = cpu.bus.read(adr);
                let hi = cpu.bus.read(add16(adr, 1));
                (Data::Address(join_bytes(lo, hi)), false)
            },
            Addrmode::XInd => {
                let zp_base = cpu.u8_operand();
                let ptr = add8(zp_base, cpu.reg.x);
                (Data::Address(zero_page_pointer(cpu, ptr)), false)
            },
            Addrmode::IndY => {
                let base = cpu.u8_operand();
                let baseptr = zero_page_pointer(cpu, base);
                let new = add16(baseptr, cpu.reg.y as u16);
                (Data::Address(new), page_crossed(baseptr, new))
            },
            Addrmode::Impl => (Data::Address(0x00), false),
        }
    }
}

} // verus!
