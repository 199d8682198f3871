use vstd::prelude::*;

verus! {

/// The weight of a status bit: 1 when set, 0 when clear.
pub open spec fn bit_of(b: bool) -> u8 {
    if b {
        1
    } else {
        0
    }
}

/// The status byte of `f`. Bit 0 to bit 7: carry, zero, interrupt disable,
/// decimal, break, a bit that always reads 1, overflow, negative.
pub open spec fn flag_byte(f: Flag) -> u8 {
    bit_of(f.carry) | bit_of(f.zero) << 1u8 | bit_of(f.interrupt_disable) << 2u8 | bit_of(
        f.decimal,
    ) << 3u8 | bit_of(f.b) << 4u8 | 1u8 << 5u8 | bit_of(f.overflow) << 6u8 | bit_of(f.negative)
        << 7u8
}

/// The flags that a status byte holds; bit 5 is not stored.
pub open spec fn flags_of(b: u8) -> Flag {
    Flag {
        carry: b & 1 != 0,
        zero: b & 2 != 0,
        interrupt_disable: b & 4 != 0,
        decimal: b & 8 != 0,
        b: b & 0x10 != 0,
        overflow: b & 0x40 != 0,
        negative: b & 0x80 != 0,
    }
}

/// `f` with zero and negative describing `v`.
pub open spec fn with_zero_negative(f: Flag, v: u8) -> Flag {
    Flag { zero: v == 0, negative: v >= 0x80, ..f }
}

/// The flags with every status bit clear.
pub open spec fn cleared_flags() -> Flag {
    Flag {
        carry: false,
        zero: false,
        interrupt_disable: false,
        decimal: false,
        b: false,
        overflow: false,
        negative: false,
    }
}

fn bool_u8(b: bool) -> (r: u8)
    ensures
        r == bit_of(b),
{
    if b {
        1
    } else {
        0
    }
}

/// The processor status bits.
#[derive(Clone, Copy, Debug, PartialEq, Eq, Structural)]
pub struct Flag {
    pub carry: bool,
    pub zero: bool,
    pub interrupt_disable: bool,
    pub decimal: bool,
    pub b: bool,
    pub overflow: bool,
    pub negative: bool,
}

impl Flag {
    /// Clears every status bit.
    pub fn reset(&mut self)
        ensures
            *final(self) == cleared_flags(),
    {
        self.carry = false;
        self.zero = false;
        self.interrupt_disable = false;
        self.decimal = false;
        self.b = false;
        self.overflow = false;
        self.negative = false;
    }

    /// Sets zero when `i` is 0 and negative when bit 7 of `i` is set.
    pub fn set_zero_negative(&mut self, i: u8)
        ensures
            *final(self) == with_zero_negative(*old(self), i),
    {
        self.zero = i == 0;
        self.negative = i & 0x80 != 0;
        assert(i & 0x80 != 0 <==> i >= 0x80) by (bit_vector);
    }
}

impl Default for Flag {
    fn default() -> (r: Flag)
        ensures
            r == cleared_flags(),
    {
        Flag {
            carry: false,
            zero: false,
            interrupt_disable: false,
            decimal: false,
            b: false,
            overflow: false,
            negative: false,
        }
    }
}

impl From<Flag> for u8 {
    fn from(f: Flag) -> (r: u8) {
        bool_u8(f.carry) | bool_u8(f.zero) << 1u8 | bool_u8(f.interrupt_disable) << 2u8 | bool_u8(
            f.decimal,
        ) << 3u8 | bool_u8(f.b) << 4u8 | 1u8 << 5u8 | bool_u8(f.overflow) << 6u8 | bool_u8(
            f.negative,
        ) << 7u8
    }
}

impl vstd::std_specs::convert::FromSpecImpl<Flag> for u8 {
    open spec fn obeys_from_spec() -> bool {
        true
    }

    open spec fn from_spec(f: Flag) -> u8 {
        flag_byte(f)
    }
}

impl From<u8> for Flag {
    fn from(b: u8) -> (r: Flag) {
        Flag {
            carry: b & 1 != 0,
            zero: b & 2 != 0,
            interrupt_disable: b & 4 != 0,
            decimal: b & 8 != 0,
            b: b & 0x10 != 0,
            overflow: b & 0x40 != 0,
            negative: b & 0x80 != 0,
        }
    }
}

impl vstd::std_specs::convert::FromSpecImpl<u8> for Flag {
    open spec fn obeys_from_spec() -> bool {
        true
    }

    open spec fn from_spec(b: u8) -> Flag {
        flags_of(b)
    }
}

/// Packing a status byte into flags and back keeps every bit but bits 4 and 5.
pub proof fn lemma_status_byte_round_trip(v: u8)
    ensures
        flag_byte(flags_of(v)) & 0b1100_1111 == v & 0b1100_1111,
{
    assert(((if v & 1 != 0 { 1u8 } else { 0u8 }) | (if v & 2 != 0 { 1u8 } else { 0u8 }) << 1u8 | (
    if v & 4 != 0 { 1u8 } else { 0u8 }) << 2u8 | (if v & 8 != 0 { 1u8 } else { 0u8 }) << 3u8 | (
    if v & 0x10 != 0 { 1u8 } else { 0u8 }) << 4u8 | 1u8 << 5u8 | (if v & 0x40 != 0 { 1u8 } else { 0u8 })
        << 6u8 | (if v & 0x80 != 0 { 1u8 } else { 0u8 }) << 7u8) & 0b1100_1111 == v & 0b1100_1111)
        by (bit_vector);
}

/// Unpacking the status byte of some flags gives those flags back.
pub proof fn lemma_flags_round_trip(f: Flag)
    ensures
        flags_of(flag_byte(f)) == f,
{
    let (c, z, i, d, b, o, n) = (
        bit_of(f.carry),
        bit_of(f.zero),
        bit_of(f.interrupt_disable),
        bit_of(f.decimal),
        bit_of(f.b),
        bit_of(f.overflow),
        bit_of(f.negative),
    );
    assert(c <= 1 && z <= 1 && i <= 1 && d <= 1 && b <= 1 && o <= 1 && n <= 1);
    assert(c <= 1 && z <= 1 && i <= 1 && d <= 1 && b <= 1 && o <= 1 && n <= 1 ==> {
        let x = c | z << 1u8 | i << 2u8 | d << 3u8 | b << 4u8 | 1u8 << 5u8 | o << 6u8 | n << 7u8;
        &&& (x & 1 != 0 <==> c == 1)
        &&& (x & 2 != 0 <==> z == 1)
        &&& (x & 4 != 0 <==> i == 1)
        &&& (x & 8 != 0 <==> d == 1)
        &&& (x & 0x10 != 0 <==> b == 1)
        &&& (x & 0x40 != 0 <==> o == 1)
        &&& (x & 0x80 != 0 <==> n == 1)
    }) by (bit_vector);
}

/// The accumulator, the two index registers and the stack pointer.
#[derive(Clone, Copy, Debug, PartialEq, Eq, Structural)]
pub struct Registers {
    pub a: u8,
    pub x: u8,
    pub y: u8,
    pub sp: u8,
}

impl Default for Registers {
    fn default() -> (r: Registers)
        ensures
            r == (Registers { a: 0, x: 0, y: 0, sp: 0 }),
    {
        Registers { a: 0, x: 0, y: 0, sp: 0 }
    }
}

} // verus!
