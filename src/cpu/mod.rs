pub mod instruction_set;
pub mod instructions;
pub mod lookup_table;
pub mod model;
pub mod registers;

use vstd::prelude::*;
use crate::bus::{Bus, MEMORY_SIZE, add_cycles};
use crate::cpu::instructions::{crosses_page, join_bytes, page_crossed, word};
use crate::cpu::instruction_set::execute;
use crate::cpu::lookup_table::lookup;
use crate::cpu::model::{
    Machine, branch_to, popped, push, push16, run_spec, signed, step, top, top16, wrap16,
};
use crate::cpu::registers::{Flag, Registers, flags_of};

verus! {

/// First address of the page that holds the stack.
pub const STACK_PAGE: u16 = 0x100;

/// Address at which `load` places an image.
pub const LOAD_ORIGIN: u16 = 0x600;

/// Address of the reset vector's low byte; its high byte follows.
pub const RESET_VECTOR: u16 = 0xFFFC;

/// Why an instruction could not be executed.
#[derive(Clone, Copy, Debug, PartialEq, Eq, Structural)]
pub enum ExecError {
    /// The byte at the program counter has no entry in the instruction table.
    UnknownOpcode(u8),
}

/// Why an image could not be loaded.
#[derive(Clone, Copy, Debug, PartialEq, Eq, Structural)]
pub enum LoadError {
    /// The image does not fit between the load origin and the end of memory.
    TooLarge,
}

/// The status flags at power-on: interrupts disabled.
pub open spec fn power_on_flags() -> Flag {
    flags_of(0b100100)
}

/// The registers at power-on.
pub open spec fn power_on_registers() -> Registers {
    Registers { a: 0, x: 0, y: 0, sp: 0xfd }
}

/// The machine after a reset: registers and flags at their power-on values and
/// the program counter taken from the reset vector.
pub open spec fn reset_state(m: Machine) -> Machine {
    Machine {
        reg: power_on_registers(),
        flags: power_on_flags(),
        pc: word(m.mem[RESET_VECTOR as int], m.mem[RESET_VECTOR + 1]),
        ..m
    }
}

/// Memory `mem` with `image` copied to the load origin and the reset vector
/// pointing at the origin.
pub open spec fn loaded(mem: Seq<u8>, image: Seq<u8>) -> Seq<u8> {
    Seq::new(
        mem.len(),
        |i: int|
            if i == RESET_VECTOR {
                (LOAD_ORIGIN % 256) as u8
            } else if i == RESET_VECTOR + 1 {
                (LOAD_ORIGIN / 256) as u8
            } else if LOAD_ORIGIN <= i < LOAD_ORIGIN + image.len() {
                image[i - LOAD_ORIGIN]
            } else {
                mem[i]
            },
    )
}

/// The processor: memory bus, registers, flags, program counter and halt state.
pub struct CPU {
    pub bus: Bus,
    pub pc: u16,
    pub flags: Flag,
    pub reg: Registers,
    pub halted: bool,
}

impl View for CPU {
    type V = Machine;

    open spec fn view(&self) -> Machine {
        Machine {
            mem: self.bus.memory@,
            cycles: self.bus.cycles,
            pc: self.pc,
            flags: self.flags,
            reg: self.reg,
            halted: self.halted,
        }
    }
}

impl CPU {
    /// A processor over bus `b`, with registers and flags at their power-on
    /// values and the program counter at 0.
    pub fn new(b: Bus) -> (r: CPU)
        ensures
            r.bus == b,
            r.pc == 0,
            r.flags == power_on_flags(),
            r.reg == power_on_registers(),
            !r.halted,
    {
        CPU {
            bus: b,
            pc: 0,
            flags: Flag::from(0b100100u8),
            reg: Registers { a: 0, x: 0, y: 0, sp: 0xfd },
            halted: false,
        }
    }

    /// Copies `data` into memory at the load origin, points the reset vector at
    /// the origin and resets. An image too large to fit changes nothing.
    pub fn load(&mut self, data: Vec<u8>) -> (r: Result<(), LoadError>)
        ensures
            r is Err <==> LOAD_ORIGIN + data@.len() > MEMORY_SIZE,
            r is Err ==> r == Err::<(), LoadError>(LoadError::TooLarge) && final(self)@ == old(
                self,
            )@,
            r is Ok ==> final(self)@ == reset_state(
                (Machine { mem: loaded(old(self)@.mem, data@), ..old(self)@ }),
            ),
            r is Ok ==> final(self).pc == LOAD_ORIGIN,
    {
        if data.len() > MEMORY_SIZE - LOAD_ORIGIN as usize {
            return Err(LoadError::TooLarge);
        }
        let ghost mem0 = self.bus.memory@;
        let mut i: usize = 0;
        while i < data.len()
            invariant
                LOAD_ORIGIN + data@.len() <= MEMORY_SIZE,
                0 <= i <= data@.len(),
                self.bus.memory@.len() == MEMORY_SIZE,
                forall|k: int|
                    0 <= k < MEMORY_SIZE ==> #[trigger] self.bus.memory@[k] == if LOAD_ORIGIN <= k
                        < LOAD_ORIGIN + i {
                        data@[k - LOAD_ORIGIN]
                    } else {
                        mem0[k]
                    },
                self.bus.cycles == old(self).bus.cycles,
                self.pc == old(self).pc,
                self.flags == old(self).flags,
                self.reg == old(self).reg,
                self.halted == old(self).halted,
            decreases data.len() - i,
        {
            self.bus.write(LOAD_ORIGIN + i as u16, data[i]);
            i += 1;
        }
        self.bus.write(RESET_VECTOR, (LOAD_ORIGIN % 256) as u8);
        self.bus.write(RESET_VECTOR + 1, (LOAD_ORIGIN / 256) as u8);
        assert(self.bus.memory@ =~= loaded(mem0, data@));
        self.reset();
        Ok(())
    }

    /// Restores registers and flags to their power-on values and loads the
    /// program counter from the reset vector.
    pub fn reset(&mut self)
        ensures
            final(self)@ == reset_state(old(self)@),
    {
        self.reg.a = 0;
        self.reg.x = 0;
        self.reg.y = 0;
        self.reg.sp = 0xfd;
        self.flags = Flag::from(0b100100u8);
        self.pc = join_bytes(self.bus.read(RESET_VECTOR), self.bus.read(RESET_VECTOR + 1));
    }

    /// One fetch, decode and execute. An opcode with no entry in the table
    /// fails and leaves the processor as it was.
    #[verifier::rlimit(40)]
    pub fn exec(&mut self) -> (r: Result<(), ExecError>)
        ensures
            step(old(self)@) is Ok ==> r is Ok && final(self)@ == step(old(self)@)->Ok_0,
            step(old(self)@) is Err ==> r == Err::<(), ExecError>(step(old(self)@)->Err_0)
                && final(self)@ == old(self)@,
    {
        proof {
            reveal(step);
        }
        let opcode = self.bus.read(self.pc);
        let i = match lookup(opcode) {
            Some(i) => i,
            None => {
                return Err(ExecError::UnknownOpcode(opcode));
            },
        };
        let (unpakt, pagecross) = i.mode.unpack(self);
        let charge = if pagecross {
            i.cycles + 1
        } else {
            i.cycles
        };
        self.bus.tick(charge);
        execute(i.op, unpakt, self);
        self.pc = self.pc.wrapping_add(1);
        Ok(())
    }

    /// Executes instructions until the processor halts, one fails, or
    /// `max_steps` were executed, handing the processor to `callback` after
    /// each instruction; returns how many were executed. The callback may
    /// change anything, so what is promised holds whatever it does.
    pub fn run<F: FnMut(&mut CPU)>(&mut self, max_steps: u64, mut callback: F) -> (r: Result<
        u64,
        ExecError,
    >)
        requires
            forall|c: &mut CPU| call_requires(callback, (c,)),
        ensures
            old(self).halted || max_steps == 0 ==> r == Ok::<u64, ExecError>(0) && final(self)@ == old(
                self,
            )@,
            !old(self).halted && max_steps > 0 && step(old(self)@) is Err ==> r == Err::<
                u64,
                ExecError,
            >(step(old(self)@)->Err_0) && final(self)@ == old(self)@,
            r matches Ok(n) ==> n <= max_steps && (final(self).halted || n == max_steps),
            r matches Err(e) ==> step(final(self)@) == Err::<Machine, ExecError>(e),
    {
        let mut n: u64 = 0;
        while n < max_steps && !self.halted
            invariant
                n <= max_steps,
                forall|c: &mut CPU| call_requires(callback, (c,)),
                n == 0 ==> self@ == old(self)@,
                n > 0 ==> !old(self).halted && max_steps > 0 && step(old(self)@) is Ok,
            decreases max_steps - n,
        {
            match self.exec() {
                Ok(()) => {},
                Err(e) => {
                    return Err(e);
                },
            }
            callback(self);
            n += 1;
        }
        Ok(n)
    }

    /// Executes instructions until the processor halts, one fails, or
    /// `max_steps` were executed; returns how many were executed.
    pub fn run_for(&mut self, max_steps: u64) -> (r: Result<u64, ExecError>)
        ensures
            final(self)@ == run_spec(old(self)@, max_steps as nat).0,
            run_spec(old(self)@, max_steps as nat).1 matches Some(e) ==> r == Err::<u64, ExecError>(
                e,
            ),
            run_spec(old(self)@, max_steps as nat).1 is None ==> r == Ok::<u64, ExecError>(
                run_spec(old(self)@, max_steps as nat).2 as u64,
            ),
    {
        let mut n: u64 = 0;
        while n < max_steps && !self.halted
            invariant
                n <= max_steps,
                run_spec(old(self)@, max_steps as nat).0 == run_spec(
                    self@,
                    (max_steps - n) as nat,
                ).0,
                run_spec(old(self)@, max_steps as nat).1 == run_spec(
                    self@,
                    (max_steps - n) as nat,
                ).1,
                run_spec(old(self)@, max_steps as nat).2 == run_spec(
                    self@,
                    (max_steps - n) as nat,
                ).2 + n,
            decreases max_steps - n,
        {
            match self.exec() {
                Ok(()) => {},
                Err(e) => {
                    return Err(e);
                },
            }
            n += 1;
        }
        Ok(n)
    }

    /// Writes `data` at the stack pointer's slot, then moves the stack pointer down.
    pub fn stack_push(&mut self, data: u8)
        ensures
            final(self)@ == push(old(self)@, data),
    {
        self.bus.write(STACK_PAGE + self.reg.sp as u16, data);
        self.reg.sp = self.reg.sp.wrapping_sub(1);
    }

    /// Pushes the high byte of `data`, then its low byte.
    pub fn stack_push16(&mut self, data: u16)
        ensures
            final(self)@ == push16(old(self)@, data),
    {
        self.stack_push((data / 256) as u8);
        self.stack_push((data % 256) as u8);
    }

    /// Moves the stack pointer up, then reads its slot.
    pub fn stack_pop(&mut self) -> (r: u8)
        ensures
            r == top(old(self)@),
            final(self)@ == popped(old(self)@),
    {
        self.reg.sp = self.reg.sp.wrapping_add(1);
        self.bus.read(STACK_PAGE + self.reg.sp as u16)
    }

    /// Pops the low byte, then the high byte.
    pub fn stack_pop16(&mut self) -> (r: u16)
        ensures
            r == top16(old(self)@),
            final(self)@ == popped(popped(old(self)@)),
    {
        let lo = self.stack_pop();
        let hi = self.stack_pop();
        join_bytes(lo, hi)
    }

    /// Advances the program counter and reads the byte there.
    pub fn u8_operand(&mut self) -> (r: u8)
        ensures
            final(self).pc == wrap16(old(self).pc + 1),
            r == old(self)@.mem[final(self).pc as int],
            final(self)@ == (Machine { pc: final(self).pc, ..old(self)@ }),
    {
        self.pc = self.pc.wrapping_add(1);
        self.bus.read(self.pc)
    }

    /// Advances the program counter and reads the byte there as a signed number.
    pub fn i8_operand(&mut self) -> (r: i8)
        ensures
            final(self).pc == wrap16(old(self).pc + 1),
            r == signed(old(self)@.mem[final(self).pc as int]),
            final(self)@ == (Machine { pc: final(self).pc, ..old(self)@ }),
    {
        self.pc = self.pc.wrapping_add(1);
        let b = self.bus.read(self.pc);
        if b < 0x80 {
            b as i8
        } else {
            (b as i16 - 0x100) as i8
        }
    }

    /// Reads the two bytes after the program counter, low byte first, leaving
    /// the program counter on the second.
    pub fn u16_operand(&mut self) -> (r: u16)
        ensures
            final(self).pc == wrap16(old(self).pc + 2),
            r == word(
                old(self)@.mem[wrap16(old(self).pc + 1) as int],
                old(self)@.mem[final(self).pc as int],
            ),
            final(self)@ == (Machine { pc: final(self).pc, ..old(self)@ }),
    {
        self.pc = self.pc.wrapping_add(1);
        let lo = self.bus.read(self.pc);
        self.pc = self.pc.wrapping_add(1);
        let hi = self.bus.read(self.pc);
        join_bytes(lo, hi)
    }

    /// A relative branch by `w` when `c` holds, the program counter standing on
    /// the displacement byte. The displacement counts from the instruction
    /// after the branch. A taken branch costs one cycle, and one more when
    /// that instruction and the target lie on different pages; one not taken
    /// costs none.
    pub fn branch(&mut self, w: i8, c: bool)
        ensures
            final(self)@ == branch_to(old(self)@, w as int, c),
            final(self).bus.cycles == add_cycles(
                old(self).bus.cycles,
                if !c {
                    0
                } else if crosses_page(
                    wrap16(old(self).pc + 1),
                    wrap16(wrap16(old(self).pc + w) + 1),
                ) {
                    2
                } else {
                    1
                },
            ),
    {
        if !c {
            return;
        }
        self.bus.tick(1);
        let addr = if w >= 0 {
            self.pc.wrapping_add(w as u16)
        } else {
            self.pc.wrapping_sub((0 - w as i16) as u16)
        };
        if page_crossed(self.pc.wrapping_add(1), addr.wrapping_add(1)) {
            self.bus.tick(1);
        }
        self.pc = addr;
    }
}

} // verus!
