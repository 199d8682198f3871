use vstd::prelude::*;

verus! {

/// Number of addressable bytes: the full 16-bit address space.
pub const MEMORY_SIZE: usize = 0x10000;

/// Wraps a cycle count the way an unsigned 64-bit counter does.
pub open spec fn add_cycles(total: u64, n: int) -> u64 {
    ((total + n) % (u64::MAX as int + 1)) as u64
}

/// Flat memory over the whole address space, with a counter of elapsed cycles.
pub struct Bus {
    pub memory: [u8; MEMORY_SIZE],
    pub cycles: u64,
}

impl Bus {
    /// A bus with every byte zero and no cycle spent.
    pub fn new() -> (r: Bus)
        ensures
            r.memory@ == Seq::new(MEMORY_SIZE as nat, |i: int| 0u8),
            r.cycles == 0,
    {
        Bus { memory: [0u8; MEMORY_SIZE], cycles: 0 }
    }

    pub fn read(&self, adr: u16) -> (r: u8)
        ensures
            r == self.memory@[adr as int],
    {
        self.memory[adr as usize]
    }

    pub fn write(&mut self, adr: u16, data: u8)
        ensures
            final(self).memory@ == old(self).memory@.update(adr as int, data),
            final(self).cycles == old(self).cycles,
    {
        self.memory[adr as usize] = data;
    }

    /// Accounts `cycles` elapsed machine cycles.
    pub fn tick(&mut self, cycles: u8)
        ensures
            final(self).memory@ == old(self).memory@,
            final(self).cycles == add_cycles(old(self).cycles, cycles as int),
    {
        self.cycles = self.cycles.wrapping_add(cycles as u64);
    }
}

impl Default for Bus {
    fn default() -> (r: Bus)
        ensures
            r.memory@ == Seq::new(MEMORY_SIZE as nat, |i: int| 0u8),
            r.cycles == 0,
    {
        Bus::new()
    }
}

} // verus!
