//! A flat 64 KiB memory, without mapping: every address is plain RAM.

use vstd::prelude::*;

verus! {

pub struct Ram {
    pub memory: Vec<u8>,
}

impl Ram {
    pub open spec fn wf(&self) -> bool {
        self.memory@.len() == 0x10000
    }

    pub fn new() -> (r: Ram)
        ensures
            r.wf(),
            r.memory@ == Seq::new(0x10000, |i: int| 0u8),
    {
        let mut memory: Vec<u8> = Vec::new();
        let mut i: usize = 0;
        while i < 0x10000
            invariant
                i <= 0x10000,
                memory@ == Seq::new(i as nat, |j: int| 0u8),
            decreases 0x10000 - i,
        {
            memory.push(0);
            assert(memory@ =~= Seq::new((i + 1) as nat, |j: int| 0u8));
            i = i + 1;
        }
        Ram { memory }
    }

    /// Copies `rom` to the start of memory.
    pub fn load_rom(&mut self, rom: &Vec<u8>)
        requires
            old(self).wf(),
            rom@.len() <= 0x10000,
        ensures
            final(self).wf(),
            forall|i: int| 0 <= i < rom@.len() ==> final(self).memory@[i] == rom@[i],
            forall|i: int| rom@.len() <= i < 0x10000 ==> final(self).memory@[i] == old(self).memory@[i],
    {
        let mut i: usize = 0;
        while i < rom.len()
            invariant
                self.wf(),
                i <= rom@.len(),
                rom@.len() <= 0x10000,
                forall|j: int| 0 <= j < i ==> self.memory@[j] == rom@[j],
                forall|j: int| i <= j < 0x10000 ==> self.memory@[j] == old(self).memory@[j],
            decreases rom@.len() - i,
        {
            self.memory.set(i, rom[i]);
            i = i + 1;
        }
    }

    pub fn read(&self, address: u16) -> (r: u8)
        requires
            self.wf(),
        ensures
            r == self.memory@[address as int],
    {
        self.memory[address as usize]
    }

    pub fn read_signed(&self, address: u16) -> (r: i8)
        requires
            self.wf(),
        ensures
            r == self.memory@[address as int] as i8,
    {
        self.memory[address as usize] as i8
    }

    /// The little-endian word at `address` (the high byte wraps to 0).
    pub fn read16(&self, address: u16) -> (r: u16)
        requires
            self.wf(),
        ensures
            r == self.memory@[address as int] + 256 * self.memory@[((address + 1) % 0x10000)],
    {
        let lo = self.read(address);
        let hi = self.read(address.wrapping_add(1));
        lo as u16 + 256 * hi as u16
    }

    pub fn write(&mut self, address: u16, value: u8)
        requires
            old(self).wf(),
        ensures
            final(self).wf(),
            final(self).memory@ == old(self).memory@.update(address as int, value),
    {
        self.memory.set(address as usize, value);
    }

    /// Writes the word `value` at `address`, low byte first.
    pub fn write16(&mut self, address: u16, value: u16)
        requires
            old(self).wf(),
        ensures
            final(self).wf(),
            final(self).memory@ == old(self).memory@.update(address as int, (value % 256) as u8).update(
                ((address + 1) % 0x10000),
                (value / 256) as u8,
            ),
    {
        self.write(address, (value % 256) as u8);
        self.write(address.wrapping_add(1), (value / 256) as u8);
    }
}

} // verus!
