//! The byte-addressable memory capability that resolved operands refer to.
use vstd::prelude::*;

use crate::decoder::little_endian;

verus! {

/// The address after `addr`, wrapping at the top of the address space.
pub open spec fn next_address(addr: u16) -> u16 {
    if addr == 0xFFFF {
        0
    } else {
        (addr + 1) as u16
    }
}

fn following_address(addr: u16) -> (r: u16)
    ensures
        r == next_address(addr),
{
    if addr == 0xFFFF {
        0
    } else {
        addr + 1
    }
}

/// Memory that can be read a byte at a time.
pub trait ReadOnlyMemory {
    /// Whether `addr` lies in the window this memory maps.
    spec fn mapped(&self, addr: u16) -> bool;

    /// The byte stored at a mapped address.
    spec fn byte_at(&self, addr: u16) -> u8;

    /// Reads the byte at `addr`.
    fn read(&self, addr: u16) -> (r: u8)
        requires
            self.mapped(addr),
        ensures
            r == self.byte_at(addr),
    ;

    /// Reads the 16-bit value at `addr`, low byte first.
    fn read_wide(&self, addr: u16) -> (r: u16)
        requires
            self.mapped(addr),
            self.mapped(next_address(addr)),
        ensures
            r == little_endian(self.byte_at(addr), self.byte_at(next_address(addr))),
    {
        let low = self.read(addr);
        let high = self.read(following_address(addr));
        low as u16 + 256 * high as u16
    }
}

/// Memory that can also be written a byte at a time.
pub trait ReadWriteMemory: ReadOnlyMemory {
    /// Writes `value` at `addr`; every other mapped byte and the mapped
    /// window stay as they were.
    fn write(&mut self, addr: u16, value: u8)
        requires
            old(self).mapped(addr),
        ensures
            forall|a: u16| final(self).mapped(a) == old(self).mapped(a),
            final(self).byte_at(addr) == value,
            forall|a: u16|
                a != addr && old(self).mapped(a) ==> final(self).byte_at(a) == old(self).byte_at(a),
    ;

    /// Writes the 16-bit `value` at `addr`, low byte first; every other
    /// mapped byte stays as it was.
    fn write_wide(&mut self, addr: u16, value: u16)
        requires
            old(self).mapped(addr),
            old(self).mapped(next_address(addr)),
        ensures
            forall|a: u16| final(self).mapped(a) == old(self).mapped(a),
            final(self).byte_at(addr) == value % 256,
            final(self).byte_at(next_address(addr)) == value / 256,
            forall|a: u16|
                a != addr && a != next_address(addr) && old(self).mapped(a) ==> final(self).byte_at(
                    a,
                ) == old(self).byte_at(a),
    {
        let low = (value % 256) as u8;
        let high = (value / 256) as u8;
        self.write(addr, low);
        self.write(following_address(addr), high);
    }
}

/// A cartridge: memory that answers reads and writes over its window.
pub trait Cartridge: ReadWriteMemory {

}

} // verus!
