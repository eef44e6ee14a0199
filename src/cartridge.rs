//! Cartridges: the program's backing store.
use vstd::prelude::*;

use crate::memory::{Cartridge, ReadOnlyMemory, ReadWriteMemory};

verus! {

/// The size of a cartridge without bank switching: 32 KiB.
pub const ROM_SIZE: usize = 0x8000;

/// A cartridge that maps one fixed 32 KiB array at the bottom of the address
/// space.
pub struct RomOnlyCartridge {
    rom: [u8; ROM_SIZE],
}

impl RomOnlyCartridge {
    /// The bytes of the cartridge; always `ROM_SIZE` of them.
    pub closed spec fn contents(&self) -> Seq<u8> {
        self.rom@
    }

    /// Every cartridge holds `ROM_SIZE` bytes.
    pub proof fn lemma_contents_size(&self)
        ensures
            self.contents().len() == ROM_SIZE,
    {
    }

    /// A cartridge holding `rom`.
    pub fn new(rom: [u8; ROM_SIZE]) -> (r: Self)
        ensures
            r.contents() == rom@,
    {
        RomOnlyCartridge { rom }
    }
}

impl ReadOnlyMemory for RomOnlyCartridge {
    open spec fn mapped(&self, addr: u16) -> bool {
        (addr as int) < ROM_SIZE
    }

    open spec fn byte_at(&self, addr: u16) -> u8 {
        self.contents()[addr as int]
    }

    fn read(&self, addr: u16) -> (r: u8) {
        self.rom[addr as usize]
    }
}

impl ReadWriteMemory for RomOnlyCartridge {
    fn write(&mut self, addr: u16, value: u8) {
        self.rom[addr as usize] = value;
    }
}

impl Cartridge for RomOnlyCartridge {

}

} // verus!
