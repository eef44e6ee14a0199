//! The processor's register file.
use vstd::prelude::*;

verus! {

/// The 16-bit registers of the processor.
pub struct Processor {
    pub af: u16,
    pub bc: u16,
    pub de: u16,
    pub hl: u16,
    pub program_counter: u16,
    pub stack_pointer: u16,
}

impl Processor {
    /// The processor as it stands after the boot program has run.
    pub fn new() -> (r: Self)
        ensures
            r.af == 0x01B0,
            r.bc == 0x0013,
            r.de == 0x00D8,
            r.hl == 0x014D,
            r.program_counter == 0x0100,
            r.stack_pointer == 0xFFFE,
    {
        Processor {
            af: 0x01B0,
            bc: 0x0013,
            de: 0x00D8,
            hl: 0x014D,
            program_counter: 0x0100,
            stack_pointer: 0xFFFE,
        }
    }

    /// One step of the processor. Commands are executed elsewhere, so the
    /// registers stay as they are.
    pub fn tick(&mut self)
        ensures
            *final(self) == *old(self),
    {
    }
}

} // verus!
