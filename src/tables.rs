//! Opcode-indexed tables, built from ordered masked rules: the mnemonic of
//! each opcode, and the shapes of its destination and source operands.
//!
//! Each table is proved to agree with the decoder: the entry of an opcode
//! describes the command that the opcode decodes to.
use vstd::prelude::*;

use crate::commands::{command_destination, command_mnemonic, MemoryOperand, Mnemonic};
use crate::decoder::{prefixed_command, quadrant};
use crate::tables::mnemonic::{mnemonic_table, prefixed_mnemonic_table, primary_mnemonic};
use crate::tables::operands::{
    destination_entry,
    destination_table,
    prefixed_destination_table,
    source_entry,
    source_table,
};

pub mod mnemonic;
pub mod operands;

verus! {

/// Each mask that the tables use, as arithmetic on the bit fields of an
/// index below 256.
pub(crate) proof fn lemma_masks(i: usize)
    requires
        i < 256,
    ensures
        i & 0xFF == i,
        i & 0xC0 == 64 * (i / 64),
        i & 0xF8 == 64 * (i / 64) + 8 * ((i / 8) % 8),
        i & 0x07 == i % 8,
        i & 0xC3 == 64 * (i / 64) + i % 4,
        i & 0xC7 == 64 * (i / 64) + i % 8,
        i & 0xCF == 64 * (i / 64) + 8 * ((i / 8) % 2) + i % 8,
        i & 0xF7 == 64 * (i / 64) + 16 * ((i / 16) % 4) + i % 8,
        i & 0xE7 == 64 * (i / 64) + 32 * ((i / 32) % 2) + i % 8,
        i & 0xE5 == 64 * (i / 64) + 32 * ((i / 32) % 2) + 4 * ((i / 4) % 2) + i % 2,
{
    assert(i < 256 ==> i & 0xFF == i && i & 0xC0 == 64 * (i / 64) && i & 0xF8 == 64 * (i / 64) + 8
        * ((i / 8) % 8) && i & 0x07 == i % 8 && i & 0xC3 == 64 * (i / 64) + i % 4 && i & 0xC7 == 64
        * (i / 64) + i % 8 && i & 0xCF == 64 * (i / 64) + 8 * ((i / 8) % 2) + i % 8 && i & 0xF7 == 64
        * (i / 64) + 16 * ((i / 16) % 4) + i % 8 && i & 0xE7 == 64 * (i / 64) + 32 * ((i / 32) % 2) + i
        % 8 && i & 0xE5 == 64 * (i / 64) + 32 * ((i / 32) % 2) + 4 * ((i / 4) % 2) + i % 2)
        by (bit_vector);
}

/// The rules of one quadrant: they set each entry of that quadrant to what
/// `expected` gives for its opcode, and leave every other entry as it was.
pub(crate) open spec fn quadrant_filled<B>(
    before: Seq<B>,
    after: Seq<B>,
    x: int,
    expected: spec_fn(u8, Seq<u8>) -> B,
) -> bool {
    &&& after.len() == before.len()
    &&& forall|op: u8, operands: Seq<u8>|
        quadrant(op) == x ==> after[op as int] == #[trigger] expected(op, operands)
    &&& forall|op: u8| quadrant(op) != x ==> after[op as int] == before[op as int]
}

/// Four quadrant steps, one after the other, fill the whole table.
pub(crate) proof fn lemma_quadrants_fill<B>(
    t0: Seq<B>,
    t1: Seq<B>,
    t2: Seq<B>,
    t3: Seq<B>,
    t4: Seq<B>,
    expected: spec_fn(u8, Seq<u8>) -> B,
)
    requires
        t0.len() == 256,
        quadrant_filled(t0, t1, 0, expected),
        quadrant_filled(t1, t2, 1, expected),
        quadrant_filled(t2, t3, 2, expected),
        quadrant_filled(t3, t4, 3, expected),
    ensures
        t4.len() == 256,
        forall|op: u8, operands: Seq<u8>| t4[op as int] == #[trigger] expected(op, operands),
{
    assert forall|op: u8, operands: Seq<u8>| t4[op as int] == #[trigger] expected(
        op,
        operands,
    ) by {
        assert(0 <= quadrant(op) < 4);
    }
}

/// The opcode tables, built once and read by lookups.
pub struct OpcodeTables {
    mnemonics: Vec<Mnemonic>,
    prefixed_mnemonics: Vec<Mnemonic>,
    destinations: Vec<Option<MemoryOperand>>,
    sources: Vec<Option<MemoryOperand>>,
    prefixed_destinations: Vec<Option<MemoryOperand>>,
}

impl OpcodeTables {
    /// Each table has an entry per opcode, and that entry describes the
    /// command the opcode decodes to.
    #[verifier::type_invariant]
    spec fn agrees_with_decoder(&self) -> bool {
        &&& self.mnemonics@.len() == 256
        &&& self.prefixed_mnemonics@.len() == 256
        &&& self.destinations@.len() == 256
        &&& self.sources@.len() == 256
        &&& self.prefixed_destinations@.len() == 256
        &&& forall|op: u8, operands: Seq<u8>|
            self.mnemonics@[op as int] == #[trigger] primary_mnemonic(op, operands)
        &&& forall|op: u8, operands: Seq<u8>|
            self.destinations@[op as int] == #[trigger] destination_entry(op, operands)
        &&& forall|op: u8, operands: Seq<u8>|
            self.sources@[op as int] == #[trigger] source_entry(op, operands)
        &&& forall|op: u8|
            self.prefixed_mnemonics@[op as int] == command_mnemonic(
                #[trigger] prefixed_command(op),
            )->0
        &&& forall|op: u8|
            self.prefixed_destinations@[op as int] == command_destination(
                #[trigger] prefixed_command(op),
            )
    }

    /// Builds every table.
    pub fn new() -> (r: Self) {
        OpcodeTables {
            mnemonics: mnemonic_table(),
            prefixed_mnemonics: prefixed_mnemonic_table(),
            destinations: destination_table(),
            sources: source_table(),
            prefixed_destinations: prefixed_destination_table(),
        }
    }

    /// The mnemonic of a primary opcode.
    pub fn decode_mnemonic(&self, opcode: u8) -> (r: Mnemonic)
        ensures
            forall|operands: Seq<u8>| r == #[trigger] primary_mnemonic(opcode, operands),
    {
        proof {
            use_type_invariant(self);
        }
        self.mnemonics[opcode as usize]
    }

    /// The mnemonic of a second opcode after the prefix.
    pub fn decode_prefixed_mnemonic(&self, opcode: u8) -> (r: Mnemonic)
        ensures
            r == command_mnemonic(prefixed_command(opcode))->0,
    {
        proof {
            use_type_invariant(self);
        }
        self.prefixed_mnemonics[opcode as usize]
    }

    /// The destination shape of a primary opcode.
    pub fn destination(&self, opcode: u8) -> (r: Option<MemoryOperand>)
        ensures
            forall|operands: Seq<u8>| r == #[trigger] destination_entry(opcode, operands),
    {
        proof {
            use_type_invariant(self);
        }
        self.destinations[opcode as usize]
    }

    /// The source shape of a primary opcode.
    pub fn source(&self, opcode: u8) -> (r: Option<MemoryOperand>)
        ensures
            forall|operands: Seq<u8>| r == #[trigger] source_entry(opcode, operands),
    {
        proof {
            use_type_invariant(self);
        }
        self.sources[opcode as usize]
    }

    /// The destination shape of a second opcode after the prefix.
    pub fn prefixed_destination(&self, opcode: u8) -> (r: Option<MemoryOperand>)
        ensures
            r == command_destination(prefixed_command(opcode)),
    {
        proof {
            use_type_invariant(self);
        }
        self.prefixed_destinations[opcode as usize]
    }
}

} // verus!
