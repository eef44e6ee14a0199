//! The mnemonic tables: the operation name of each primary opcode and of
//! each second opcode after the prefix.
use vstd::prelude::*;

use crate::commands::{command_mnemonic, Mnemonic};
use crate::decoder::{prefixed_command, primary_command, quadrant, PREFIX_OPCODE};
use crate::table_builder::{mask_sequence, TableBuilder};
use crate::tables::{lemma_masks, lemma_quadrants_fill, quadrant_filled};

verus! {

/// The mnemonic that a primary opcode's entry holds: that of the command it
/// decodes to, `PREFIX` for the prefix opcode, and `NOP` for an undefined one.
pub open spec fn primary_mnemonic(op: u8, operands: Seq<u8>) -> Mnemonic {
    if op == PREFIX_OPCODE {
        Mnemonic::PREFIX
    } else {
        match command_mnemonic(primary_command(op, operands)) {
            Some(m) => m,
            None => Mnemonic::NOP,
        }
    }
}

fn first_quadrant_mnemonics(table: TableBuilder<Mnemonic, 256>) -> (r: TableBuilder<
    Mnemonic,
    256,
>)
    requires
        table.entries().len() == 256,
    ensures
        quadrant_filled(
            table.entries(),
            r.entries(),
            0,
            |op: u8, operands: Seq<u8>| primary_mnemonic(op, operands),
        ),
{
    let r = table
        .bitmask_map(0b11000011, 0x02, Mnemonic::LD)
        .bitmask_map_sequence(0b11000111, 0x04, 0x01, [Mnemonic::INC, Mnemonic::DEC])
        .bitmask_map_sequence(0b11001111, 0x03, 0x08, [Mnemonic::INC, Mnemonic::DEC])
        // relative jumps; three of them are overridden below
        .bitmask_map(0b11000111, 0x00, Mnemonic::JR)
        .bitmask_map_sequence(0b11001111, 0x01, 0x08, [Mnemonic::LD, Mnemonic::ADD])
        .bitmask_map_sequence(
            0b11111111,
            0x07,
            0x10,
            [Mnemonic::RLC, Mnemonic::RL, Mnemonic::DAA, Mnemonic::SCF],
        )
        .bitmask_map_sequence(
            0b11111111,
            0x0F,
            0x10,
            [Mnemonic::RRC, Mnemonic::RR, Mnemonic::CPL, Mnemonic::CCF],
        )
        .bitmask_map_sequence(0b11110111, 0x22, 0x10, [Mnemonic::LDI, Mnemonic::LDD])
        .bitmask_map_sequence(0b11111111, 0x00, 0x10, [Mnemonic::NOP, Mnemonic::STOP])
        .bitmask_map(0b11111111, 0x08, Mnemonic::LD);
    proof {
        reveal_with_fuel(mask_sequence, 9);
        assert forall|op: u8, operands: Seq<u8>| quadrant(op) == 0 implies r.entries()[op as int]
            == #[trigger] primary_mnemonic(op, operands) by {
            lemma_masks(op as usize);
        }
        assert forall|op: u8| quadrant(op) != 0 implies r.entries()[op as int]
            == table.entries()[op as int] by {
            lemma_masks(op as usize);
        }
    }
    r
}

fn second_quadrant_mnemonics(table: TableBuilder<Mnemonic, 256>) -> (r: TableBuilder<
    Mnemonic,
    256,
>)
    requires
        table.entries().len() == 256,
    ensures
        quadrant_filled(
            table.entries(),
            r.entries(),
            1,
            |op: u8, operands: Seq<u8>| primary_mnemonic(op, operands),
        ),
{
    let r = table
        .bitmask_map(0b11000000, 0x40, Mnemonic::LD)
        .bitmask_map(0b11111111, 0x76, Mnemonic::HALT);
    proof {
        assert forall|op: u8, operands: Seq<u8>| quadrant(op) == 1 implies r.entries()[op as int]
            == #[trigger] primary_mnemonic(op, operands) by {
            lemma_masks(op as usize);
        }
        assert forall|op: u8| quadrant(op) != 1 implies r.entries()[op as int]
            == table.entries()[op as int] by {
            lemma_masks(op as usize);
        }
    }
    r
}

const ALU_MNEMONICS: [Mnemonic; 8] = [
    Mnemonic::ADD,
    Mnemonic::ADC,
    Mnemonic::SUB,
    Mnemonic::SBC,
    Mnemonic::AND,
    Mnemonic::XOR,
    Mnemonic::OR,
    Mnemonic::CP,
];

fn third_quadrant_mnemonics(table: TableBuilder<Mnemonic, 256>) -> (r: TableBuilder<
    Mnemonic,
    256,
>)
    requires
        table.entries().len() == 256,
    ensures
        quadrant_filled(
            table.entries(),
            r.entries(),
            2,
            |op: u8, operands: Seq<u8>| primary_mnemonic(op, operands),
        ),
{
    let r = table.bitmask_map_sequence(0b11111000, 0x80, 0x08, ALU_MNEMONICS);
    proof {
        reveal_with_fuel(mask_sequence, 9);
        assert forall|op: u8, operands: Seq<u8>| quadrant(op) == 2 implies r.entries()[op as int]
            == #[trigger] primary_mnemonic(op, operands) by {
            lemma_masks(op as usize);
        }
        assert forall|op: u8| quadrant(op) != 2 implies r.entries()[op as int]
            == table.entries()[op as int] by {
            lemma_masks(op as usize);
        }
    }
    r
}

fn last_quadrant_mnemonics(table: TableBuilder<Mnemonic, 256>) -> (r: TableBuilder<
    Mnemonic,
    256,
>)
    requires
        table.entries().len() == 256,
        forall|op: u8| quadrant(op) == 3 ==> table.entries()[op as int] == Mnemonic::NOP,
    ensures
        quadrant_filled(
            table.entries(),
            r.entries(),
            3,
            |op: u8, operands: Seq<u8>| primary_mnemonic(op, operands),
        ),
{
    let r = table
        .bitmask_map_sequence(
            0b11100111,
            0xC0,
            0x02,
            [Mnemonic::RET, Mnemonic::JP, Mnemonic::CALL],
        )
        .bitmask_map(0b11000111, 0xC7, Mnemonic::RST)
        .bitmask_map_sequence(0b11001111, 0xC1, 0x04, [Mnemonic::POP, Mnemonic::PUSH])
        .bitmask_map(0b11100101, 0xE0, Mnemonic::LD)
        .bitmask_map_sequence(0b11111111, 0xC6, 0x08, ALU_MNEMONICS)
        .bitmask_map_sequence(
            0b11111111,
            0xC9,
            0x10,
            [Mnemonic::RET, Mnemonic::RETI, Mnemonic::JP, Mnemonic::LD],
        )
        .bitmask_map_sequence(0b11111111, 0xC3, 0x08, [Mnemonic::JP, Mnemonic::PREFIX])
        .bitmask_map_sequence(0b11111111, 0xF3, 0x08, [Mnemonic::DI, Mnemonic::EI])
        .bitmask_map(0b11111111, 0xE8, Mnemonic::ADD)
        .bitmask_map(0b11111111, 0xCD, Mnemonic::CALL);
    proof {
        reveal_with_fuel(mask_sequence, 9);
        assert forall|op: u8, operands: Seq<u8>| quadrant(op) == 3 implies r.entries()[op as int]
            == #[trigger] primary_mnemonic(op, operands) by {
            lemma_masks(op as usize);
        }
        assert forall|op: u8| quadrant(op) != 3 implies r.entries()[op as int]
            == table.entries()[op as int] by {
            lemma_masks(op as usize);
        }
    }
    r
}

/// The mnemonic of each primary opcode.
pub fn mnemonic_table() -> (r: Vec<Mnemonic>)
    ensures
        r@.len() == 256,
        forall|op: u8, operands: Seq<u8>|
            r@[op as int] == #[trigger] primary_mnemonic(op, operands),
{
    let empty = TableBuilder::<Mnemonic, 256>::new(Mnemonic::NOP);
    let first = first_quadrant_mnemonics(empty);
    let second = second_quadrant_mnemonics(first);
    let third = third_quadrant_mnemonics(second);
    let last = last_quadrant_mnemonics(third);
    let r = last.build();
    proof {
        let expected = |op: u8, operands: Seq<u8>| primary_mnemonic(op, operands);
        lemma_quadrants_fill(
            empty.entries(),
            first.entries(),
            second.entries(),
            third.entries(),
            last.entries(),
            expected,
        );
        assert forall|op: u8, operands: Seq<u8>|
            r@[op as int] == #[trigger] primary_mnemonic(op, operands) by {
            assert(expected(op, operands) == primary_mnemonic(op, operands));
        }
    }
    r
}

/// The mnemonic of each second opcode after the prefix.
pub fn prefixed_mnemonic_table() -> (r: Vec<Mnemonic>)
    ensures
        r@.len() == 256,
        forall|op: u8| r@[op as int] == command_mnemonic(prefixed_command(op))->0,
{
    let r = TableBuilder::<Mnemonic, 256>::new(Mnemonic::NOP)
        .bitmask_map_sequence(
            0b11111000,
            0x00,
            0x08,
            [
                Mnemonic::RLC,
                Mnemonic::RRC,
                Mnemonic::RL,
                Mnemonic::RR,
                Mnemonic::SLA,
                Mnemonic::SRA,
                Mnemonic::SWAP,
                Mnemonic::SRL,
            ],
        )
        .bitmask_map_sequence(0b11000000, 0x40, 0x40, [Mnemonic::BIT, Mnemonic::RES, Mnemonic::SET])
        .build();
    proof {
        reveal_with_fuel(mask_sequence, 9);
        assert forall|op: u8| r@[op as int] == command_mnemonic(prefixed_command(op))->0 by {
            lemma_masks(op as usize);
        }
    }
    r
}

} // verus!
