//! The operand tables: the shape of the destination and of the source
//! operand of each opcode, or `None` where its command has no such operand.
use vstd::prelude::*;

use crate::commands::{
    command_destination,
    operand_shape,
    command_source,
    MemoryOperand,
    Register,
    WideRegister,
};
use crate::decoder::{
    column,
    prefixed_command,
    primary_command,
    quadrant,
    register_table,
    row,
    PREFIX_OPCODE,
};
use crate::table_builder::{mask_sequence, TableBuilder};
use crate::tables::{lemma_masks, lemma_quadrants_fill, quadrant_filled};

verus! {

/// The destination entry of a primary opcode: that of the command it
/// decodes to; none for the prefix opcode, whose operands are those of the
/// second opcode.
pub open spec fn destination_entry(op: u8, operands: Seq<u8>) -> Option<MemoryOperand> {
    if op == PREFIX_OPCODE {
        None
    } else {
        command_destination(primary_command(op, operands))
    }
}

/// The source entry of a primary opcode: that of the command it decodes to;
/// none for the prefix opcode.
pub open spec fn source_entry(op: u8, operands: Seq<u8>) -> Option<MemoryOperand> {
    if op == PREFIX_OPCODE {
        None
    } else {
        command_source(primary_command(op, operands))
    }
}

/// The 8-way operands: B, C, D, E, H, L, the byte addressed by HL, A.
fn register_shapes() -> (r: [Option<MemoryOperand>; 8])
    ensures
        r@.len() == 8,
        r@[0] == Some(MemoryOperand::RegisterValue(Register::B)),
        r@[1] == Some(MemoryOperand::RegisterValue(Register::C)),
        r@[2] == Some(MemoryOperand::RegisterValue(Register::D)),
        r@[3] == Some(MemoryOperand::RegisterValue(Register::E)),
        r@[4] == Some(MemoryOperand::RegisterValue(Register::H)),
        r@[5] == Some(MemoryOperand::RegisterValue(Register::L)),
        r@[6] == Some(MemoryOperand::WideRegisterReference(WideRegister::HL)),
        r@[7] == Some(MemoryOperand::RegisterValue(Register::A)),
{
    [
        Some(MemoryOperand::RegisterValue(Register::B)),
        Some(MemoryOperand::RegisterValue(Register::C)),
        Some(MemoryOperand::RegisterValue(Register::D)),
        Some(MemoryOperand::RegisterValue(Register::E)),
        Some(MemoryOperand::RegisterValue(Register::H)),
        Some(MemoryOperand::RegisterValue(Register::L)),
        Some(MemoryOperand::WideRegisterReference(WideRegister::HL)),
        Some(MemoryOperand::RegisterValue(Register::A)),
    ]
}

/// The register pairs of loads, increments and adds.
fn wide_shapes() -> (r: [Option<MemoryOperand>; 4])
    ensures
        r@.len() == 4,
        r@[0] == Some(MemoryOperand::WideRegisterValue(WideRegister::BC)),
        r@[1] == Some(MemoryOperand::WideRegisterValue(WideRegister::DE)),
        r@[2] == Some(MemoryOperand::WideRegisterValue(WideRegister::HL)),
        r@[3] == Some(MemoryOperand::WideRegisterValue(WideRegister::SP)),
{
    [
        Some(MemoryOperand::WideRegisterValue(WideRegister::BC)),
        Some(MemoryOperand::WideRegisterValue(WideRegister::DE)),
        Some(MemoryOperand::WideRegisterValue(WideRegister::HL)),
        Some(MemoryOperand::WideRegisterValue(WideRegister::SP)),
    ]
}

/// The register pairs of pushes and pops.
fn stack_shapes() -> (r: [Option<MemoryOperand>; 4])
    ensures
        r@.len() == 4,
        r@[0] == Some(MemoryOperand::WideRegisterValue(WideRegister::BC)),
        r@[1] == Some(MemoryOperand::WideRegisterValue(WideRegister::DE)),
        r@[2] == Some(MemoryOperand::WideRegisterValue(WideRegister::HL)),
        r@[3] == Some(MemoryOperand::WideRegisterValue(WideRegister::AF)),
{
    [
        Some(MemoryOperand::WideRegisterValue(WideRegister::BC)),
        Some(MemoryOperand::WideRegisterValue(WideRegister::DE)),
        Some(MemoryOperand::WideRegisterValue(WideRegister::HL)),
        Some(MemoryOperand::WideRegisterValue(WideRegister::AF)),
    ]
}

/// The addresses of the indirect loads of A: BC, DE, HL then incremented,
/// HL then decremented.
fn indirect_shapes() -> (r: [Option<MemoryOperand>; 4])
    ensures
        r@.len() == 4,
        r@[0] == Some(MemoryOperand::WideRegisterReference(WideRegister::BC)),
        r@[1] == Some(MemoryOperand::WideRegisterReference(WideRegister::DE)),
        r@[2] == Some(MemoryOperand::WideRegisterReference(WideRegister::HL)),
        r@[3] == Some(MemoryOperand::WideRegisterReference(WideRegister::HL)),
{
    [
        Some(MemoryOperand::WideRegisterReference(WideRegister::BC)),
        Some(MemoryOperand::WideRegisterReference(WideRegister::DE)),
        Some(MemoryOperand::WideRegisterReference(WideRegister::HL)),
        Some(MemoryOperand::WideRegisterReference(WideRegister::HL)),
    ]
}

/// One column of the first quadrant whose destination is the 8-way operand
/// of bits 5-3.
fn row_register_destinations(table: TableBuilder<Option<MemoryOperand>, 256>, z: usize) -> (r:
    TableBuilder<Option<MemoryOperand>, 256>)
    requires
        table.entries().len() == 256,
        z < 8,
    ensures
        r.entries().len() == 256,
        forall|op: u8|
            quadrant(op) == 0 && column(op) == z ==> r.entries()[op as int] == Some(
                operand_shape(register_table(row(op))),
            ),
        forall|op: u8|
            !(quadrant(op) == 0 && column(op) == z) ==> r.entries()[op as int]
                == table.entries()[op as int],
{
    let r = table.bitmask_map_sequence(0b11111111, z, 0x08, register_shapes());
    proof {
        reveal_with_fuel(mask_sequence, 9);
        assert forall|op: u8| quadrant(op) == 0 && column(op) == z implies r.entries()[op as int]
            == Some(operand_shape(register_table(row(op)))) by {
            lemma_masks(op as usize);
        }
        assert forall|op: u8| !(quadrant(op) == 0 && column(op) == z) implies r.entries()[op as int]
            == table.entries()[op as int] by {
            lemma_masks(op as usize);
        }
    }
    r
}

/// The increments, decrements and immediate loads of the first quadrant.
fn register_destinations(table: TableBuilder<Option<MemoryOperand>, 256>) -> (r: TableBuilder<
    Option<MemoryOperand>,
    256,
>)
    requires
        table.entries().len() == 256,
    ensures
        r.entries().len() == 256,
        forall|op: u8, operands: Seq<u8>|
            quadrant(op) == 0 && 4 <= column(op) <= 6 ==> r.entries()[op as int]
                == #[trigger] destination_entry(op, operands),
        forall|op: u8|
            !(quadrant(op) == 0 && 4 <= column(op) <= 6) ==> r.entries()[op as int]
                == table.entries()[op as int],
{
    row_register_destinations(row_register_destinations(row_register_destinations(table, 4), 5), 6)
}

fn first_quadrant_destinations(table: TableBuilder<Option<MemoryOperand>, 256>) -> (r: TableBuilder<
    Option<MemoryOperand>,
    256,
>)
    requires
        table.entries().len() == 256,
        forall|op: u8| quadrant(op) == 0 ==> table.entries()[op as int] is None,
    ensures
        quadrant_filled(
            table.entries(),
            r.entries(),
            0,
            |op: u8, operands: Seq<u8>| destination_entry(op, operands),
        ),
{
    let r = register_destinations(table)
        // relative jumps; three of them are overridden below
        .bitmask_map(0b11000111, 0x00, Some(MemoryOperand::ImmediateSignedProgramCounterOffset))
        .bitmask_map(0b11111111, 0x00, None)
        .bitmask_map(0b11111111, 0x08, Some(MemoryOperand::WideImmediateReference))
        .bitmask_map(0b11111111, 0x10, None)
        .bitmask_map_sequence(0b11111111, 0x01, 0x10, wide_shapes())
        .bitmask_map(0b11001111, 0x09, Some(MemoryOperand::WideRegisterValue(WideRegister::HL)))
        .bitmask_map_sequence(0b11111111, 0x02, 0x10, indirect_shapes())
        .bitmask_map(0b11001111, 0x0A, Some(MemoryOperand::RegisterValue(Register::A)))
        .bitmask_map_sequence(0b11110111, 0x03, 0x10, wide_shapes())
        .bitmask_map(0b11100111, 0x07, Some(MemoryOperand::RegisterValue(Register::A)));
    proof {
        reveal_with_fuel(mask_sequence, 9);
        assert forall|op: u8, operands: Seq<u8>| quadrant(op) == 0 implies r.entries()[op as int]
            == #[trigger] destination_entry(op, operands) by {
            lemma_masks(op as usize);
        }
        assert forall|op: u8| quadrant(op) != 0 implies r.entries()[op as int]
            == table.entries()[op as int] by {
            lemma_masks(op as usize);
        }
    }
    r
}

fn second_quadrant_destinations(table: TableBuilder<Option<MemoryOperand>, 256>) -> (r: TableBuilder<
    Option<MemoryOperand>,
    256,
>)
    requires
        table.entries().len() == 256,
        forall|op: u8| quadrant(op) == 1 ==> table.entries()[op as int] is None,
    ensures
        quadrant_filled(
            table.entries(),
            r.entries(),
            1,
            |op: u8, operands: Seq<u8>| destination_entry(op, operands),
        ),
{
    let r = table
        .bitmask_map_sequence(0b11111000, 0x40, 0x08, register_shapes())
        .bitmask_map(0b11111111, 0x76, None);
    proof {
        reveal_with_fuel(mask_sequence, 9);
        assert forall|op: u8, operands: Seq<u8>| quadrant(op) == 1 implies r.entries()[op as int]
            == #[trigger] destination_entry(op, operands) by {
            lemma_masks(op as usize);
        }
        assert forall|op: u8| quadrant(op) != 1 implies r.entries()[op as int]
            == table.entries()[op as int] by {
            lemma_masks(op as usize);
        }
    }
    r
}

fn third_quadrant_destinations(table: TableBuilder<Option<MemoryOperand>, 256>) -> (r: TableBuilder<
    Option<MemoryOperand>,
    256,
>)
    requires
        table.entries().len() == 256,
        forall|op: u8| quadrant(op) == 2 ==> table.entries()[op as int] is None,
    ensures
        quadrant_filled(
            table.entries(),
            r.entries(),
            2,
            |op: u8, operands: Seq<u8>| destination_entry(op, operands),
        ),
{
    let r = table
        .bitmask_map(0b11000000, 0x80, Some(MemoryOperand::RegisterValue(Register::A)));
    proof {
        assert forall|op: u8, operands: Seq<u8>| quadrant(op) == 2 implies r.entries()[op as int]
            == #[trigger] destination_entry(op, operands) by {
            lemma_masks(op as usize);
        }
        assert forall|op: u8| quadrant(op) != 2 implies r.entries()[op as int]
            == table.entries()[op as int] by {
            lemma_masks(op as usize);
        }
    }
    r
}

#[verifier::rlimit(40)]
fn last_quadrant_destinations(table: TableBuilder<Option<MemoryOperand>, 256>) -> (r: TableBuilder<
    Option<MemoryOperand>,
    256,
>)
    requires
        table.entries().len() == 256,
        forall|op: u8| quadrant(op) == 3 ==> table.entries()[op as int] is None,
    ensures
        quadrant_filled(
            table.entries(),
            r.entries(),
            3,
            |op: u8, operands: Seq<u8>| destination_entry(op, operands),
        ),
{
    let r = table
        .bitmask_map_sequence(
            0b11111111,
            0xE0,
            0x08,
            [
                Some(MemoryOperand::ImmediateReference),
                Some(MemoryOperand::WideRegisterValue(WideRegister::SP)),
                Some(MemoryOperand::RegisterValue(Register::A)),
                Some(MemoryOperand::WideRegisterValue(WideRegister::HL)),
            ],
        )
        .bitmask_map_sequence(0b11111111, 0xC1, 0x10, stack_shapes())
        .bitmask_map_sequence(
            0b11111111,
            0xE9,
            0x10,
            [
                Some(MemoryOperand::WideRegisterValue(WideRegister::HL)),
                Some(MemoryOperand::WideRegisterValue(WideRegister::SP)),
            ],
        )
        .bitmask_map(0b11100111, 0xC2, Some(MemoryOperand::WideImmediateValue))
        .bitmask_map_sequence(
            0b11111111,
            0xE2,
            0x08,
            [
                Some(MemoryOperand::RegisterReference(Register::C)),
                Some(MemoryOperand::WideImmediateReference),
                Some(MemoryOperand::RegisterValue(Register::A)),
                Some(MemoryOperand::RegisterValue(Register::A)),
            ],
        )
        .bitmask_map(0b11111111, 0xC3, Some(MemoryOperand::WideImmediateValue))
        .bitmask_map(0b11100111, 0xC4, Some(MemoryOperand::WideImmediateValue))
        .bitmask_map(0b11111111, 0xCD, Some(MemoryOperand::WideImmediateValue))
        .bitmask_map(0b11000111, 0xC6, Some(MemoryOperand::RegisterValue(Register::A)));
    proof {
        reveal_with_fuel(mask_sequence, 9);
        assert forall|op: u8, operands: Seq<u8>| quadrant(op) == 3 implies r.entries()[op as int]
            == #[trigger] destination_entry(op, operands) by {
            lemma_masks(op as usize);
        }
        assert forall|op: u8| quadrant(op) != 3 implies r.entries()[op as int]
            == table.entries()[op as int] by {
            lemma_masks(op as usize);
        }
    }
    r
}

fn first_quadrant_sources(table: TableBuilder<Option<MemoryOperand>, 256>) -> (r: TableBuilder<
    Option<MemoryOperand>,
    256,
>)
    requires
        table.entries().len() == 256,
        forall|op: u8| quadrant(op) == 0 ==> table.entries()[op as int] is None,
    ensures
        quadrant_filled(
            table.entries(),
            r.entries(),
            0,
            |op: u8, operands: Seq<u8>| source_entry(op, operands),
        ),
{
    let r = table
        .bitmask_map(0b11111111, 0x08, Some(MemoryOperand::WideRegisterValue(WideRegister::SP)))
        .bitmask_map(0b11001111, 0x01, Some(MemoryOperand::WideImmediateValue))
        .bitmask_map_sequence(0b11111111, 0x09, 0x10, wide_shapes())
        .bitmask_map(0b11001111, 0x02, Some(MemoryOperand::RegisterValue(Register::A)))
        .bitmask_map_sequence(0b11111111, 0x0A, 0x10, indirect_shapes())
        .bitmask_map(0b11000111, 0x06, Some(MemoryOperand::ImmediateValue));
    proof {
        reveal_with_fuel(mask_sequence, 9);
        assert forall|op: u8, operands: Seq<u8>| quadrant(op) == 0 implies r.entries()[op as int]
            == #[trigger] source_entry(op, operands) by {
            lemma_masks(op as usize);
        }
        assert forall|op: u8| quadrant(op) != 0 implies r.entries()[op as int]
            == table.entries()[op as int] by {
            lemma_masks(op as usize);
        }
    }
    r
}

fn second_quadrant_sources(table: TableBuilder<Option<MemoryOperand>, 256>) -> (r: TableBuilder<
    Option<MemoryOperand>,
    256,
>)
    requires
        table.entries().len() == 256,
        forall|op: u8| quadrant(op) == 1 ==> table.entries()[op as int] is None,
    ensures
        quadrant_filled(
            table.entries(),
            r.entries(),
            1,
            |op: u8, operands: Seq<u8>| source_entry(op, operands),
        ),
{
    let r = table
        .bitmask_map_sequence(0b11000111, 0x40, 0x01, register_shapes())
        .bitmask_map(0b11111111, 0x76, None);
    proof {
        reveal_with_fuel(mask_sequence, 9);
        assert forall|op: u8, operands: Seq<u8>| quadrant(op) == 1 implies r.entries()[op as int]
            == #[trigger] source_entry(op, operands) by {
            lemma_masks(op as usize);
        }
        assert forall|op: u8| quadrant(op) != 1 implies r.entries()[op as int]
            == table.entries()[op as int] by {
            lemma_masks(op as usize);
        }
    }
    r
}

fn third_quadrant_sources(table: TableBuilder<Option<MemoryOperand>, 256>) -> (r: TableBuilder<
    Option<MemoryOperand>,
    256,
>)
    requires
        table.entries().len() == 256,
        forall|op: u8| quadrant(op) == 2 ==> table.entries()[op as int] is None,
    ensures
        quadrant_filled(
            table.entries(),
            r.entries(),
            2,
            |op: u8, operands: Seq<u8>| source_entry(op, operands),
        ),
{
    let r = table
        .bitmask_map_sequence(0b11000111, 0x80, 0x01, register_shapes());
    proof {
        reveal_with_fuel(mask_sequence, 9);
        assert forall|op: u8, operands: Seq<u8>| quadrant(op) == 2 implies r.entries()[op as int]
            == #[trigger] source_entry(op, operands) by {
            lemma_masks(op as usize);
        }
        assert forall|op: u8| quadrant(op) != 2 implies r.entries()[op as int]
            == table.entries()[op as int] by {
            lemma_masks(op as usize);
        }
    }
    r
}

#[verifier::rlimit(40)]
fn last_quadrant_sources(table: TableBuilder<Option<MemoryOperand>, 256>) -> (r: TableBuilder<
    Option<MemoryOperand>,
    256,
>)
    requires
        table.entries().len() == 256,
        forall|op: u8| quadrant(op) == 3 ==> table.entries()[op as int] is None,
    ensures
        quadrant_filled(
            table.entries(),
            r.entries(),
            3,
            |op: u8, operands: Seq<u8>| source_entry(op, operands),
        ),
{
    let r = table
        .bitmask_map_sequence(
            0b11111111,
            0xE0,
            0x08,
            [
                Some(MemoryOperand::RegisterValue(Register::A)),
                Some(MemoryOperand::ImmediateSignedStackPointerOffset),
                Some(MemoryOperand::ImmediateReference),
                Some(MemoryOperand::ImmediateSignedStackPointerOffset),
            ],
        )
        .bitmask_map(0b11111111, 0xF9, Some(MemoryOperand::WideRegisterValue(WideRegister::HL)))
        .bitmask_map_sequence(
            0b11111111,
            0xE2,
            0x08,
            [
                Some(MemoryOperand::RegisterValue(Register::A)),
                Some(MemoryOperand::RegisterValue(Register::A)),
                Some(MemoryOperand::RegisterReference(Register::C)),
                Some(MemoryOperand::WideImmediateReference),
            ],
        )
        .bitmask_map_sequence(0b11111111, 0xC5, 0x10, stack_shapes())
        .bitmask_map(0b11000111, 0xC6, Some(MemoryOperand::ImmediateValue));
    proof {
        reveal_with_fuel(mask_sequence, 9);
        assert forall|op: u8, operands: Seq<u8>| quadrant(op) == 3 implies r.entries()[op as int]
            == #[trigger] source_entry(op, operands) by {
            lemma_masks(op as usize);
        }
        assert forall|op: u8| quadrant(op) != 3 implies r.entries()[op as int]
            == table.entries()[op as int] by {
            lemma_masks(op as usize);
        }
    }
    r
}

/// The destination shape of each primary opcode.
pub fn destination_table() -> (r: Vec<Option<MemoryOperand>>)
    ensures
        r@.len() == 256,
        forall|op: u8, operands: Seq<u8>|
            r@[op as int] == #[trigger] destination_entry(op, operands),
{
    let empty = TableBuilder::<Option<MemoryOperand>, 256>::new(None);
    let first = first_quadrant_destinations(empty);
    let second = second_quadrant_destinations(first);
    let third = third_quadrant_destinations(second);
    let last = last_quadrant_destinations(third);
    let r = last.build();
    proof {
        let expected = |op: u8, operands: Seq<u8>| destination_entry(op, operands);
        lemma_quadrants_fill(
            empty.entries(),
            first.entries(),
            second.entries(),
            third.entries(),
            last.entries(),
            expected,
        );
        assert forall|op: u8, operands: Seq<u8>|
            r@[op as int] == #[trigger] destination_entry(op, operands) by {
            assert(expected(op, operands) == destination_entry(op, operands));
        }
    }
    r
}

/// The source shape of each primary opcode.
pub fn source_table() -> (r: Vec<Option<MemoryOperand>>)
    ensures
        r@.len() == 256,
        forall|op: u8, operands: Seq<u8>|
            r@[op as int] == #[trigger] source_entry(op, operands),
{
    let empty = TableBuilder::<Option<MemoryOperand>, 256>::new(None);
    let first = first_quadrant_sources(empty);
    let second = second_quadrant_sources(first);
    let third = third_quadrant_sources(second);
    let last = last_quadrant_sources(third);
    let r = last.build();
    proof {
        let expected = |op: u8, operands: Seq<u8>| source_entry(op, operands);
        lemma_quadrants_fill(
            empty.entries(),
            first.entries(),
            second.entries(),
            third.entries(),
            last.entries(),
            expected,
        );
        assert forall|op: u8, operands: Seq<u8>|
            r@[op as int] == #[trigger] source_entry(op, operands) by {
            assert(expected(op, operands) == source_entry(op, operands));
        }
    }
    r
}

/// The destination shape of each second opcode after the prefix.
pub fn prefixed_destination_table() -> (r: Vec<Option<MemoryOperand>>)
    ensures
        r@.len() == 256,
        forall|op: u8| r@[op as int] == command_destination(prefixed_command(op)),
{
    let r = TableBuilder::<Option<MemoryOperand>, 256>::new(None)
        .bitmask_map_sequence(0b00000111, 0x00, 0x01, register_shapes())
        .build();
    proof {
        reveal_with_fuel(mask_sequence, 9);
        assert forall|op: u8| r@[op as int] == command_destination(prefixed_command(op)) by {
            lemma_masks(op as usize);
        }
    }
    r
}

} // verus!
