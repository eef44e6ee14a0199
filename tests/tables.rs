use gbcore::commands::{MemoryOperand, Mnemonic, Register, WideRegister};
use gbcore::table_builder::TableBuilder;
use gbcore::tables::OpcodeTables;

#[test]
fn sequence_rules_stride_across_indices() {
    let table = TableBuilder::<u8, 8>::new(0)
        .bitmask_map_sequence(0b111, 1, 2, [10, 20, 30])
        .build();
    assert_eq!(table, vec![0, 10, 0, 20, 0, 30, 0, 0]);
}

#[test]
fn later_rules_override_earlier_ones() {
    let table = TableBuilder::<u8, 8>::new(9)
        .bitmask_map(0b011, 0, 1)
        .bitmask_map(0b111, 4, 2)
        .build();
    assert_eq!(table, vec![1, 9, 9, 9, 2, 9, 9, 9]);
}

#[test]
fn primary_mnemonics() {
    let tables = OpcodeTables::new();
    assert_eq!(tables.decode_mnemonic(0x00), Mnemonic::NOP);
    assert_eq!(tables.decode_mnemonic(0x08), Mnemonic::LD);
    assert_eq!(tables.decode_mnemonic(0x10), Mnemonic::STOP);
    assert_eq!(tables.decode_mnemonic(0x18), Mnemonic::JR);
    assert_eq!(tables.decode_mnemonic(0x22), Mnemonic::LDI);
    assert_eq!(tables.decode_mnemonic(0x3A), Mnemonic::LDD);
    assert_eq!(tables.decode_mnemonic(0x76), Mnemonic::HALT);
    assert_eq!(tables.decode_mnemonic(0x9E), Mnemonic::SBC);
    assert_eq!(tables.decode_mnemonic(0xCB), Mnemonic::PREFIX);
    assert_eq!(tables.decode_mnemonic(0xD9), Mnemonic::RETI);
    assert_eq!(tables.decode_mnemonic(0xE8), Mnemonic::ADD);
    assert_eq!(tables.decode_mnemonic(0xFF), Mnemonic::RST);
    assert_eq!(tables.decode_mnemonic(0xD3), Mnemonic::NOP);
}

#[test]
fn prefixed_mnemonics() {
    let tables = OpcodeTables::new();
    assert_eq!(tables.decode_prefixed_mnemonic(0x00), Mnemonic::RLC);
    assert_eq!(tables.decode_prefixed_mnemonic(0x37), Mnemonic::SWAP);
    assert_eq!(tables.decode_prefixed_mnemonic(0x40), Mnemonic::BIT);
    assert_eq!(tables.decode_prefixed_mnemonic(0xBF), Mnemonic::RES);
    assert_eq!(tables.decode_prefixed_mnemonic(0xC0), Mnemonic::SET);
}

#[test]
fn operand_shapes() {
    let tables = OpcodeTables::new();
    assert_eq!(
        tables.destination(0x06),
        Some(MemoryOperand::RegisterValue(Register::B))
    );
    assert_eq!(tables.source(0x06), Some(MemoryOperand::ImmediateValue));
    assert_eq!(
        tables.destination(0x31),
        Some(MemoryOperand::WideRegisterValue(WideRegister::SP))
    );
    assert_eq!(tables.source(0x31), Some(MemoryOperand::WideImmediateValue));
    assert_eq!(
        tables.destination(0x20),
        Some(MemoryOperand::ImmediateSignedProgramCounterOffset)
    );
    assert_eq!(tables.source(0x20), None);
    assert_eq!(
        tables.source(0xF8),
        Some(MemoryOperand::ImmediateSignedStackPointerOffset)
    );
    assert_eq!(
        tables.source(0xD5),
        Some(MemoryOperand::WideRegisterValue(WideRegister::DE))
    );
    assert_eq!(tables.destination(0xD5), None);
    assert_eq!(tables.destination(0xCB), None);
    assert_eq!(
        tables.prefixed_destination(0x46),
        Some(MemoryOperand::WideRegisterReference(WideRegister::HL))
    );
}

#[test]
fn single_item_sequence_with_largest_stride() {
    let table = TableBuilder::<u8, 4>::new(0)
        .bitmask_map_sequence(0b11, 1, usize::MAX, [7])
        .build();
    assert_eq!(table, vec![0, 7, 0, 0]);
}

#[test]
fn last_match_value_may_reach_the_top_of_usize() {
    let stride = 1usize << (usize::BITS - 1);
    let table = TableBuilder::<u8, 4>::new(0)
        .bitmask_map_sequence(0b11, 0, stride, [5, 6])
        .build();
    assert_eq!(table, vec![5, 0, 0, 0]);
}

#[test]
fn empty_sequence_changes_nothing() {
    let table = TableBuilder::<u8, 4>::new(3)
        .bitmask_map_sequence::<0>(0b11, 1, 1, [])
        .build();
    assert_eq!(table, vec![3, 3, 3, 3]);
}
