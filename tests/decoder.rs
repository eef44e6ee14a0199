use gbcore::commands::{Command, DecodeError, FlagCondition, Operand, Register, WideRegister};
use gbcore::decoder::{
    decode_bit_selection, decode_flag_check, decode_instruction, decode_prefixed,
    decode_restart_address, Decoder,
};

#[test]
fn flag_condition_decode() {
    assert_eq!(decode_flag_check(0x18), FlagCondition::NoCheck);
    assert_eq!(decode_flag_check(0x20), FlagCondition::NotZero);
    assert_eq!(decode_flag_check(0x28), FlagCondition::Zero);
    assert_eq!(decode_flag_check(0x30), FlagCondition::NotCarry);
    assert_eq!(decode_flag_check(0x38), FlagCondition::Carry);

    assert_eq!(decode_flag_check(0xC9), FlagCondition::NoCheck);
    assert_eq!(decode_flag_check(0xC0), FlagCondition::NotZero);
    assert_eq!(decode_flag_check(0xC8), FlagCondition::Zero);
    assert_eq!(decode_flag_check(0xD0), FlagCondition::NotCarry);
    assert_eq!(decode_flag_check(0xD8), FlagCondition::Carry);

    assert_eq!(decode_flag_check(0xC3), FlagCondition::NoCheck);
    assert_eq!(decode_flag_check(0xC2), FlagCondition::NotZero);
    assert_eq!(decode_flag_check(0xCA), FlagCondition::Zero);
    assert_eq!(decode_flag_check(0xD2), FlagCondition::NotCarry);
    assert_eq!(decode_flag_check(0xDA), FlagCondition::Carry);
    assert_eq!(decode_flag_check(0xE9), FlagCondition::NoCheck);

    assert_eq!(decode_flag_check(0xCD), FlagCondition::NoCheck);
    assert_eq!(decode_flag_check(0xC4), FlagCondition::NotZero);
    assert_eq!(decode_flag_check(0xCC), FlagCondition::Zero);
    assert_eq!(decode_flag_check(0xD4), FlagCondition::NotCarry);
    assert_eq!(decode_flag_check(0xDC), FlagCondition::Carry);
}

#[test]
fn flag_check_of_stack_pointer_load_is_unconditional() {
    assert_eq!(decode_flag_check(0xF9), FlagCondition::NoCheck);
}

#[test]
fn every_primary_opcode_decodes() {
    for op in 0..=255u8 {
        let result = decode_instruction(&[op, 0x12, 0x34]);
        assert!(result.is_ok(), "opcode {:#04x}", op);
        let (_, length) = result.unwrap();
        assert!((1..=3).contains(&length));
    }
}

#[test]
fn every_prefixed_opcode_decodes() {
    for second in 0..=255u8 {
        let result = decode_instruction(&[0xCB, second]);
        assert_eq!(result, Ok((decode_prefixed(second), 2)));
    }
}

#[test]
fn nop_and_halt_take_one_byte() {
    assert_eq!(decode_instruction(&[0x00, 0x06, 0x42]), Ok((Command::Nop, 1)));
    assert_eq!(decode_instruction(&[0x76, 0x01, 0x02]), Ok((Command::Halt, 1)));
    assert_eq!(decode_instruction(&[0x00]), Ok((Command::Nop, 1)));
    assert_eq!(decode_instruction(&[0x76]), Ok((Command::Halt, 1)));
}

#[test]
fn immediate_byte_load() {
    assert_eq!(
        decode_instruction(&[0x06, 0x42]),
        Ok((
            Command::Load(Operand::RegisterLocation(Register::B), Operand::ImmediateValue(0x42)),
            2
        ))
    );
}

#[test]
fn immediate_word_load_is_little_endian() {
    assert_eq!(
        decode_instruction(&[0x01, 0x34, 0x12]),
        Ok((
            Command::Load(
                Operand::WideRegisterLocation(WideRegister::BC),
                Operand::WideImmediateValue(0x1234)
            ),
            3
        ))
    );
}

#[test]
fn unconditional_relative_jump_backwards() {
    assert_eq!(
        decode_instruction(&[0x18, 0xFE]),
        Ok((Command::JumpAdd(-2, FlagCondition::NoCheck), 2))
    );
}

#[test]
fn first_prefixed_opcode_rotates_b() {
    assert_eq!(
        decode_instruction(&[0xCB, 0x00]),
        Ok((Command::RotateLeftCarry(Operand::RegisterLocation(Register::B)), 2))
    );
}

#[test]
fn restart_family() {
    let opcodes = [0xC7u8, 0xCF, 0xD7, 0xDF, 0xE7, 0xEF, 0xF7, 0xFF];
    let targets = [0x00u16, 0x08, 0x10, 0x18, 0x20, 0x28, 0x30, 0x38];
    for (op, target) in opcodes.iter().zip(targets.iter()) {
        assert_eq!(decode_instruction(&[*op]), Ok((Command::Restart(*target), 1)));
        assert_eq!(decode_restart_address(*op), *target);
    }
}

#[test]
fn conditional_relative_jumps() {
    assert_eq!(
        decode_instruction(&[0x20, 0x05]),
        Ok((Command::JumpAdd(5, FlagCondition::NotZero), 2))
    );
    assert_eq!(
        decode_instruction(&[0x28, 0x05]),
        Ok((Command::JumpAdd(5, FlagCondition::Zero), 2))
    );
    assert_eq!(
        decode_instruction(&[0x30, 0x80]),
        Ok((Command::JumpAdd(-128, FlagCondition::NotCarry), 2))
    );
    assert_eq!(
        decode_instruction(&[0x38, 0x7F]),
        Ok((Command::JumpAdd(127, FlagCondition::Carry), 2))
    );
}

#[test]
fn unconditional_control_flow_checks_no_flag() {
    assert_eq!(
        decode_instruction(&[0xC9]),
        Ok((Command::Return(FlagCondition::NoCheck), 1))
    );
    assert_eq!(
        decode_instruction(&[0xC3, 0x50, 0x01]),
        Ok((Command::Jump(Operand::WideImmediateValue(0x0150), FlagCondition::NoCheck), 3))
    );
    assert_eq!(
        decode_instruction(&[0xCD, 0x00, 0x40]),
        Ok((Command::Call(0x4000, FlagCondition::NoCheck), 3))
    );
    assert_eq!(
        decode_instruction(&[0xE9]),
        Ok((
            Command::Jump(
                Operand::WideRegisterLocation(WideRegister::HL),
                FlagCondition::NoCheck
            ),
            1
        ))
    );
}

#[test]
fn truncated_word_immediate() {
    assert_eq!(
        decode_instruction(&[0x01]),
        Err(DecodeError::TruncatedInstruction)
    );
    assert_eq!(
        decode_instruction(&[0x01, 0x34]),
        Err(DecodeError::TruncatedInstruction)
    );
}

#[test]
fn truncated_prefix_and_empty_input() {
    assert_eq!(decode_instruction(&[0xCB]), Err(DecodeError::TruncatedInstruction));
    assert_eq!(decode_instruction(&[]), Err(DecodeError::TruncatedInstruction));
}

#[test]
fn register_to_register_loads() {
    assert_eq!(
        decode_instruction(&[0x78]),
        Ok((
            Command::Load(
                Operand::RegisterLocation(Register::A),
                Operand::RegisterLocation(Register::B)
            ),
            1
        ))
    );
    assert_eq!(
        decode_instruction(&[0x70]),
        Ok((
            Command::Load(
                Operand::WideRegisterReference(WideRegister::HL),
                Operand::RegisterLocation(Register::B)
            ),
            1
        ))
    );
}

#[test]
fn arithmetic_on_registers_and_immediates() {
    assert_eq!(
        decode_instruction(&[0x86]),
        Ok((Command::Add(Operand::WideRegisterReference(WideRegister::HL)), 1))
    );
    assert_eq!(
        decode_instruction(&[0xBF]),
        Ok((Command::Compare(Operand::RegisterLocation(Register::A)), 1))
    );
    assert_eq!(
        decode_instruction(&[0xEE, 0x0F]),
        Ok((Command::Xor(Operand::ImmediateValue(0x0F)), 2))
    );
}

#[test]
fn incrementing_and_decrementing_loads() {
    let a = Operand::RegisterLocation(Register::A);
    let hl = Operand::WideRegisterReference(WideRegister::HL);
    assert_eq!(decode_instruction(&[0x22]), Ok((Command::LoadIncrement(hl, a), 1)));
    assert_eq!(decode_instruction(&[0x2A]), Ok((Command::LoadIncrement(a, hl), 1)));
    assert_eq!(decode_instruction(&[0x32]), Ok((Command::LoadDecrement(hl, a), 1)));
    assert_eq!(decode_instruction(&[0x3A]), Ok((Command::LoadDecrement(a, hl), 1)));
}

#[test]
fn high_page_and_stack_pointer_forms() {
    let a = Operand::RegisterLocation(Register::A);
    assert_eq!(
        decode_instruction(&[0xE0, 0x44]),
        Ok((Command::Load(Operand::ImmediateReference(0x44), a), 2))
    );
    assert_eq!(
        decode_instruction(&[0xF2]),
        Ok((Command::Load(a, Operand::RegisterReference(Register::C)), 1))
    );
    assert_eq!(
        decode_instruction(&[0xE8, 0xFF]),
        Ok((Command::AddStackPointer(-1), 2))
    );
    assert_eq!(
        decode_instruction(&[0xF8, 0x02]),
        Ok((
            Command::Load(
                Operand::WideRegisterLocation(WideRegister::HL),
                Operand::StackPointerOffset(2)
            ),
            2
        ))
    );
    assert_eq!(
        decode_instruction(&[0x08, 0x00, 0xC0]),
        Ok((
            Command::Load(
                Operand::WideImmediateReference(0xC000),
                Operand::WideRegisterLocation(WideRegister::SP)
            ),
            3
        ))
    );
}

#[test]
fn pushes_and_pops_use_af() {
    assert_eq!(decode_instruction(&[0xF5]), Ok((Command::Push(WideRegister::AF), 1)));
    assert_eq!(decode_instruction(&[0xC1]), Ok((Command::Pop(WideRegister::BC), 1)));
}

#[test]
fn undefined_opcodes_are_illegal() {
    for op in [0xD3u8, 0xDB, 0xDD, 0xE3, 0xE4, 0xEB, 0xEC, 0xED, 0xF4, 0xFC, 0xFD] {
        assert_eq!(decode_instruction(&[op]), Ok((Command::Illegal(op), 1)));
    }
}

#[test]
fn prefixed_bit_operations() {
    assert_eq!(decode_bit_selection(0x7C), 7);
    assert_eq!(
        decode_instruction(&[0xCB, 0x7C]),
        Ok((Command::TestBit(7, Operand::RegisterLocation(Register::H)), 2))
    );
    assert_eq!(
        decode_instruction(&[0xCB, 0x86]),
        Ok((Command::ResetBit(0, Operand::WideRegisterReference(WideRegister::HL)), 2))
    );
    assert_eq!(
        decode_instruction(&[0xCB, 0xFF]),
        Ok((Command::SetBit(7, Operand::RegisterLocation(Register::A)), 2))
    );
    assert_eq!(
        decode_instruction(&[0xCB, 0x37]),
        Ok((Command::Swap(Operand::RegisterLocation(Register::A)), 2))
    );
}

#[test]
fn decoder_walks_a_byte_stream() {
    let mut decoder = Decoder::new(vec![0x00, 0x06, 0x42, 0xCB, 0x11, 0x76]);
    assert_eq!(decoder.next_command(), Some(Ok(Command::Nop)));
    assert_eq!(
        decoder.next_command(),
        Some(Ok(Command::Load(
            Operand::RegisterLocation(Register::B),
            Operand::ImmediateValue(0x42)
        )))
    );
    assert_eq!(
        decoder.next_command(),
        Some(Ok(Command::RotateLeft(Operand::RegisterLocation(Register::C))))
    );
    assert!(!decoder.is_exhausted());
    assert_eq!(decoder.next_command(), Some(Ok(Command::Halt)));
    assert!(decoder.is_exhausted());
    assert_eq!(decoder.next_command(), None);
}

#[test]
fn decoder_stops_after_truncation() {
    let mut decoder = Decoder::new(vec![0x00, 0xC3, 0x00]);
    assert_eq!(decoder.next_command(), Some(Ok(Command::Nop)));
    assert_eq!(
        decoder.next_command(),
        Some(Err(DecodeError::TruncatedInstruction))
    );
    assert!(decoder.is_exhausted());
    assert_eq!(decoder.next_command(), None);
}
