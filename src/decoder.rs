//! The decoder: from bytes to commands.
//!
//! An opcode byte is read as three bit fields: the quadrant (bits 7-6), the
//! row (bits 5-3) and the column (bits 2-0). The spec functions below state
//! the instruction set over those fields; the executable decoder reads the
//! opcode and then exactly the operand bytes that the opcode needs.
use vstd::prelude::*;

use crate::commands::{Command, DecodeError, FlagCondition, Operand, Register, WideRegister};

verus! {

/// The opcode byte that selects the second opcode table.
pub const PREFIX_OPCODE: u8 = 0xCB;

/// Bits 7-6 of an opcode.
pub open spec fn quadrant(op: u8) -> int {
    op as int / 64
}

/// Bits 5-3 of an opcode.
pub open spec fn row(op: u8) -> int {
    (op as int / 8) % 8
}

/// Bits 2-0 of an opcode.
pub open spec fn column(op: u8) -> int {
    op as int % 8
}

/// The 8-way operand selected by a 3-bit code: B, C, D, E, H, L, the byte
/// addressed by HL, A.
pub open spec fn register_table(code: int) -> Operand {
    if code == 0 {
        Operand::RegisterLocation(Register::B)
    } else if code == 1 {
        Operand::RegisterLocation(Register::C)
    } else if code == 2 {
        Operand::RegisterLocation(Register::D)
    } else if code == 3 {
        Operand::RegisterLocation(Register::E)
    } else if code == 4 {
        Operand::RegisterLocation(Register::H)
    } else if code == 5 {
        Operand::RegisterLocation(Register::L)
    } else if code == 6 {
        Operand::WideRegisterReference(WideRegister::HL)
    } else {
        Operand::RegisterLocation(Register::A)
    }
}

/// The register pair selected by a 2-bit code in loads, increments and adds.
pub open spec fn wide_register_table(code: int) -> WideRegister {
    if code == 0 {
        WideRegister::BC
    } else if code == 1 {
        WideRegister::DE
    } else if code == 2 {
        WideRegister::HL
    } else {
        WideRegister::SP
    }
}

/// The register pair selected by a 2-bit code in pushes and pops.
pub open spec fn stack_register_table(code: int) -> WideRegister {
    if code == 0 {
        WideRegister::BC
    } else if code == 1 {
        WideRegister::DE
    } else if code == 2 {
        WideRegister::HL
    } else {
        WideRegister::AF
    }
}

/// The condition selected by a 2-bit code.
pub open spec fn condition_table(code: int) -> FlagCondition {
    if code == 0 {
        FlagCondition::NotZero
    } else if code == 1 {
        FlagCondition::Zero
    } else if code == 2 {
        FlagCondition::NotCarry
    } else {
        FlagCondition::Carry
    }
}

/// The opcodes whose condition bits do not select a condition.
pub open spec fn is_unconditional(op: u8) -> bool {
    op == 0x18 || op == 0xC3 || op == 0xE9 || op == 0xCD || op == 0xC9 || op == 0xF9
}

/// The flag condition of a control-flow opcode: bits 4-3, except for the
/// unconditional forms.
pub open spec fn flag_check(op: u8) -> FlagCondition {
    if is_unconditional(op) {
        FlagCondition::NoCheck
    } else {
        condition_table(row(op) % 4)
    }
}

/// The 8-bit arithmetic or logic command selected by a 3-bit code.
pub open spec fn alu_table(code: int, source: Operand) -> Command {
    if code == 0 {
        Command::Add(source)
    } else if code == 1 {
        Command::AddCarry(source)
    } else if code == 2 {
        Command::Sub(source)
    } else if code == 3 {
        Command::SubCarry(source)
    } else if code == 4 {
        Command::And(source)
    } else if code == 5 {
        Command::Xor(source)
    } else if code == 6 {
        Command::Or(source)
    } else {
        Command::Compare(source)
    }
}

/// The rotate or shift command selected by a 3-bit code.
pub open spec fn rotate_table(code: int, target: Operand) -> Command {
    if code == 0 {
        Command::RotateLeftCarry(target)
    } else if code == 1 {
        Command::RotateRightCarry(target)
    } else if code == 2 {
        Command::RotateLeft(target)
    } else if code == 3 {
        Command::RotateRight(target)
    } else if code == 4 {
        Command::ShiftLeftArithmetic(target)
    } else if code == 5 {
        Command::ShiftRightArithmetic(target)
    } else if code == 6 {
        Command::Swap(target)
    } else {
        Command::ShiftRightLogical(target)
    }
}

/// A byte read as a two's-complement signed value.
pub open spec fn signed_byte(b: u8) -> i8 {
    (if b < 128 {
        b as int
    } else {
        b as int - 256
    }) as i8
}

/// The 16-bit value of two bytes, low byte first.
pub open spec fn little_endian(low: u8, high: u8) -> u16 {
    (low as int + 256 * high as int) as u16
}

/// How many bytes follow a primary opcode: immediates, offsets, addresses,
/// or the second opcode of a prefixed instruction.
pub open spec fn operand_count(op: u8) -> nat {
    let x = quadrant(op);
    let y = row(op);
    let z = column(op);
    if x == 0 {
        if z == 0 {
            if y == 1 {
                2
            } else if y >= 3 {
                1
            } else {
                0
            }
        } else if z == 1 {
            if y % 2 == 0 {
                2
            } else {
                0
            }
        } else if z == 6 {
            1
        } else {
            0
        }
    } else if x == 3 {
        if z == 0 {
            if y >= 4 {
                1
            } else {
                0
            }
        } else if z == 2 {
            if y < 4 || y == 5 || y == 7 {
                2
            } else {
                0
            }
        } else if z == 3 {
            if y == 0 {
                2
            } else if y == 1 {
                1
            } else {
                0
            }
        } else if z == 4 {
            if y < 4 {
                2
            } else {
                0
            }
        } else if z == 5 {
            if y == 1 {
                2
            } else {
                0
            }
        } else if z == 6 {
            1
        } else {
            0
        }
    } else {
        0
    }
}

/// The command of the second opcode byte of a prefixed instruction.
pub open spec fn prefixed_command(op: u8) -> Command {
    let x = quadrant(op);
    let y = row(op);
    let target = register_table(column(op));
    if x == 0 {
        rotate_table(y, target)
    } else if x == 1 {
        Command::TestBit(y as u8, target)
    } else if x == 2 {
        Command::ResetBit(y as u8, target)
    } else {
        Command::SetBit(y as u8, target)
    }
}

/// The command of a primary opcode of the first quadrant.
pub open spec fn quadrant_zero_command(op: u8, operands: Seq<u8>) -> Command {
    let y = row(op);
    let z = column(op);
    let p = y / 2;
    let a = Operand::RegisterLocation(Register::A);
    if z == 0 {
        if y == 0 {
            Command::Nop
        } else if y == 1 {
            Command::Load(
                Operand::WideImmediateReference(little_endian(operands[0], operands[1])),
                Operand::WideRegisterLocation(WideRegister::SP),
            )
        } else if y == 2 {
            Command::Stop
        } else {
            Command::JumpAdd(signed_byte(operands[0]), flag_check(op))
        }
    } else if z == 1 {
        if y % 2 == 0 {
            Command::Load(
                Operand::WideRegisterLocation(wide_register_table(p)),
                Operand::WideImmediateValue(little_endian(operands[0], operands[1])),
            )
        } else {
            Command::AddWide(wide_register_table(p))
        }
    } else if z == 2 {
        let through = Operand::WideRegisterReference(
            if p == 0 {
                WideRegister::BC
            } else if p == 1 {
                WideRegister::DE
            } else {
                WideRegister::HL
            },
        );
        let (destination, source) = if y % 2 == 0 {
            (through, a)
        } else {
            (a, through)
        };
        if p < 2 {
            Command::Load(destination, source)
        } else if p == 2 {
            Command::LoadIncrement(destination, source)
        } else {
            Command::LoadDecrement(destination, source)
        }
    } else if z == 3 {
        let pair = Operand::WideRegisterLocation(wide_register_table(p));
        if y % 2 == 0 {
            Command::Increment(pair)
        } else {
            Command::Decrement(pair)
        }
    } else if z == 4 {
        Command::Increment(register_table(y))
    } else if z == 5 {
        Command::Decrement(register_table(y))
    } else if z == 6 {
        Command::Load(register_table(y), Operand::ImmediateValue(operands[0]))
    } else if y < 4 {
        rotate_table(y, a)
    } else if y == 4 {
        Command::DecimalAdjust
    } else if y == 5 {
        Command::Complement
    } else if y == 6 {
        Command::SetCarryFlag
    } else {
        Command::ComplementCarryFlag
    }
}

/// The command of a primary opcode of the last quadrant.
pub open spec fn quadrant_three_command(op: u8, operands: Seq<u8>) -> Command {
    let y = row(op);
    let z = column(op);
    let p = y / 2;
    let a = Operand::RegisterLocation(Register::A);
    let hl = Operand::WideRegisterLocation(WideRegister::HL);
    let n = operands[0];
    let nn = little_endian(operands[0], operands[1]);
    if z == 0 {
        if y < 4 {
            Command::Return(flag_check(op))
        } else if y == 4 {
            Command::Load(Operand::ImmediateReference(n), a)
        } else if y == 5 {
            Command::AddStackPointer(signed_byte(n))
        } else if y == 6 {
            Command::Load(a, Operand::ImmediateReference(n))
        } else {
            Command::Load(hl, Operand::StackPointerOffset(signed_byte(n)))
        }
    } else if z == 1 {
        if y % 2 == 0 {
            Command::Pop(stack_register_table(p))
        } else if p == 0 {
            Command::Return(flag_check(op))
        } else if p == 1 {
            Command::ReturnInterrupt
        } else if p == 2 {
            Command::Jump(hl, flag_check(op))
        } else {
            Command::Load(Operand::WideRegisterLocation(WideRegister::SP), hl)
        }
    } else if z == 2 {
        if y < 4 {
            Command::Jump(Operand::WideImmediateValue(nn), flag_check(op))
        } else if y == 4 {
            Command::Load(Operand::RegisterReference(Register::C), a)
        } else if y == 5 {
            Command::Load(Operand::WideImmediateReference(nn), a)
        } else if y == 6 {
            Command::Load(a, Operand::RegisterReference(Register::C))
        } else {
            Command::Load(a, Operand::WideImmediateReference(nn))
        }
    } else if z == 3 {
        if y == 0 {
            Command::Jump(Operand::WideImmediateValue(nn), flag_check(op))
        } else if y == 1 {
            prefixed_command(n)
        } else if y == 6 {
            Command::DisableInterrupts
        } else if y == 7 {
            Command::EnableInterrupts
        } else {
            Command::Illegal(op)
        }
    } else if z == 4 {
        if y < 4 {
            Command::Call(nn, flag_check(op))
        } else {
            Command::Illegal(op)
        }
    } else if z == 5 {
        if y % 2 == 0 {
            Command::Push(stack_register_table(p))
        } else if p == 0 {
            Command::Call(nn, flag_check(op))
        } else {
            Command::Illegal(op)
        }
    } else if z == 6 {
        alu_table(y, Operand::ImmediateValue(n))
    } else {
        Command::Restart((8 * y) as u16)
    }
}

/// The command of a primary opcode, given the bytes that follow it
/// (`operand_count(op)` of them).
pub open spec fn primary_command(op: u8, operands: Seq<u8>) -> Command {
    let x = quadrant(op);
    if x == 0 {
        quadrant_zero_command(op, operands)
    } else if x == 1 {
        if op == 0x76 {
            Command::Halt
        } else {
            Command::Load(register_table(row(op)), register_table(column(op)))
        }
    } else if x == 2 {
        alu_table(row(op), register_table(column(op)))
    } else {
        quadrant_three_command(op, operands)
    }
}

/// The instruction at the start of `bytes`: its command and how many bytes it
/// takes, or `TruncatedInstruction` where the bytes end before it does.
pub open spec fn decode_spec(bytes: Seq<u8>) -> Result<(Command, usize), DecodeError> {
    if bytes.len() == 0 {
        Err(DecodeError::TruncatedInstruction)
    } else {
        let length = 1 + operand_count(bytes[0]);
        if bytes.len() < length {
            Err(DecodeError::TruncatedInstruction)
        } else {
            Ok((primary_command(bytes[0], bytes.subrange(1, length as int)), length as usize))
        }
    }
}

proof fn lemma_fields(op: u8)
    ensures
        op >> 6 == op / 64,
        (op >> 3) & 7 == (op / 8) % 8,
        op & 7 == op % 8,
        op & 0x38 == 8 * ((op / 8) % 8),
        (op >> 3) & 3 == ((op / 8) % 8) % 4,
{
    assert(op >> 6 == op / 64 && (op >> 3) & 7 == (op / 8) % 8 && op & 7 == op % 8 && op & 0x38
        == 8 * ((op / 8) % 8) && (op >> 3) & 3 == ((op / 8) % 8) % 4) by (bit_vector);
}


/// The flag condition of a control-flow opcode.
pub fn decode_flag_check(opcode: u8) -> (r: FlagCondition)
    ensures
        r == flag_check(opcode),
{
    match opcode {
        0x18 | 0xC3 | 0xE9 | 0xCD | 0xC9 | 0xF9 => FlagCondition::NoCheck,
        _ => {
            proof {
                lemma_fields(opcode);
            }
            match (opcode >> 3) & 0b11 {
                0 => FlagCondition::NotZero,
                1 => FlagCondition::Zero,
                2 => FlagCondition::NotCarry,
                _ => FlagCondition::Carry,
            }
        },
    }
}

/// The bit index of a prefixed bit instruction: bits 5-3 of its opcode.
pub fn decode_bit_selection(opcode: u8) -> (r: u8)
    ensures
        r == row(opcode),
        r < 8,
{
    proof {
        lemma_fields(opcode);
    }
    (opcode >> 3) & 0b111
}

/// The target address of a restart opcode: bits 5-3 of the opcode, times 8.
pub fn decode_restart_address(opcode: u8) -> (r: u16)
    ensures
        r == 8 * row(opcode),
{
    proof {
        lemma_fields(opcode);
    }
    (opcode & 0x38) as u16
}

/// The 8-way operand selected by the low three bits of `code`.
fn register_operand(code: u8) -> (r: Operand)
    requires
        code < 8,
    ensures
        r == register_table(code as int),
{
    match code {
        0 => Operand::RegisterLocation(Register::B),
        1 => Operand::RegisterLocation(Register::C),
        2 => Operand::RegisterLocation(Register::D),
        3 => Operand::RegisterLocation(Register::E),
        4 => Operand::RegisterLocation(Register::H),
        5 => Operand::RegisterLocation(Register::L),
        6 => Operand::WideRegisterReference(WideRegister::HL),
        _ => Operand::RegisterLocation(Register::A),
    }
}

fn wide_register(code: u8) -> (r: WideRegister)
    requires
        code < 4,
    ensures
        r == wide_register_table(code as int),
{
    match code {
        0 => WideRegister::BC,
        1 => WideRegister::DE,
        2 => WideRegister::HL,
        _ => WideRegister::SP,
    }
}

fn stack_register(code: u8) -> (r: WideRegister)
    requires
        code < 4,
    ensures
        r == stack_register_table(code as int),
{
    match code {
        0 => WideRegister::BC,
        1 => WideRegister::DE,
        2 => WideRegister::HL,
        _ => WideRegister::AF,
    }
}

fn alu_command(code: u8, source: Operand) -> (r: Command)
    requires
        code < 8,
    ensures
        r == alu_table(code as int, source),
{
    match code {
        0 => Command::Add(source),
        1 => Command::AddCarry(source),
        2 => Command::Sub(source),
        3 => Command::SubCarry(source),
        4 => Command::And(source),
        5 => Command::Xor(source),
        6 => Command::Or(source),
        _ => Command::Compare(source),
    }
}

fn rotate_command(code: u8, target: Operand) -> (r: Command)
    requires
        code < 8,
    ensures
        r == rotate_table(code as int, target),
{
    match code {
        0 => Command::RotateLeftCarry(target),
        1 => Command::RotateRightCarry(target),
        2 => Command::RotateLeft(target),
        3 => Command::RotateRight(target),
        4 => Command::ShiftLeftArithmetic(target),
        5 => Command::ShiftRightArithmetic(target),
        6 => Command::Swap(target),
        _ => Command::ShiftRightLogical(target),
    }
}

fn signed(b: u8) -> (r: i8)
    ensures
        r == signed_byte(b),
{
    if b < 128 {
        b as i8
    } else {
        (b as i16 - 256) as i8
    }
}

/// The command of the second byte of a prefixed instruction.
pub fn decode_prefixed(opcode: u8) -> (r: Command)
    ensures
        r == prefixed_command(opcode),
{
    proof {
        lemma_fields(opcode);
    }
    let bit = decode_bit_selection(opcode);
    let target = register_operand(opcode & 0b111);
    match opcode >> 6 {
        0 => rotate_command(bit, target),
        1 => Command::TestBit(bit, target),
        2 => Command::ResetBit(bit, target),
        _ => Command::SetBit(bit, target),
    }
}


/// The byte `offset` places after `start`, or `TruncatedInstruction` where
/// the bytes end before it.
fn operand_byte(bytes: &[u8], start: usize, offset: usize) -> (r: Result<u8, DecodeError>)
    requires
        start <= bytes@.len(),
    ensures
        offset < bytes@.len() - start ==> r == Ok::<u8, DecodeError>(bytes@[start + offset]),
        offset >= bytes@.len() - start ==> r == Err::<u8, DecodeError>(
            DecodeError::TruncatedInstruction,
        ),
{
    if offset < bytes.len() - start {
        Ok(bytes[start + offset])
    } else {
        Err(DecodeError::TruncatedInstruction)
    }
}

/// The 16-bit value of the two bytes after `start`, low byte first.
fn operand_word(bytes: &[u8], start: usize) -> (r: Result<u16, DecodeError>)
    requires
        start <= bytes@.len(),
    ensures
        2 < bytes@.len() - start ==> r == Ok::<u16, DecodeError>(
            little_endian(bytes@[start + 1], bytes@[start + 2]),
        ),
        2 >= bytes@.len() - start ==> r == Err::<u16, DecodeError>(
            DecodeError::TruncatedInstruction,
        ),
{
    if 2 < bytes.len() - start {
        let low = bytes[start + 1];
        let high = bytes[start + 2];
        Ok(low as u16 + 256 * high as u16)
    } else {
        Err(DecodeError::TruncatedInstruction)
    }
}


/// The bytes from `start` on.
pub open spec fn rest(bytes: Seq<u8>, start: usize) -> Seq<u8> {
    bytes.subrange(start as int, bytes.len() as int)
}

fn decode_quadrant_zero(bytes: &[u8], start: usize, op: u8) -> (r: Result<
    (Command, usize),
    DecodeError,
>)
    requires
        start < bytes@.len(),
        bytes@[start as int] == op,
        quadrant(op) == 0,
    ensures
        r == decode_spec(rest(bytes@, start)),
{
    proof {
        lemma_fields(op);
    }
    let y = (op >> 3) & 0b111;
    let z = op & 0b111;
    let a = Operand::RegisterLocation(Register::A);
    match z {
        0 => match y {
            0 => Ok((Command::Nop, 1)),
            1 => {
                let address = operand_word(bytes, start)?;
                Ok(
                    (
                        Command::Load(
                            Operand::WideImmediateReference(address),
                            Operand::WideRegisterLocation(WideRegister::SP),
                        ),
                        3,
                    ),
                )
            },
            2 => Ok((Command::Stop, 1)),
            _ => {
                let offset = operand_byte(bytes, start, 1)?;
                Ok((Command::JumpAdd(signed(offset), decode_flag_check(op)), 2))
            },
        },
        1 => {
            let pair = wide_register(y / 2);
            if y % 2 == 0 {
                let value = operand_word(bytes, start)?;
                Ok(
                    (
                        Command::Load(
                            Operand::WideRegisterLocation(pair),
                            Operand::WideImmediateValue(value),
                        ),
                        3,
                    ),
                )
            } else {
                Ok((Command::AddWide(pair), 1))
            }
        },
        2 => {
            let through = Operand::WideRegisterReference(
                match y / 2 {
                    0 => WideRegister::BC,
                    1 => WideRegister::DE,
                    _ => WideRegister::HL,
                },
            );
            let (destination, source) = if y % 2 == 0 {
                (through, a)
            } else {
                (a, through)
            };
            let command = match y / 2 {
                0 | 1 => Command::Load(destination, source),
                2 => Command::LoadIncrement(destination, source),
                _ => Command::LoadDecrement(destination, source),
            };
            Ok((command, 1))
        },
        3 => {
            let pair = Operand::WideRegisterLocation(wide_register(y / 2));
            if y % 2 == 0 {
                Ok((Command::Increment(pair), 1))
            } else {
                Ok((Command::Decrement(pair), 1))
            }
        },
        4 => Ok((Command::Increment(register_operand(y)), 1)),
        5 => Ok((Command::Decrement(register_operand(y)), 1)),
        6 => {
            let value = operand_byte(bytes, start, 1)?;
            Ok((Command::Load(register_operand(y), Operand::ImmediateValue(value)), 2))
        },
        7 => {
            let command = match y {
                0 | 1 | 2 | 3 => rotate_command(y, a),
                4 => Command::DecimalAdjust,
                5 => Command::Complement,
                6 => Command::SetCarryFlag,
                _ => Command::ComplementCarryFlag,
            };
            Ok((command, 1))
        },
        _ => Err(DecodeError::UnreachablePattern),
    }
}

fn decode_quadrant_three(bytes: &[u8], start: usize, op: u8) -> (r: Result<
    (Command, usize),
    DecodeError,
>)
    requires
        start < bytes@.len(),
        bytes@[start as int] == op,
        quadrant(op) == 3,
    ensures
        r == decode_spec(rest(bytes@, start)),
{
    proof {
        lemma_fields(op);
    }
    let y = (op >> 3) & 0b111;
    let z = op & 0b111;
    let a = Operand::RegisterLocation(Register::A);
    let hl = Operand::WideRegisterLocation(WideRegister::HL);
    match z {
        0 => {
            if y < 4 {
                Ok((Command::Return(decode_flag_check(op)), 1))
            } else {
                let n = operand_byte(bytes, start, 1)?;
                let command = match y {
                    4 => Command::Load(Operand::ImmediateReference(n), a),
                    5 => Command::AddStackPointer(signed(n)),
                    6 => Command::Load(a, Operand::ImmediateReference(n)),
                    _ => Command::Load(hl, Operand::StackPointerOffset(signed(n))),
                };
                Ok((command, 2))
            }
        },
        1 => {
            let command = if y % 2 == 0 {
                Command::Pop(stack_register(y / 2))
            } else {
                match y / 2 {
                    0 => Command::Return(decode_flag_check(op)),
                    1 => Command::ReturnInterrupt,
                    2 => Command::Jump(hl, decode_flag_check(op)),
                    _ => Command::Load(Operand::WideRegisterLocation(WideRegister::SP), hl),
                }
            };
            Ok((command, 1))
        },
        2 => match y {
            4 => Ok((Command::Load(Operand::RegisterReference(Register::C), a), 1)),
            6 => Ok((Command::Load(a, Operand::RegisterReference(Register::C)), 1)),
            _ => {
                let nn = operand_word(bytes, start)?;
                let command = match y {
                    5 => Command::Load(Operand::WideImmediateReference(nn), a),
                    7 => Command::Load(a, Operand::WideImmediateReference(nn)),
                    _ => Command::Jump(Operand::WideImmediateValue(nn), decode_flag_check(op)),
                };
                Ok((command, 3))
            },
        },
        3 => match y {
            0 => {
                let nn = operand_word(bytes, start)?;
                Ok((Command::Jump(Operand::WideImmediateValue(nn), decode_flag_check(op)), 3))
            },
            1 => {
                let second = operand_byte(bytes, start, 1)?;
                Ok((decode_prefixed(second), 2))
            },
            6 => Ok((Command::DisableInterrupts, 1)),
            7 => Ok((Command::EnableInterrupts, 1)),
            _ => Ok((Command::Illegal(op), 1)),
        },
        4 => {
            if y < 4 {
                let nn = operand_word(bytes, start)?;
                Ok((Command::Call(nn, decode_flag_check(op)), 3))
            } else {
                Ok((Command::Illegal(op), 1))
            }
        },
        5 => {
            if y % 2 == 0 {
                Ok((Command::Push(stack_register(y / 2)), 1))
            } else if y == 1 {
                let nn = operand_word(bytes, start)?;
                Ok((Command::Call(nn, decode_flag_check(op)), 3))
            } else {
                Ok((Command::Illegal(op), 1))
            }
        },
        6 => {
            let n = operand_byte(bytes, start, 1)?;
            Ok((alu_command(y, Operand::ImmediateValue(n)), 2))
        },
        7 => Ok((Command::Restart(decode_restart_address(op)), 1)),
        _ => Err(DecodeError::UnreachablePattern),
    }
}

/// Decodes the instruction that begins at `start`: its command and the
/// number of bytes it takes.
pub fn decode_at(bytes: &[u8], start: usize) -> (r: Result<(Command, usize), DecodeError>)
    requires
        start <= bytes@.len(),
    ensures
        r == decode_spec(rest(bytes@, start)),
{
    let op = operand_byte(bytes, start, 0)?;
    proof {
        lemma_fields(op);
    }
    let y = (op >> 3) & 0b111;
    let z = op & 0b111;
    match op >> 6 {
        0 => decode_quadrant_zero(bytes, start, op),
        1 => {
            if op == 0x76 {
                Ok((Command::Halt, 1))
            } else {
                Ok((Command::Load(register_operand(y), register_operand(z)), 1))
            }
        },
        2 => Ok((alu_command(y, register_operand(z)), 1)),
        3 => decode_quadrant_three(bytes, start, op),
        _ => Err(DecodeError::UnreachablePattern),
    }
}

/// Decodes the instruction at the start of `bytes`: its command and the
/// number of bytes it takes.
pub fn decode_instruction(bytes: &[u8]) -> (r: Result<(Command, usize), DecodeError>)
    ensures
        r == decode_spec(bytes@),
{
    proof {
        assert(rest(bytes@, 0) =~= bytes@);
    }
    decode_at(bytes, 0)
}


/// A forward-only reader of instructions over a buffer of bytes.
///
/// It holds the bytes and a cursor; each step decodes the instruction at the
/// cursor and moves past it.
pub struct Decoder {
    bytes: Vec<u8>,
    position: usize,
}

impl Decoder {
    #[verifier::type_invariant]
    spec fn cursor_in_bounds(&self) -> bool {
        self.position <= self.bytes@.len()
    }

    /// The bytes that have not been decoded yet.
    pub closed spec fn remaining(&self) -> Seq<u8> {
        rest(self.bytes@, self.position)
    }

    /// A decoder positioned at the first of `bytes`.
    pub fn new(bytes: Vec<u8>) -> (r: Decoder)
        ensures
            r.remaining() == bytes@,
    {
        let r = Decoder { bytes, position: 0 };
        assert(r.remaining() =~= r.bytes@);
        r
    }

    /// Whether every byte has been consumed.
    pub fn is_exhausted(&self) -> (r: bool)
        ensures
            r == (self.remaining().len() == 0),
    {
        proof {
            use_type_invariant(self);
        }
        self.position == self.bytes.len()
    }

    /// Decodes the next instruction.
    ///
    /// Returns `None` once the bytes are exhausted. After a failure the
    /// partial instruction is discarded and the decoder is exhausted.
    pub fn next_command(&mut self) -> (r: Option<Result<Command, DecodeError>>)
        ensures
            old(self).remaining().len() == 0 ==> r is None
                && final(self).remaining() == old(self).remaining(),
            old(self).remaining().len() > 0 ==> match decode_spec(old(self).remaining()) {
                Ok((command, length)) => r == Some(Ok::<Command, DecodeError>(command))
                    && final(self).remaining() == old(self).remaining().skip(length as int),
                Err(e) => r == Some(Err::<Command, DecodeError>(e))
                    && final(self).remaining().len() == 0,
            },
    {
        proof {
            use_type_invariant(&*self);
        }
        if self.position == self.bytes.len() {
            return None;
        }
        match decode_at(self.bytes.as_slice(), self.position) {
            Ok((command, length)) => {
                assert(rest(self.bytes@, (self.position + length) as usize) =~= rest(
                    self.bytes@,
                    self.position,
                ).skip(length as int));
                self.position = self.position + length;
                Some(Ok(command))
            },
            Err(e) => {
                self.position = self.bytes.len();
                Some(Err(e))
            },
        }
    }
}


/// Every primary opcode, followed by the bytes it needs, decodes to exactly
/// one command; no instruction is longer than three bytes.
pub proof fn lemma_every_opcode_decodes(bytes: Seq<u8>)
    requires
        bytes.len() >= 1,
        bytes.len() >= 1 + operand_count(bytes[0]),
    ensures
        decode_spec(bytes) is Ok,
        operand_count(bytes[0]) <= 2,
{
}

/// Every second byte after the prefix opcode decodes to exactly one command,
/// and the prefixed instruction takes two bytes.
pub proof fn lemma_every_prefixed_opcode_decodes(second: u8)
    ensures
        decode_spec(seq![PREFIX_OPCODE, second]) == Ok::<(Command, usize), DecodeError>(
            (prefixed_command(second), 2),
        ),
{
    let bytes = seq![PREFIX_OPCODE, second];
    assert(bytes.subrange(1, 2) =~= seq![second]);
}

/// Decoding never reports an uncovered opcode, whatever the bytes.
pub proof fn lemma_never_unreachable(bytes: Seq<u8>)
    ensures
        decode_spec(bytes) != Err::<(Command, usize), DecodeError>(
            DecodeError::UnreachablePattern,
        ),
{
}

/// NOP and HALT take exactly one byte, whatever follows them.
pub proof fn lemma_single_byte_instructions(bytes: Seq<u8>)
    requires
        bytes.len() >= 1,
        bytes[0] == 0x00 || bytes[0] == 0x76,
    ensures
        decode_spec(bytes) == Ok::<(Command, usize), DecodeError>(
            (if bytes[0] == 0x00 { Command::Nop } else { Command::Halt }, 1),
        ),
{
}

/// Bytes that end before the instruction they begin are reported as a
/// truncated instruction, never decoded.
pub proof fn lemma_truncation(bytes: Seq<u8>)
    requires
        bytes.len() < 1 + operand_count(bytes[0]),
    ensures
        decode_spec(bytes) == Err::<(Command, usize), DecodeError>(
            DecodeError::TruncatedInstruction,
        ),
{
}

/// The restart opcodes call the address given by their bits 5-3.
pub proof fn lemma_restart_targets(bytes: Seq<u8>)
    requires
        bytes.len() >= 1,
        bytes[0] & 0xC7 == 0xC7,
    ensures
        decode_spec(bytes) == Ok::<(Command, usize), DecodeError>(
            (Command::Restart((bytes[0] & 0x38) as u16), 1),
        ),
{
    let op = bytes[0];
    lemma_fields(op);
    assert(op & 0xC7 == 0xC7 ==> op >> 6 == 3 && op & 7 == 7) by (bit_vector);
}

/// The conditional relative jumps take their condition from bits 4-3 and
/// their offset, signed, from the next byte.
pub proof fn lemma_conditional_relative_jumps(bytes: Seq<u8>)
    requires
        bytes.len() >= 2,
        bytes[0] == 0x20 || bytes[0] == 0x28 || bytes[0] == 0x30 || bytes[0] == 0x38,
    ensures
        decode_spec(bytes) == Ok::<(Command, usize), DecodeError>(
            (
                Command::JumpAdd(
                    signed_byte(bytes[1]),
                    if bytes[0] == 0x20 {
                        FlagCondition::NotZero
                    } else if bytes[0] == 0x28 {
                        FlagCondition::Zero
                    } else if bytes[0] == 0x30 {
                        FlagCondition::NotCarry
                    } else {
                        FlagCondition::Carry
                    },
                ),
                2,
            ),
        ),
{
}

/// The unconditional return, jumps and call check no flag, although their
/// bits 4-3 are those of a condition.
pub proof fn lemma_unconditional_control_flow(bytes: Seq<u8>)
    requires
        bytes.len() >= 3,
    ensures
        bytes[0] == 0xC9 ==> decode_spec(bytes) == Ok::<(Command, usize), DecodeError>(
            (Command::Return(FlagCondition::NoCheck), 1),
        ),
        bytes[0] == 0xE9 ==> decode_spec(bytes) == Ok::<(Command, usize), DecodeError>(
            (
                Command::Jump(
                    Operand::WideRegisterLocation(WideRegister::HL),
                    FlagCondition::NoCheck,
                ),
                1,
            ),
        ),
        bytes[0] == 0xC3 ==> decode_spec(bytes) == Ok::<(Command, usize), DecodeError>(
            (
                Command::Jump(
                    Operand::WideImmediateValue(little_endian(bytes[1], bytes[2])),
                    FlagCondition::NoCheck,
                ),
                3,
            ),
        ),
        bytes[0] == 0xCD ==> decode_spec(bytes) == Ok::<(Command, usize), DecodeError>(
            (Command::Call(little_endian(bytes[1], bytes[2]), FlagCondition::NoCheck), 3),
        ),
{
}

} // verus!
