//! The register, operand and command model produced by the decoder.
use vstd::prelude::*;

verus! {

/// An 8-bit register.
#[derive(Debug, Clone, Copy, PartialEq, Eq, Structural)]
pub enum Register {
    A,
    B,
    C,
    D,
    E,
    F,
    H,
    L,
}

/// A 16-bit register, either a pair of 8-bit registers or a dedicated one.
#[derive(Debug, Clone, Copy, PartialEq, Eq, Structural)]
pub enum WideRegister {
    AF,
    BC,
    DE,
    HL,
    PC,
    SP,
}

/// The test against the status flags that gates a conditional control-flow
/// command.
#[derive(Debug, Clone, Copy, PartialEq, Eq, Structural)]
pub enum FlagCondition {
    NoCheck,
    NotZero,
    Zero,
    NotCarry,
    Carry,
}

/// The shape of an operand as an opcode table records it: where the value
/// lives, without the immediate bytes that follow the opcode.
#[derive(Debug, Clone, Copy, PartialEq, Eq, Structural)]
pub enum MemoryOperand {
    RegisterValue(Register),
    RegisterReference(Register),
    WideRegisterValue(WideRegister),
    WideRegisterReference(WideRegister),
    ImmediateValue,
    ImmediateSignedStackPointerOffset,
    ImmediateSignedProgramCounterOffset,
    ImmediateReference,
    WideImmediateValue,
    WideImmediateReference,
}

/// The symbolic name of an operation, independent of its operands.
#[derive(Debug, Clone, Copy, PartialEq, Eq, Structural)]
pub enum Mnemonic {
    LD,
    LDD,
    LDI,
    PUSH,
    POP,
    ADD,
    ADC,
    SUB,
    SBC,
    AND,
    OR,
    XOR,
    CP,
    INC,
    DEC,
    SWAP,
    DAA,
    CPL,
    CCF,
    SCF,
    NOP,
    HALT,
    STOP,
    DI,
    EI,
    PREFIX,
    RLC,
    RL,
    RRC,
    RR,
    SLA,
    SRA,
    SRL,
    BIT,
    SET,
    RES,
    JP,
    JR,
    CALL,
    RST,
    RET,
    RETI,
}

/// A fully resolved operand: where a command reads or writes a value.
#[derive(Debug, Clone, Copy, PartialEq, Eq, Structural)]
pub enum Operand {
    /// The value of an 8-bit register.
    RegisterLocation(Register),
    /// The byte at `0xFF00` plus the value of an 8-bit register.
    RegisterReference(Register),
    /// The value of a 16-bit register.
    WideRegisterLocation(WideRegister),
    /// The byte at the address held by a 16-bit register.
    WideRegisterReference(WideRegister),
    /// An 8-bit value that followed the opcode.
    ImmediateValue(u8),
    /// The byte at `0xFF00` plus an 8-bit value that followed the opcode.
    ImmediateReference(u8),
    /// A 16-bit value that followed the opcode.
    WideImmediateValue(u16),
    /// The byte at a 16-bit address that followed the opcode.
    WideImmediateReference(u16),
    /// The stack pointer plus a signed offset.
    StackPointerOffset(i8),
    /// The program counter plus a signed offset.
    ProgramCounterOffset(i8),
}

/// One decoded instruction, carrying exactly the operands it needs.
///
/// The 8-bit arithmetic and logic commands act on the accumulator `A`, which
/// is left implicit; `AddWide` adds a register pair to `HL`.
#[derive(Debug, Clone, Copy, PartialEq, Eq, Structural)]
pub enum Command {
    /// Destination, then source.
    Load(Operand, Operand),
    /// A load through `HL` that increments `HL` afterwards.
    LoadIncrement(Operand, Operand),
    /// A load through `HL` that decrements `HL` afterwards.
    LoadDecrement(Operand, Operand),
    Push(WideRegister),
    Pop(WideRegister),
    Add(Operand),
    AddCarry(Operand),
    Sub(Operand),
    SubCarry(Operand),
    And(Operand),
    Xor(Operand),
    Or(Operand),
    Compare(Operand),
    AddWide(WideRegister),
    AddStackPointer(i8),
    Increment(Operand),
    Decrement(Operand),
    RotateLeftCarry(Operand),
    RotateRightCarry(Operand),
    RotateLeft(Operand),
    RotateRight(Operand),
    ShiftLeftArithmetic(Operand),
    ShiftRightArithmetic(Operand),
    Swap(Operand),
    ShiftRightLogical(Operand),
    /// Bit index (0 to 7), then the operand.
    TestBit(u8, Operand),
    ResetBit(u8, Operand),
    SetBit(u8, Operand),
    /// A jump to the value of the operand.
    Jump(Operand, FlagCondition),
    /// A jump relative to the address after the instruction.
    JumpAdd(i8, FlagCondition),
    Call(u16, FlagCondition),
    Return(FlagCondition),
    ReturnInterrupt,
    /// A call to a fixed address in the first page.
    Restart(u16),
    Nop,
    Stop,
    Halt,
    DecimalAdjust,
    Complement,
    SetCarryFlag,
    ComplementCarryFlag,
    DisableInterrupts,
    EnableInterrupts,
    /// An opcode that the instruction set leaves undefined.
    Illegal(u8),
}

/// Why a decode step produced no command.
#[derive(Debug, Clone, Copy, PartialEq, Eq, Structural)]
pub enum DecodeError {
    /// The bytes ran out before the instruction was complete.
    TruncatedInstruction,
    /// No decoding rule covers the opcode: a defect of the decoder itself.
    UnreachablePattern,
}


/// The mnemonic of a command; `None` for an undefined opcode.
pub open spec fn command_mnemonic(c: Command) -> Option<Mnemonic> {
    match c {
        Command::Load(..) => Some(Mnemonic::LD),
        Command::LoadIncrement(..) => Some(Mnemonic::LDI),
        Command::LoadDecrement(..) => Some(Mnemonic::LDD),
        Command::Push(..) => Some(Mnemonic::PUSH),
        Command::Pop(..) => Some(Mnemonic::POP),
        Command::Add(..) => Some(Mnemonic::ADD),
        Command::AddCarry(..) => Some(Mnemonic::ADC),
        Command::Sub(..) => Some(Mnemonic::SUB),
        Command::SubCarry(..) => Some(Mnemonic::SBC),
        Command::And(..) => Some(Mnemonic::AND),
        Command::Xor(..) => Some(Mnemonic::XOR),
        Command::Or(..) => Some(Mnemonic::OR),
        Command::Compare(..) => Some(Mnemonic::CP),
        Command::AddWide(..) => Some(Mnemonic::ADD),
        Command::AddStackPointer(..) => Some(Mnemonic::ADD),
        Command::Increment(..) => Some(Mnemonic::INC),
        Command::Decrement(..) => Some(Mnemonic::DEC),
        Command::RotateLeftCarry(..) => Some(Mnemonic::RLC),
        Command::RotateRightCarry(..) => Some(Mnemonic::RRC),
        Command::RotateLeft(..) => Some(Mnemonic::RL),
        Command::RotateRight(..) => Some(Mnemonic::RR),
        Command::ShiftLeftArithmetic(..) => Some(Mnemonic::SLA),
        Command::ShiftRightArithmetic(..) => Some(Mnemonic::SRA),
        Command::Swap(..) => Some(Mnemonic::SWAP),
        Command::ShiftRightLogical(..) => Some(Mnemonic::SRL),
        Command::TestBit(..) => Some(Mnemonic::BIT),
        Command::ResetBit(..) => Some(Mnemonic::RES),
        Command::SetBit(..) => Some(Mnemonic::SET),
        Command::Jump(..) => Some(Mnemonic::JP),
        Command::JumpAdd(..) => Some(Mnemonic::JR),
        Command::Call(..) => Some(Mnemonic::CALL),
        Command::Return(..) => Some(Mnemonic::RET),
        Command::ReturnInterrupt => Some(Mnemonic::RETI),
        Command::Restart(..) => Some(Mnemonic::RST),
        Command::Nop => Some(Mnemonic::NOP),
        Command::Stop => Some(Mnemonic::STOP),
        Command::Halt => Some(Mnemonic::HALT),
        Command::DecimalAdjust => Some(Mnemonic::DAA),
        Command::Complement => Some(Mnemonic::CPL),
        Command::SetCarryFlag => Some(Mnemonic::SCF),
        Command::ComplementCarryFlag => Some(Mnemonic::CCF),
        Command::DisableInterrupts => Some(Mnemonic::DI),
        Command::EnableInterrupts => Some(Mnemonic::EI),
        Command::Illegal(..) => None,
    }
}


/// The shape that an opcode table records for an operand.
pub open spec fn operand_shape(o: Operand) -> MemoryOperand {
    match o {
        Operand::RegisterLocation(r) => MemoryOperand::RegisterValue(r),
        Operand::RegisterReference(r) => MemoryOperand::RegisterReference(r),
        Operand::WideRegisterLocation(w) => MemoryOperand::WideRegisterValue(w),
        Operand::WideRegisterReference(w) => MemoryOperand::WideRegisterReference(w),
        Operand::ImmediateValue(_) => MemoryOperand::ImmediateValue,
        Operand::ImmediateReference(_) => MemoryOperand::ImmediateReference,
        Operand::WideImmediateValue(_) => MemoryOperand::WideImmediateValue,
        Operand::WideImmediateReference(_) => MemoryOperand::WideImmediateReference,
        Operand::StackPointerOffset(_) => MemoryOperand::ImmediateSignedStackPointerOffset,
        Operand::ProgramCounterOffset(_) => MemoryOperand::ImmediateSignedProgramCounterOffset,
    }
}

/// Where a command writes, or for a jump or call the target it goes to;
/// `None` where it has no such operand.
pub open spec fn command_destination(c: Command) -> Option<MemoryOperand> {
    match c {
        Command::Load(d, _) => Some(operand_shape(d)),
        Command::LoadIncrement(d, _) => Some(operand_shape(d)),
        Command::LoadDecrement(d, _) => Some(operand_shape(d)),
        Command::Pop(w) => Some(MemoryOperand::WideRegisterValue(w)),
        Command::Add(_) | Command::AddCarry(_) | Command::Sub(_) | Command::SubCarry(_)
        | Command::And(_) | Command::Xor(_) | Command::Or(_) | Command::Compare(_) => Some(
            MemoryOperand::RegisterValue(Register::A),
        ),
        Command::AddWide(_) => Some(MemoryOperand::WideRegisterValue(WideRegister::HL)),
        Command::AddStackPointer(_) => Some(MemoryOperand::WideRegisterValue(WideRegister::SP)),
        Command::Increment(o) | Command::Decrement(o) | Command::RotateLeftCarry(o)
        | Command::RotateRightCarry(o) | Command::RotateLeft(o) | Command::RotateRight(o)
        | Command::ShiftLeftArithmetic(o) | Command::ShiftRightArithmetic(o) | Command::Swap(o)
        | Command::ShiftRightLogical(o) => Some(operand_shape(o)),
        Command::TestBit(_, o) | Command::ResetBit(_, o) | Command::SetBit(_, o) => Some(
            operand_shape(o),
        ),
        Command::Jump(target, _) => Some(operand_shape(target)),
        Command::JumpAdd(..) => Some(MemoryOperand::ImmediateSignedProgramCounterOffset),
        Command::Call(..) => Some(MemoryOperand::WideImmediateValue),
        _ => None,
    }
}

/// Where a command reads its second value from; `None` where it has no such
/// operand.
pub open spec fn command_source(c: Command) -> Option<MemoryOperand> {
    match c {
        Command::Load(_, s) => Some(operand_shape(s)),
        Command::LoadIncrement(_, s) => Some(operand_shape(s)),
        Command::LoadDecrement(_, s) => Some(operand_shape(s)),
        Command::Push(w) => Some(MemoryOperand::WideRegisterValue(w)),
        Command::Add(s) | Command::AddCarry(s) | Command::Sub(s) | Command::SubCarry(s)
        | Command::And(s) | Command::Xor(s) | Command::Or(s) | Command::Compare(s) => Some(
            operand_shape(s),
        ),
        Command::AddWide(w) => Some(MemoryOperand::WideRegisterValue(w)),
        Command::AddStackPointer(_) => Some(MemoryOperand::ImmediateSignedStackPointerOffset),
        _ => None,
    }
}

} // verus!
