use crate::alu::{
    Bit, CompareImmediate, DecrementRegister, Increment16BitRegister, IncrementRegister,
    RotateRegisterALeft, RotateRegisterLeft, Xor,
};
use crate::bytes::{read_le_u16, word};
use crate::control::{Call, JumpRelative, JumpMode, Pop, Push, Return};
use crate::instruction::AnyInstruction;
use crate::load::{
    Load16Bit, Load8Bit, LoadDecrementHLA, LoadImmediateRamIntoRegisterA, LoadIncrementHLA,
    LoadIntoImmediateRamFromRegisterA, LoadIntoRegisterFromRegisterA,
    LoadIntoRegisterRamFromRegisterA, LoadRamFromRegisterA, LoadRegisterAIntoZeroPageRam,
    LoadRegisterIntoRegisterA, LoadRegisterRamIntoRegisterA,
};
use crate::register::{Register16, Register8, RegisterPair};
use vstd::prelude::*;

verus! {

/// Why a byte sequence does not decode to an instruction.
#[derive(Debug, Clone, Copy, PartialEq, Eq, Structural)]
pub enum DecodeError {
    /// The primary table has no entry for this opcode.
    UnknownOpcode(u8),
    /// A sub-opcode after the 0xCB prefix that is valid but not modelled.
    UnimplementedOpcode(u8),
    /// Fewer bytes follow this opcode than its operands take.
    MissingOperand(u8),
}

/// The register that a 3-bit register code names in the opcode encoding:
/// 0 to 5 are B, C, D, E, H, L, 7 is A; 6 stands for memory at HL.
pub open spec fn r8_of_code(code: int) -> Option<Register8> {
    if code == 0 {
        Some(Register8::B)
    } else if code == 1 {
        Some(Register8::C)
    } else if code == 2 {
        Some(Register8::D)
    } else if code == 3 {
        Some(Register8::E)
    } else if code == 4 {
        Some(Register8::H)
    } else if code == 5 {
        Some(Register8::L)
    } else if code == 7 {
        Some(Register8::A)
    } else {
        None
    }
}

/// The 16-bit register of a 2-bit code in `LD rr,nn` and `INC rr`.
pub open spec fn r16_of_code(code: int) -> Register16 {
    if code == 0 {
        Register16::BC
    } else if code == 1 {
        Register16::DE
    } else if code == 2 {
        Register16::HL
    } else {
        Register16::SP
    }
}

/// The register pair of a 2-bit code in `PUSH rr` and `POP rr`.
pub open spec fn stack_pair_of_code(code: int) -> RegisterPair {
    if code == 0 {
        RegisterPair::BC
    } else if code == 1 {
        RegisterPair::DE
    } else if code == 2 {
        RegisterPair::HL
    } else {
        RegisterPair::AF
    }
}

/// The immediate word after an opcode: low byte first.
pub open spec fn imm16(tail: Seq<u8>) -> u16 {
    word(tail[1], tail[0]) as u16
}

/// `LD rr,nn` for the register of code `code`.
pub open spec fn load16_of(code: int, nn: u16) -> Load16Bit {
    if code == 0 {
        Load16Bit::BC(nn)
    } else if code == 1 {
        Load16Bit::DE(nn)
    } else if code == 2 {
        Load16Bit::HL(nn)
    } else {
        Load16Bit::SP(nn)
    }
}

/// The entry of the primary table for `opcode`, with operands taken from
/// `tail`; `None` where the table has no entry. With x = opcode / 64,
/// y = opcode / 8 % 8 and z = opcode % 8, the regular families are selected
/// by x and z and their register by y or z.
pub open spec fn primary_entry(opcode: u8, tail: Seq<u8>) -> Option<AnyInstruction> {
    let o = opcode as int;
    let x = o / 64;
    let y = o / 8 % 8;
    let z = o % 8;
    if x == 0 && z == 1 && y % 2 == 0 {
        Some(AnyInstruction::Load16Bit(load16_of(y / 2, imm16(tail))))
    } else if x == 0 && z == 3 && y % 2 == 0 {
        Some(AnyInstruction::Increment16BitRegister(Increment16BitRegister(r16_of_code(y / 2))))
    } else if x == 0 && z == 4 && y != 6 {
        Some(AnyInstruction::IncrementRegister(IncrementRegister(r8_of_code(y).unwrap())))
    } else if x == 0 && z == 5 && y != 6 {
        Some(AnyInstruction::DecrementRegister(DecrementRegister(r8_of_code(y).unwrap())))
    } else if x == 0 && z == 6 && y != 6 {
        Some(AnyInstruction::Load8Bit(Load8Bit { register: r8_of_code(y).unwrap(), data: tail[0] }))
    } else if o == 0x02 {
        Some(AnyInstruction::LoadIntoRegisterRamFromRegisterA(LoadIntoRegisterRamFromRegisterA(Register16::BC)))
    } else if o == 0x12 {
        Some(AnyInstruction::LoadIntoRegisterRamFromRegisterA(LoadIntoRegisterRamFromRegisterA(Register16::DE)))
    } else if o == 0x77 {
        Some(AnyInstruction::LoadIntoRegisterRamFromRegisterA(LoadIntoRegisterRamFromRegisterA(Register16::HL)))
    } else if o == 0x0A {
        Some(AnyInstruction::LoadRegisterRamIntoRegisterA(LoadRegisterRamIntoRegisterA(RegisterPair::BC)))
    } else if o == 0x1A {
        Some(AnyInstruction::LoadRegisterRamIntoRegisterA(LoadRegisterRamIntoRegisterA(RegisterPair::DE)))
    } else if o == 0x7E {
        Some(AnyInstruction::LoadRegisterRamIntoRegisterA(LoadRegisterRamIntoRegisterA(RegisterPair::HL)))
    } else if o == 0x22 {
        Some(AnyInstruction::LoadIncrementHLA(LoadIncrementHLA))
    } else if o == 0x32 {
        Some(AnyInstruction::LoadDecrementHLA(LoadDecrementHLA))
    } else if o == 0x17 {
        Some(AnyInstruction::RotateRegisterALeft(RotateRegisterALeft))
    } else if o == 0x20 {
        Some(AnyInstruction::JumpRelative(JumpRelative { target: tail[0] as i8, mode: JumpMode::NZ }))
    } else if x == 1 && y == 7 && z != 6 {
        Some(AnyInstruction::LoadRegisterIntoRegisterA(LoadRegisterIntoRegisterA(r8_of_code(z).unwrap())))
    } else if o == 0x47 {
        Some(AnyInstruction::LoadIntoRegisterFromRegisterA(LoadIntoRegisterFromRegisterA(Register8::B)))
    } else if o == 0x4F {
        Some(AnyInstruction::LoadIntoRegisterFromRegisterA(LoadIntoRegisterFromRegisterA(Register8::C)))
    } else if x == 2 && y == 5 && z != 6 {
        Some(AnyInstruction::Xor(Xor(r8_of_code(z).unwrap())))
    } else if x == 3 && z == 1 && y % 2 == 0 {
        Some(AnyInstruction::Pop(Pop(stack_pair_of_code(y / 2))))
    } else if x == 3 && z == 5 && y % 2 == 0 {
        Some(AnyInstruction::Push(Push(stack_pair_of_code(y / 2))))
    } else if o == 0xC9 {
        Some(AnyInstruction::Return(Return))
    } else if o == 0xCD {
        Some(AnyInstruction::Call(Call(imm16(tail))))
    } else if o == 0xE0 {
        Some(AnyInstruction::LoadRegisterAIntoZeroPageRam(LoadRegisterAIntoZeroPageRam(tail[0])))
    } else if o == 0xE2 {
        Some(AnyInstruction::LoadRamFromRegisterA(LoadRamFromRegisterA))
    } else if o == 0xEA {
        Some(AnyInstruction::LoadIntoImmediateRamFromRegisterA(LoadIntoImmediateRamFromRegisterA(imm16(tail))))
    } else if o == 0xFA {
        Some(AnyInstruction::LoadImmediateRamIntoRegisterA(LoadImmediateRamIntoRegisterA(imm16(tail))))
    } else if o == 0xFE {
        Some(AnyInstruction::CompareImmediate(CompareImmediate(tail[0])))
    } else {
        None
    }
}

/// How many bytes after the opcode the instruction takes as operands: two for
/// an immediate word, one for an immediate byte, a displacement or the 0xCB
/// sub-opcode, none otherwise.
pub open spec fn operand_len(opcode: u8) -> nat {
    let o = opcode as int;
    if (o / 64 == 0 && o % 8 == 1 && o / 8 % 2 == 0) || o == 0xCD || o == 0xEA || o == 0xFA {
        2
    } else if (o / 64 == 0 && o % 8 == 6 && o / 8 % 8 != 6) || o == 0x20 || o == 0xE0 || o == 0xFE
        || o == 0xCB {
        1
    } else {
        0
    }
}

/// The meaning of a sub-opcode after the 0xCB prefix: `RL r` for
/// 0x10 to 0x17 (but 0x16, RL (HL)), `BIT 7,r` for 0x78 to 0x7F (but 0x7E),
/// every other sub-opcode unimplemented.
pub open spec fn prefixed_entry(sub: u8) -> Result<AnyInstruction, DecodeError> {
    let o = sub as int;
    if o / 8 == 2 && o % 8 != 6 {
        Ok(AnyInstruction::RotateRegisterLeft(RotateRegisterLeft(r8_of_code(o % 8).unwrap())))
    } else if o / 8 == 15 && o % 8 != 6 {
        Ok(AnyInstruction::Bit(Bit { bit: 0x80, register: r8_of_code(o % 8).unwrap() }))
    } else {
        Err(DecodeError::UnimplementedOpcode(sub))
    }
}

/// What `opcode` followed by the bytes `tail` decodes to.
pub open spec fn decode(opcode: u8, tail: Seq<u8>) -> Result<AnyInstruction, DecodeError> {
    if opcode == 0xCB {
        if tail.len() == 0 {
            Err(DecodeError::MissingOperand(opcode))
        } else {
            prefixed_entry(tail[0])
        }
    } else if primary_entry(opcode, tail) is None {
        Err(DecodeError::UnknownOpcode(opcode))
    } else if tail.len() < operand_len(opcode) {
        Err(DecodeError::MissingOperand(opcode))
    } else {
        Ok(primary_entry(opcode, tail).unwrap())
    }
}

/// The signed displacement in the first byte of `data`.
fn read_i8(data: &[u8]) -> (r: i8)
    requires
        data@.len() >= 1,
    ensures
        r == data@[0] as i8,
{
    data[0] as i8
}

/// The number of operand bytes that `opcode` takes.
fn operand_count(opcode: u8) -> (r: usize)
    ensures
        r == operand_len(opcode),
{
    match opcode {
        0x01 | 0x11 | 0x21 | 0x31 | 0xCD | 0xEA | 0xFA => 2,
        0x06 | 0x0E | 0x16 | 0x1E | 0x26 | 0x2E | 0x3E | 0x20 | 0xE0 | 0xFE | 0xCB => 1,
        _ => 0,
    }
}

/// Decodes `opcode` with the bytes that follow it in `rom`. Only the operand
/// bytes that the opcode takes are read.
pub fn parse_command(opcode: u8, rom: &[u8]) -> (r: Result<AnyInstruction, DecodeError>)
    ensures
        r == decode(opcode, rom@),
{
    if opcode == 0xCB {
        return parse_prefix_command(rom);
    }
    if rom.len() < operand_count(opcode) {
        return Err(DecodeError::MissingOperand(opcode));
    }
    match opcode {
        /* LD BC,nn */
        0x01 => Ok(AnyInstruction::Load16Bit(Load16Bit::BC(read_le_u16(rom)))),
        /* LD DE,nn */
        0x11 => Ok(AnyInstruction::Load16Bit(Load16Bit::DE(read_le_u16(rom)))),
        /* LD HL,nn */
        0x21 => Ok(AnyInstruction::Load16Bit(Load16Bit::HL(read_le_u16(rom)))),
        /* LD SP,nn */
        0x31 => Ok(AnyInstruction::Load16Bit(Load16Bit::SP(read_le_u16(rom)))),
        /* LD (r),A */
        0x02 | 0x12 | 0x77 => Ok(
            AnyInstruction::LoadIntoRegisterRamFromRegisterA(
                LoadIntoRegisterRamFromRegisterA::new(opcode),
            ),
        ),
        /* RLA */
        0x17 => Ok(AnyInstruction::RotateRegisterALeft(RotateRegisterALeft)),
        /* INC BC */
        0x03 => Ok(AnyInstruction::Increment16BitRegister(Increment16BitRegister(Register16::BC))),
        /* INC DE */
        0x13 => Ok(AnyInstruction::Increment16BitRegister(Increment16BitRegister(Register16::DE))),
        /* INC HL */
        0x23 => Ok(AnyInstruction::Increment16BitRegister(Increment16BitRegister(Register16::HL))),
        /* INC SP */
        0x33 => Ok(AnyInstruction::Increment16BitRegister(Increment16BitRegister(Register16::SP))),
        /* INC n */
        0x04 | 0x0C | 0x14 | 0x1C | 0x24 | 0x2C | 0x3C => Ok(
            AnyInstruction::IncrementRegister(IncrementRegister::new(opcode)),
        ),
        /* DEC A */
        0x3D => Ok(AnyInstruction::DecrementRegister(DecrementRegister(Register8::A))),
        /* DEC B */
        0x05 => Ok(AnyInstruction::DecrementRegister(DecrementRegister(Register8::B))),
        /* DEC C */
        0x0D => Ok(AnyInstruction::DecrementRegister(DecrementRegister(Register8::C))),
        /* DEC D */
        0x15 => Ok(AnyInstruction::DecrementRegister(DecrementRegister(Register8::D))),
        /* DEC E */
        0x1D => Ok(AnyInstruction::DecrementRegister(DecrementRegister(Register8::E))),
        /* DEC H */
        0x25 => Ok(AnyInstruction::DecrementRegister(DecrementRegister(Register8::H))),
        /* DEC L */
        0x2D => Ok(AnyInstruction::DecrementRegister(DecrementRegister(Register8::L))),
        /* LD r,n */
        0x06 | 0x0E | 0x16 | 0x1E | 0x26 | 0x2E | 0x3E => Ok(
            AnyInstruction::Load8Bit(Load8Bit::new(opcode, rom[0])),
        ),
        /* LD A,A */
        0x7F => Ok(AnyInstruction::LoadRegisterIntoRegisterA(LoadRegisterIntoRegisterA(Register8::A))),
        /* LD A,B */
        0x78 => Ok(AnyInstruction::LoadRegisterIntoRegisterA(LoadRegisterIntoRegisterA(Register8::B))),
        /* LD A,C */
        0x79 => Ok(AnyInstruction::LoadRegisterIntoRegisterA(LoadRegisterIntoRegisterA(Register8::C))),
        /* LD A,D */
        0x7A => Ok(AnyInstruction::LoadRegisterIntoRegisterA(LoadRegisterIntoRegisterA(Register8::D))),
        /* LD A,E */
        0x7B => Ok(AnyInstruction::LoadRegisterIntoRegisterA(LoadRegisterIntoRegisterA(Register8::E))),
        /* LD A,H */
        0x7C => Ok(AnyInstruction::LoadRegisterIntoRegisterA(LoadRegisterIntoRegisterA(Register8::H))),
        /* LD A,L */
        0x7D => Ok(AnyInstruction::LoadRegisterIntoRegisterA(LoadRegisterIntoRegisterA(Register8::L))),
        /* LD A,(BC) */
        0x0A => Ok(AnyInstruction::LoadRegisterRamIntoRegisterA(LoadRegisterRamIntoRegisterA::bc())),
        /* LD A,(DE) */
        0x1A => Ok(AnyInstruction::LoadRegisterRamIntoRegisterA(LoadRegisterRamIntoRegisterA::de())),
        /* LD A,(HL) */
        0x7E => Ok(AnyInstruction::LoadRegisterRamIntoRegisterA(LoadRegisterRamIntoRegisterA::hl())),
        /* JR NZ,n */
        0x20 => Ok(AnyInstruction::JumpRelative(JumpRelative::nz(read_i8(rom)))),
        /* LD (HL+),A */
        0x22 => Ok(AnyInstruction::LoadIncrementHLA(LoadIncrementHLA)),
        /* LD (HL-),A */
        0x32 => Ok(AnyInstruction::LoadDecrementHLA(LoadDecrementHLA)),
        /* XOR r */
        0xAF | 0xA8 | 0xA9 | 0xAA | 0xAB | 0xAC | 0xAD => Ok(AnyInstruction::Xor(Xor::new(opcode))),
        /* LD B,A */
        0x47 => Ok(
            AnyInstruction::LoadIntoRegisterFromRegisterA(LoadIntoRegisterFromRegisterA(Register8::B)),
        ),
        /* LD C,A */
        0x4F => Ok(
            AnyInstruction::LoadIntoRegisterFromRegisterA(LoadIntoRegisterFromRegisterA(Register8::C)),
        ),
        /* CALL nn */
        0xCD => Ok(AnyInstruction::Call(Call(read_le_u16(rom)))),
        /* RET */
        0xC9 => Ok(AnyInstruction::Return(Return)),
        /* LDH (n),A */
        0xE0 => Ok(AnyInstruction::LoadRegisterAIntoZeroPageRam(LoadRegisterAIntoZeroPageRam(rom[0]))),
        /* LD (C),A */
        0xE2 => Ok(AnyInstruction::LoadRamFromRegisterA(LoadRamFromRegisterA)),
        /* LD (nn),A */
        0xEA => Ok(
            AnyInstruction::LoadIntoImmediateRamFromRegisterA(
                LoadIntoImmediateRamFromRegisterA(read_le_u16(rom)),
            ),
        ),
        /* LD A,(nn) */
        0xFA => Ok(
            AnyInstruction::LoadImmediateRamIntoRegisterA(
                LoadImmediateRamIntoRegisterA(read_le_u16(rom)),
            ),
        ),
        /* PUSH AF */
        0xF5 => Ok(AnyInstruction::Push(Push(RegisterPair::AF))),
        /* PUSH BC */
        0xC5 => Ok(AnyInstruction::Push(Push(RegisterPair::BC))),
        /* PUSH DE */
        0xD5 => Ok(AnyInstruction::Push(Push(RegisterPair::DE))),
        /* PUSH HL */
        0xE5 => Ok(AnyInstruction::Push(Push(RegisterPair::HL))),
        /* POP AF */
        0xF1 => Ok(AnyInstruction::Pop(Pop(RegisterPair::AF))),
        /* POP BC */
        0xC1 => Ok(AnyInstruction::Pop(Pop(RegisterPair::BC))),
        /* POP DE */
        0xD1 => Ok(AnyInstruction::Pop(Pop(RegisterPair::DE))),
        /* POP HL */
        0xE1 => Ok(AnyInstruction::Pop(Pop(RegisterPair::HL))),
        /* CP n */
        0xFE => Ok(AnyInstruction::CompareImmediate(CompareImmediate(rom[0]))),
        _ => Err(DecodeError::UnknownOpcode(opcode)),
    }
}

/// Decodes the sub-opcode in the first byte of `rom`, the byte after a 0xCB
/// prefix.
pub fn parse_prefix_command(rom: &[u8]) -> (r: Result<AnyInstruction, DecodeError>)
    ensures
        r == decode(0xCB, rom@),
{
    if rom.len() == 0 {
        return Err(DecodeError::MissingOperand(0xCB));
    }
    let opcode = rom[0];
    match opcode {
        /* RL B */
        0x10 => Ok(AnyInstruction::RotateRegisterLeft(RotateRegisterLeft(Register8::B))),
        /* RL C */
        0x11 => Ok(AnyInstruction::RotateRegisterLeft(RotateRegisterLeft(Register8::C))),
        /* RL D */
        0x12 => Ok(AnyInstruction::RotateRegisterLeft(RotateRegisterLeft(Register8::D))),
        /* RL E */
        0x13 => Ok(AnyInstruction::RotateRegisterLeft(RotateRegisterLeft(Register8::E))),
        /* RL H */
        0x14 => Ok(AnyInstruction::RotateRegisterLeft(RotateRegisterLeft(Register8::H))),
        /* RL L */
        0x15 => Ok(AnyInstruction::RotateRegisterLeft(RotateRegisterLeft(Register8::L))),
        /* RL A */
        0x17 => Ok(AnyInstruction::RotateRegisterLeft(RotateRegisterLeft(Register8::A))),
        /* BIT 7,r */
        0x78..=0x7D | 0x7F => {
            let bit: u8 = 0b1000_0000;
            let register = match opcode {
                0x78 => Register8::B,
                0x79 => Register8::C,
                0x7A => Register8::D,
                0x7B => Register8::E,
                0x7C => Register8::H,
                0x7D => Register8::L,
                _ => Register8::A,
            };
            Ok(AnyInstruction::Bit(Bit { bit, register }))
        },
        /* RL (HL), BIT 7,(HL) and the rotate, shift, swap, test, reset and set
        families that are not modelled */
        _ => Err(DecodeError::UnimplementedOpcode(opcode)),
    }
}

} // verus!
