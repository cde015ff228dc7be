use crate::alu::{
    Bit, CompareImmediate, DecrementRegister, Increment16BitRegister, IncrementRegister,
    RotateRegisterALeft, RotateRegisterLeft, Xor,
};
use crate::control::{Call, JumpRelative, NoOp, Pop, Push, Return};
use crate::gameboy::{GameBoy, Machine, MEMORY_SIZE};
use crate::load::{
    Load16Bit, Load8Bit, LoadDecrementHLA, LoadImmediateRamIntoRegisterA, LoadIncrementHLA,
    LoadIntoImmediateRamFromRegisterA, LoadIntoRegisterFromRegisterA,
    LoadIntoRegisterRamFromRegisterA, LoadRamFromRegisterA, LoadRegisterAIntoZeroPageRam,
    LoadRegisterIntoRegisterA, LoadRegisterRamIntoRegisterA,
};
use vstd::prelude::*;

verus! {

/// One decoded CPU operation with its operands resolved. Applying it mutates
/// the register file and memory and leaves the program counter at the next
/// instruction, or at the target of a control transfer.
pub trait Instruction {
    /// Whether every memory address the instruction touches on `m` lies in
    /// memory; outside it, applying the instruction would be a fault.
    spec fn fits(&self, m: Machine) -> bool;

    /// The machine after applying the instruction to `m`.
    spec fn effect(&self, m: Machine) -> Machine;

    /// Applies the instruction.
    fn exec(&self, gb: &mut GameBoy)
        requires
            self.fits(old(gb)@),
        ensures
            final(gb)@ == self.effect(old(gb)@),
    ;
}

/// Any instruction that the decoder produces.
#[derive(Debug, Clone, Copy, PartialEq, Eq, Structural)]
pub enum AnyInstruction {
    NoOp(NoOp),
    Load16Bit(Load16Bit),
    Load8Bit(Load8Bit),
    LoadRegisterIntoRegisterA(LoadRegisterIntoRegisterA),
    LoadIntoRegisterFromRegisterA(LoadIntoRegisterFromRegisterA),
    LoadRegisterRamIntoRegisterA(LoadRegisterRamIntoRegisterA),
    LoadImmediateRamIntoRegisterA(LoadImmediateRamIntoRegisterA),
    LoadIntoRegisterRamFromRegisterA(LoadIntoRegisterRamFromRegisterA),
    LoadIntoImmediateRamFromRegisterA(LoadIntoImmediateRamFromRegisterA),
    LoadRamFromRegisterA(LoadRamFromRegisterA),
    LoadRegisterAIntoZeroPageRam(LoadRegisterAIntoZeroPageRam),
    LoadIncrementHLA(LoadIncrementHLA),
    LoadDecrementHLA(LoadDecrementHLA),
    IncrementRegister(IncrementRegister),
    DecrementRegister(DecrementRegister),
    Increment16BitRegister(Increment16BitRegister),
    Xor(Xor),
    CompareImmediate(CompareImmediate),
    Bit(Bit),
    RotateRegisterLeft(RotateRegisterLeft),
    RotateRegisterALeft(RotateRegisterALeft),
    JumpRelative(JumpRelative),
    Call(Call),
    Return(Return),
    Push(Push),
    Pop(Pop),
}

impl Instruction for AnyInstruction {
    open spec fn fits(&self, m: Machine) -> bool {
        match self {
            AnyInstruction::NoOp(i) => i.fits(m),
            AnyInstruction::Load16Bit(i) => i.fits(m),
            AnyInstruction::Load8Bit(i) => i.fits(m),
            AnyInstruction::LoadRegisterIntoRegisterA(i) => i.fits(m),
            AnyInstruction::LoadIntoRegisterFromRegisterA(i) => i.fits(m),
            AnyInstruction::LoadRegisterRamIntoRegisterA(i) => i.fits(m),
            AnyInstruction::LoadImmediateRamIntoRegisterA(i) => i.fits(m),
            AnyInstruction::LoadIntoRegisterRamFromRegisterA(i) => i.fits(m),
            AnyInstruction::LoadIntoImmediateRamFromRegisterA(i) => i.fits(m),
            AnyInstruction::LoadRamFromRegisterA(i) => i.fits(m),
            AnyInstruction::LoadRegisterAIntoZeroPageRam(i) => i.fits(m),
            AnyInstruction::LoadIncrementHLA(i) => i.fits(m),
            AnyInstruction::LoadDecrementHLA(i) => i.fits(m),
            AnyInstruction::IncrementRegister(i) => i.fits(m),
            AnyInstruction::DecrementRegister(i) => i.fits(m),
            AnyInstruction::Increment16BitRegister(i) => i.fits(m),
            AnyInstruction::Xor(i) => i.fits(m),
            AnyInstruction::CompareImmediate(i) => i.fits(m),
            AnyInstruction::Bit(i) => i.fits(m),
            AnyInstruction::RotateRegisterLeft(i) => i.fits(m),
            AnyInstruction::RotateRegisterALeft(i) => i.fits(m),
            AnyInstruction::JumpRelative(i) => i.fits(m),
            AnyInstruction::Call(i) => i.fits(m),
            AnyInstruction::Return(i) => i.fits(m),
            AnyInstruction::Push(i) => i.fits(m),
            AnyInstruction::Pop(i) => i.fits(m),
        }
    }

    open spec fn effect(&self, m: Machine) -> Machine {
        match self {
            AnyInstruction::NoOp(i) => i.effect(m),
            AnyInstruction::Load16Bit(i) => i.effect(m),
            AnyInstruction::Load8Bit(i) => i.effect(m),
            AnyInstruction::LoadRegisterIntoRegisterA(i) => i.effect(m),
            AnyInstruction::LoadIntoRegisterFromRegisterA(i) => i.effect(m),
            AnyInstruction::LoadRegisterRamIntoRegisterA(i) => i.effect(m),
            AnyInstruction::LoadImmediateRamIntoRegisterA(i) => i.effect(m),
            AnyInstruction::LoadIntoRegisterRamFromRegisterA(i) => i.effect(m),
            AnyInstruction::LoadIntoImmediateRamFromRegisterA(i) => i.effect(m),
            AnyInstruction::LoadRamFromRegisterA(i) => i.effect(m),
            AnyInstruction::LoadRegisterAIntoZeroPageRam(i) => i.effect(m),
            AnyInstruction::LoadIncrementHLA(i) => i.effect(m),
            AnyInstruction::LoadDecrementHLA(i) => i.effect(m),
            AnyInstruction::IncrementRegister(i) => i.effect(m),
            AnyInstruction::DecrementRegister(i) => i.effect(m),
            AnyInstruction::Increment16BitRegister(i) => i.effect(m),
            AnyInstruction::Xor(i) => i.effect(m),
            AnyInstruction::CompareImmediate(i) => i.effect(m),
            AnyInstruction::Bit(i) => i.effect(m),
            AnyInstruction::RotateRegisterLeft(i) => i.effect(m),
            AnyInstruction::RotateRegisterALeft(i) => i.effect(m),
            AnyInstruction::JumpRelative(i) => i.effect(m),
            AnyInstruction::Call(i) => i.effect(m),
            AnyInstruction::Return(i) => i.effect(m),
            AnyInstruction::Push(i) => i.effect(m),
            AnyInstruction::Pop(i) => i.effect(m),
        }
    }

    fn exec(&self, gb: &mut GameBoy) {
        match self {
            AnyInstruction::NoOp(i) => i.exec(gb),
            AnyInstruction::Load16Bit(i) => i.exec(gb),
            AnyInstruction::Load8Bit(i) => i.exec(gb),
            AnyInstruction::LoadRegisterIntoRegisterA(i) => i.exec(gb),
            AnyInstruction::LoadIntoRegisterFromRegisterA(i) => i.exec(gb),
            AnyInstruction::LoadRegisterRamIntoRegisterA(i) => i.exec(gb),
            AnyInstruction::LoadImmediateRamIntoRegisterA(i) => i.exec(gb),
            AnyInstruction::LoadIntoRegisterRamFromRegisterA(i) => i.exec(gb),
            AnyInstruction::LoadIntoImmediateRamFromRegisterA(i) => i.exec(gb),
            AnyInstruction::LoadRamFromRegisterA(i) => i.exec(gb),
            AnyInstruction::LoadRegisterAIntoZeroPageRam(i) => i.exec(gb),
            AnyInstruction::LoadIncrementHLA(i) => i.exec(gb),
            AnyInstruction::LoadDecrementHLA(i) => i.exec(gb),
            AnyInstruction::IncrementRegister(i) => i.exec(gb),
            AnyInstruction::DecrementRegister(i) => i.exec(gb),
            AnyInstruction::Increment16BitRegister(i) => i.exec(gb),
            AnyInstruction::Xor(i) => i.exec(gb),
            AnyInstruction::CompareImmediate(i) => i.exec(gb),
            AnyInstruction::Bit(i) => i.exec(gb),
            AnyInstruction::RotateRegisterLeft(i) => i.exec(gb),
            AnyInstruction::RotateRegisterALeft(i) => i.exec(gb),
            AnyInstruction::JumpRelative(i) => i.exec(gb),
            AnyInstruction::Call(i) => i.exec(gb),
            AnyInstruction::Return(i) => i.exec(gb),
            AnyInstruction::Push(i) => i.exec(gb),
            AnyInstruction::Pop(i) => i.exec(gb),
        }
    }
}

impl AnyInstruction {
    /// Whether the instruction can be applied to `gb`: every memory address it
    /// would touch lies in memory.
    pub fn can_apply(&self, gb: &GameBoy) -> (r: bool)
        ensures
            r == self.fits(gb@),
    {
        let sp = gb.register.sp as usize;
        match self {
            AnyInstruction::LoadRegisterRamIntoRegisterA(i) => (gb.register.pair(&i.0) as usize)
                < MEMORY_SIZE,
            AnyInstruction::LoadImmediateRamIntoRegisterA(i) => (i.0 as usize) < MEMORY_SIZE,
            AnyInstruction::LoadIntoRegisterRamFromRegisterA(i) => (gb.register.read_16bit_register(
                &i.0,
            ) as usize) < MEMORY_SIZE,
            AnyInstruction::LoadIntoImmediateRamFromRegisterA(i) => (i.0 as usize) < MEMORY_SIZE,
            AnyInstruction::LoadRamFromRegisterA(_) => 0xff00 + (gb.register.c as usize) < MEMORY_SIZE,
            AnyInstruction::LoadRegisterAIntoZeroPageRam(i) => 0xff00 + (i.0 as usize) < MEMORY_SIZE,
            AnyInstruction::LoadIncrementHLA(_) | AnyInstruction::LoadDecrementHLA(_) => (
            gb.register.read_hl() as usize) < MEMORY_SIZE,
            AnyInstruction::Call(_) | AnyInstruction::Push(_) => 1 <= sp && sp < MEMORY_SIZE,
            AnyInstruction::Return(_) | AnyInstruction::Pop(_) => sp + 2 < MEMORY_SIZE,
            _ => true,
        }
    }
}

} // verus!
