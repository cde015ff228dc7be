use crate::gameboy::{wrap16, GameBoy, Machine};
use crate::instruction::Instruction;
use crate::register::{pair_register, Flag, Flags, Register16, RegisterPair};
use vstd::prelude::*;

verus! {

/// NOP: only advances the program counter.
#[derive(Debug, Clone, Copy, PartialEq, Eq, Structural)]
pub struct NoOp;

impl Instruction for NoOp {
    open spec fn fits(&self, m: Machine) -> bool {
        true
    }

    open spec fn effect(&self, m: Machine) -> Machine {
        m.advance(1)
    }

    fn exec(&self, gb: &mut GameBoy) {
        gb.register.pc = gb.register.pc.wrapping_add(1);
    }
}

/// The condition of a relative jump.
#[derive(Debug, Clone, Copy, PartialEq, Eq, Structural)]
pub enum JumpMode {
    /// Jump if Z is clear.
    NZ,
    /// Jump if Z is set.
    Z,
    /// Jump if C is clear.
    NC,
    /// Jump if C is set.
    C,
}

/// Whether a jump under `mode` is taken with flags `f`.
pub open spec fn condition_holds(mode: JumpMode, f: Flags) -> bool {
    match mode {
        JumpMode::NZ => !f.z,
        JumpMode::Z => f.z,
        JumpMode::NC => !f.c,
        JumpMode::C => f.c,
    }
}

/// JR cc,n: two bytes long. The program counter first moves past the
/// instruction; when the condition holds the signed displacement `target` is
/// then added to it, wrapping.
#[derive(Debug, Clone, Copy, PartialEq, Eq, Structural)]
pub struct JumpRelative {
    pub target: i8,
    pub mode: JumpMode,
}

impl JumpRelative {
    /// JR NZ,n.
    pub fn nz(target: i8) -> (r: JumpRelative)
        ensures
            r == (JumpRelative { target, mode: JumpMode::NZ }),
    {
        JumpRelative { target, mode: JumpMode::NZ }
    }

    /// JR Z,n.
    pub fn z(target: i8) -> (r: JumpRelative)
        ensures
            r == (JumpRelative { target, mode: JumpMode::Z }),
    {
        JumpRelative { target, mode: JumpMode::Z }
    }

    /// JR NC,n.
    pub fn nc(target: i8) -> (r: JumpRelative)
        ensures
            r == (JumpRelative { target, mode: JumpMode::NC }),
    {
        JumpRelative { target, mode: JumpMode::NC }
    }

    /// JR C,n.
    pub fn c(target: i8) -> (r: JumpRelative)
        ensures
            r == (JumpRelative { target, mode: JumpMode::C }),
    {
        JumpRelative { target, mode: JumpMode::C }
    }
}

impl Instruction for JumpRelative {
    open spec fn fits(&self, m: Machine) -> bool {
        true
    }

    open spec fn effect(&self, m: Machine) -> Machine {
        if condition_holds(self.mode, m.register.f) {
            m.advance(2 + self.target)
        } else {
            m.advance(2)
        }
    }

    fn exec(&self, gb: &mut GameBoy) {
        let result = match self.mode {
            JumpMode::NZ => !gb.register.f.contains(Flag::Z),
            JumpMode::Z => gb.register.f.contains(Flag::Z),
            JumpMode::NC => !gb.register.f.contains(Flag::C),
            JumpMode::C => gb.register.f.contains(Flag::C),
        };
        gb.register.pc = gb.register.pc.wrapping_add(2);
        if result {
            gb.register.pc = gb.register.pc.wrapping_add_signed(self.target as i16);
        }
    }
}

/// CALL nn: pushes the address of the next instruction (three bytes on) and
/// jumps to `nn`.
#[derive(Debug, Clone, Copy, PartialEq, Eq, Structural)]
pub struct Call(pub u16);

impl Instruction for Call {
    open spec fn fits(&self, m: Machine) -> bool {
        m.can_push()
    }

    open spec fn effect(&self, m: Machine) -> Machine {
        m.pushed(wrap16(m.register.pc + 3)).with_pc(self.0)
    }

    fn exec(&self, gb: &mut GameBoy) {
        let next_instruction = gb.register.pc.wrapping_add(3);
        gb.push_to_stack(next_instruction);
        gb.register.pc = self.0;
    }
}

/// RET: pops the return address into the program counter.
#[derive(Debug, Clone, Copy, PartialEq, Eq, Structural)]
pub struct Return;

impl Instruction for Return {
    open spec fn fits(&self, m: Machine) -> bool {
        m.can_pop()
    }

    open spec fn effect(&self, m: Machine) -> Machine {
        m.popped().with_pc(m.top())
    }

    fn exec(&self, gb: &mut GameBoy) {
        let next_instruction = gb.pop_from_stack();
        gb.register.pc = next_instruction;
    }
}

/// PUSH rr: pushes a register pair.
#[derive(Debug, Clone, Copy, PartialEq, Eq, Structural)]
pub struct Push(pub RegisterPair);

impl Instruction for Push {
    open spec fn fits(&self, m: Machine) -> bool {
        m.can_push()
    }

    open spec fn effect(&self, m: Machine) -> Machine {
        m.pushed(m.register.pair_value(self.0)).advance(1)
    }

    fn exec(&self, gb: &mut GameBoy) {
        let register = gb.register.pair(&self.0);
        gb.push_to_stack(register);
        gb.register.pc = gb.register.pc.wrapping_add(1);
    }
}

/// POP rr: pops a word into a register pair; into AF, only the high nibble of
/// the flag byte is kept.
#[derive(Debug, Clone, Copy, PartialEq, Eq, Structural)]
pub struct Pop(pub RegisterPair);

impl Instruction for Pop {
    open spec fn fits(&self, m: Machine) -> bool {
        m.can_pop()
    }

    open spec fn effect(&self, m: Machine) -> Machine {
        let after = m.popped();
        Machine { register: after.register.with_r16(pair_register(self.0), m.top()), ..after }.advance(1)
    }

    fn exec(&self, gb: &mut GameBoy) {
        let value = gb.pop_from_stack();
        let target: Register16 = self.0.register16();
        gb.register.write_16bit_register(&target, value);
        gb.register.pc = gb.register.pc.wrapping_add(1);
    }
}

} // verus!
