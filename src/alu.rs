use crate::gameboy::{wrap16, GameBoy, Machine};
use crate::instruction::Instruction;
use crate::register::{Flag, Flags, Register, Register16, Register8};
use vstd::prelude::*;

verus! {

/// An 8-bit value taken modulo 0x100.
pub open spec fn wrap8(x: int) -> u8 {
    (x % 0x100) as u8
}

/// `m` with its register file replaced and the program counter advanced by `len`.
pub open spec fn step(m: Machine, register: Register, len: int) -> Machine {
    Machine { register: Register { pc: wrap16(m.register.pc + len), ..register }, ram: m.ram }
}

/// INC r: adds one to an 8-bit register, wrapping. Z is set when the result is
/// zero, N is cleared, H is the carry out of bit 3, C is kept.
#[derive(Debug, Clone, Copy, PartialEq, Eq, Structural)]
pub struct IncrementRegister(pub Register8);

impl IncrementRegister {
    /// The register of an `INC r` opcode (0x04, 0x0C, 0x14, 0x1C, 0x24, 0x2C, 0x3C).
    pub fn new(opcode: u8) -> (r: IncrementRegister)
        requires
            opcode == 0x04 || opcode == 0x0C || opcode == 0x14 || opcode == 0x1C || opcode == 0x24
                || opcode == 0x2C || opcode == 0x3C,
        ensures
            r.0 == crate::decode::r8_of_code((opcode as int / 8) % 8).unwrap(),
    {
        let register = match opcode {
            0x04 => Register8::B,
            0x0C => Register8::C,
            0x14 => Register8::D,
            0x1C => Register8::E,
            0x24 => Register8::H,
            0x2C => Register8::L,
            _ => Register8::A,
        };
        IncrementRegister(register)
    }
}

/// The register file after `INC r`, before the program counter moves.
pub open spec fn inc8_effect(reg: Register, r: Register8) -> Register {
    let v = reg.r8(r);
    let result = wrap8(v + 1);
    Register {
        f: Flags { z: result == 0, n: false, h: v % 16 == 15, c: reg.f.c },
        ..reg.with_r8(r, result)
    }
}

impl Instruction for IncrementRegister {
    open spec fn fits(&self, m: Machine) -> bool {
        true
    }

    open spec fn effect(&self, m: Machine) -> Machine {
        step(m, inc8_effect(m.register, self.0), 1)
    }

    fn exec(&self, gb: &mut GameBoy) {
        let value = gb.register.get(&self.0);
        let result = value.wrapping_add(1);
        gb.register.write_8bit_register(&self.0, result);
        gb.register.f.set(Flag::Z, result == 0);
        gb.register.f.set(Flag::N, false);
        gb.register.f.set(Flag::H, value % 16 == 15);
        gb.register.pc = gb.register.pc.wrapping_add(1);
    }
}

/// DEC r: subtracts one from an 8-bit register, wrapping. Z is set when the
/// result is zero, N is set, H is the borrow into bit 4, C is kept.
#[derive(Debug, Clone, Copy, PartialEq, Eq, Structural)]
pub struct DecrementRegister(pub Register8);

/// The register file after `DEC r`, before the program counter moves.
pub open spec fn dec8_effect(reg: Register, r: Register8) -> Register {
    let v = reg.r8(r);
    let result = wrap8(v + 255);
    Register {
        f: Flags { z: result == 0, n: true, h: v % 16 == 0, c: reg.f.c },
        ..reg.with_r8(r, result)
    }
}

impl Instruction for DecrementRegister {
    open spec fn fits(&self, m: Machine) -> bool {
        true
    }

    open spec fn effect(&self, m: Machine) -> Machine {
        step(m, dec8_effect(m.register, self.0), 1)
    }

    fn exec(&self, gb: &mut GameBoy) {
        let (before, after) = {
            let register = gb.register.get_mut(&self.0);
            let before = *register;
            *register = before.wrapping_sub(1);
            (before, *register)
        };
        gb.register.f.set(Flag::Z, after == 0);
        gb.register.f.set(Flag::N, true);
        gb.register.f.set(Flag::H, before % 16 == 0);
        gb.register.pc = gb.register.pc.wrapping_add(1);
    }
}

/// INC rr: adds one to the stack pointer or a register pair, wrapping; no flag
/// changes (but for AF, whose flag byte is the pair's low byte).
#[derive(Debug, Clone, Copy, PartialEq, Eq, Structural)]
pub struct Increment16BitRegister(pub Register16);

impl Instruction for Increment16BitRegister {
    open spec fn fits(&self, m: Machine) -> bool {
        true
    }

    open spec fn effect(&self, m: Machine) -> Machine {
        let reg = m.register;
        step(m, reg.with_r16(self.0, wrap16(reg.r16(self.0) + 1)), 1)
    }

    fn exec(&self, gb: &mut GameBoy) {
        let value = gb.register.read_16bit_register(&self.0);
        gb.register.write_16bit_register(&self.0, value.wrapping_add(1));
        gb.register.pc = gb.register.pc.wrapping_add(1);
    }
}

/// XOR r: A becomes A xor r. Z is set when the result is zero; N, H and C are
/// cleared.
#[derive(Debug, Clone, Copy, PartialEq, Eq, Structural)]
pub struct Xor(pub Register8);

impl Xor {
    /// The register of an `XOR r` opcode (0xA8 to 0xAD, 0xAF).
    pub fn new(opcode: u8) -> (r: Xor)
        requires
            0xA8 <= opcode <= 0xAF,
            opcode != 0xAE,
        ensures
            r.0 == crate::decode::r8_of_code(opcode as int % 8).unwrap(),
    {
        let register = match opcode {
            0xAF => Register8::A,
            0xA8 => Register8::B,
            0xA9 => Register8::C,
            0xAA => Register8::D,
            0xAB => Register8::E,
            0xAC => Register8::H,
            _ => Register8::L,
        };
        Xor(register)
    }
}

/// The register file after `XOR r`, before the program counter moves.
pub open spec fn xor_effect(reg: Register, r: Register8) -> Register {
    let result = reg.a ^ reg.r8(r);
    Register { a: result, f: Flags { z: result == 0, n: false, h: false, c: false }, ..reg }
}

impl Instruction for Xor {
    open spec fn fits(&self, m: Machine) -> bool {
        true
    }

    open spec fn effect(&self, m: Machine) -> Machine {
        step(m, xor_effect(m.register, self.0), 1)
    }

    fn exec(&self, gb: &mut GameBoy) {
        let param = gb.register.read_8bit_register(&self.0);
        let result = gb.register.a ^ param;
        gb.register.a = result;
        gb.register.f = Flags::empty();
        gb.register.f.set(Flag::Z, result == 0);
        gb.register.pc = gb.register.pc.wrapping_add(1);
    }
}

/// CP n: compares A with an immediate byte without changing A. Z is set when
/// they are equal, N is set, H is the borrow out of the low nibble, C is set
/// when A is below n.
#[derive(Debug, Clone, Copy, PartialEq, Eq, Structural)]
pub struct CompareImmediate(pub u8);

/// The register file after `CP n`, before the program counter moves.
pub open spec fn compare_effect(reg: Register, n: u8) -> Register {
    Register {
        f: Flags { z: reg.a == n, n: true, h: reg.a % 16 < n % 16, c: reg.a < n },
        ..reg
    }
}

impl Instruction for CompareImmediate {
    open spec fn fits(&self, m: Machine) -> bool {
        true
    }

    open spec fn effect(&self, m: Machine) -> Machine {
        step(m, compare_effect(m.register, self.0), 2)
    }

    fn exec(&self, gb: &mut GameBoy) {
        let register = gb.register.a;
        gb.register.f.set(Flag::Z, register == self.0);
        gb.register.f.set(Flag::N, true);
        gb.register.f.set(Flag::H, register % 16 < self.0 % 16);
        gb.register.f.set(Flag::C, register < self.0);
        gb.register.pc = gb.register.pc.wrapping_add(2);
    }
}

/// BIT b,r: tests the bits of a register under the mask `bit`. Z is set when
/// they are all clear, N is cleared, H is set, C is kept.
#[derive(Debug, Clone, Copy, PartialEq, Eq, Structural)]
pub struct Bit {
    pub bit: u8,
    pub register: Register8,
}

/// The register file after `BIT`, before the program counter moves.
pub open spec fn bit_effect(reg: Register, mask: u8, r: Register8) -> Register {
    Register { f: Flags { z: reg.r8(r) & mask == 0, n: false, h: true, c: reg.f.c }, ..reg }
}

impl Instruction for Bit {
    open spec fn fits(&self, m: Machine) -> bool {
        true
    }

    open spec fn effect(&self, m: Machine) -> Machine {
        step(m, bit_effect(m.register, self.bit, self.register), 2)
    }

    fn exec(&self, gb: &mut GameBoy) {
        let data = gb.register.read_8bit_register(&self.register);
        let result = data & self.bit == 0;
        gb.register.f.set(Flag::N, false);
        gb.register.f.set(Flag::H, true);
        gb.register.f.set(Flag::Z, result);
        gb.register.pc = gb.register.pc.wrapping_add(2);
    }
}

/// The register file after rotating a register left through the carry: the
/// old carry enters bit 0 and the old bit 7 becomes the carry. Z is set when
/// the result is zero; N and H are cleared.
pub open spec fn rotate_left_effect(reg: Register, r: Register8) -> Register {
    let v = reg.r8(r);
    let result = wrap8(v * 2 + if reg.f.c { 1int } else { 0int });
    Register {
        f: Flags { z: result == 0, n: false, h: false, c: v >= 128 },
        ..reg.with_r8(r, result)
    }
}

proof fn lemma_rotate_bits(v: u8, carry_in: u8)
    by (bit_vector)
    requires
        carry_in <= 1,
    ensures
        ((v << 1u8) | carry_in) == ((v as int * 2 + carry_in as int) % 256) as u8,
        (v & 0x80 != 0) == (v >= 128),
{
}

/// Rotates `target_register` left through the carry flag.
fn rotate_left(gb: &mut GameBoy, target_register: &Register8)
    ensures
        final(gb).register == rotate_left_effect(old(gb).register, *target_register),
        final(gb).ram == old(gb).ram,
{
    let bit0: u8 = if gb.register.f.contains(Flag::C) {
        0b0000_0001
    } else {
        0b0000_0000
    };
    let (result, carry) = {
        let register = gb.register.get_mut(target_register);
        let value = *register;
        proof {
            lemma_rotate_bits(value, bit0);
        }
        let carry = value & 0b1000_0000 != 0;
        *register = (value << 1u8) | bit0;
        (*register == 0, carry)
    };
    gb.register.f.set(Flag::Z, result);
    gb.register.f.set(Flag::N, false);
    gb.register.f.set(Flag::H, false);
    gb.register.f.set(Flag::C, carry);
}

/// RL r (prefixed): rotates a register left through the carry; two bytes long.
#[derive(Debug, Clone, Copy, PartialEq, Eq, Structural)]
pub struct RotateRegisterLeft(pub Register8);

impl Instruction for RotateRegisterLeft {
    open spec fn fits(&self, m: Machine) -> bool {
        true
    }

    open spec fn effect(&self, m: Machine) -> Machine {
        step(m, rotate_left_effect(m.register, self.0), 2)
    }

    fn exec(&self, gb: &mut GameBoy) {
        rotate_left(gb, &self.0);
        gb.register.pc = gb.register.pc.wrapping_add(2);
    }
}

/// RLA: rotates A left through the carry; one byte long.
#[derive(Debug, Clone, Copy, PartialEq, Eq, Structural)]
pub struct RotateRegisterALeft;

impl Instruction for RotateRegisterALeft {
    open spec fn fits(&self, m: Machine) -> bool {
        true
    }

    open spec fn effect(&self, m: Machine) -> Machine {
        step(m, rotate_left_effect(m.register, Register8::A), 1)
    }

    fn exec(&self, gb: &mut GameBoy) {
        rotate_left(gb, &Register8::A);
        gb.register.pc = gb.register.pc.wrapping_add(1);
    }
}

} // verus!
