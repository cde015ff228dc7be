use crate::alu::step;
use crate::gameboy::{wrap16, GameBoy, Machine, MEMORY_SIZE};
use crate::instruction::Instruction;
use crate::register::{Register, Register16, Register8, RegisterPair};
use vstd::prelude::*;

verus! {

/// `m` with the byte at `addr` set to `v` and the program counter advanced by `len`.
pub open spec fn store(m: Machine, addr: int, v: u8, len: int) -> Machine {
    Machine { ram: m.ram.update(addr, v), ..step(m, m.register, len) }
}

/// LD rr,nn: loads an immediate word into BC, DE, HL or SP; three bytes long.
#[derive(Debug, Clone, Copy, PartialEq, Eq, Structural)]
pub enum Load16Bit {
    BC(u16),
    DE(u16),
    HL(u16),
    SP(u16),
}

impl Load16Bit {
    /// The register that the instruction loads, and the word it loads.
    pub open spec fn target(self) -> (Register16, u16) {
        match self {
            Load16Bit::BC(d) => (Register16::BC, d),
            Load16Bit::DE(d) => (Register16::DE, d),
            Load16Bit::HL(d) => (Register16::HL, d),
            Load16Bit::SP(d) => (Register16::SP, d),
        }
    }
}

impl Instruction for Load16Bit {
    open spec fn fits(&self, m: Machine) -> bool {
        true
    }

    open spec fn effect(&self, m: Machine) -> Machine {
        step(m, m.register.with_r16(self.target().0, self.target().1), 3)
    }

    fn exec(&self, gb: &mut GameBoy) {
        match self {
            Load16Bit::BC(bytes) => gb.register.write_bc(*bytes),
            Load16Bit::DE(bytes) => gb.register.write_de(*bytes),
            Load16Bit::HL(bytes) => gb.register.write_hl(*bytes),
            Load16Bit::SP(bytes) => gb.register.sp = *bytes,
        }
        gb.register.pc = gb.register.pc.wrapping_add(3);
    }
}

/// LD r,n: loads an immediate byte into an 8-bit register; two bytes long.
#[derive(Debug, Clone, Copy, PartialEq, Eq, Structural)]
pub struct Load8Bit {
    pub register: Register8,
    pub data: u8,
}

impl Load8Bit {
    /// The instruction of an `LD r,n` opcode (0x06, 0x0E, 0x16, 0x1E, 0x26,
    /// 0x2E, 0x3E) with immediate byte `data`.
    pub fn new(opcode: u8, data: u8) -> (r: Load8Bit)
        requires
            opcode == 0x06 || opcode == 0x0E || opcode == 0x16 || opcode == 0x1E || opcode == 0x26
                || opcode == 0x2E || opcode == 0x3E,
        ensures
            r.register == crate::decode::r8_of_code((opcode as int / 8) % 8).unwrap(),
            r.data == data,
    {
        let register = match opcode {
            0x06 => Register8::B,
            0x0E => Register8::C,
            0x16 => Register8::D,
            0x1E => Register8::E,
            0x26 => Register8::H,
            0x2E => Register8::L,
            _ => Register8::A,
        };
        Load8Bit { register, data }
    }
}

impl Instruction for Load8Bit {
    open spec fn fits(&self, m: Machine) -> bool {
        true
    }

    open spec fn effect(&self, m: Machine) -> Machine {
        step(m, m.register.with_r8(self.register, self.data), 2)
    }

    fn exec(&self, gb: &mut GameBoy) {
        gb.register.write_8bit_register(&self.register, self.data);
        gb.register.pc = gb.register.pc.wrapping_add(2);
    }
}

/// LD A,r: copies an 8-bit register into A.
#[derive(Debug, Clone, Copy, PartialEq, Eq, Structural)]
pub struct LoadRegisterIntoRegisterA(pub Register8);

impl Instruction for LoadRegisterIntoRegisterA {
    open spec fn fits(&self, m: Machine) -> bool {
        true
    }

    open spec fn effect(&self, m: Machine) -> Machine {
        step(m, Register { a: m.register.r8(self.0), ..m.register }, 1)
    }

    fn exec(&self, gb: &mut GameBoy) {
        let value = gb.register.get(&self.0);
        gb.register.a = value;
        gb.register.pc = gb.register.pc.wrapping_add(1);
    }
}

/// LD r,A: copies A into an 8-bit register.
#[derive(Debug, Clone, Copy, PartialEq, Eq, Structural)]
pub struct LoadIntoRegisterFromRegisterA(pub Register8);

impl Instruction for LoadIntoRegisterFromRegisterA {
    open spec fn fits(&self, m: Machine) -> bool {
        true
    }

    open spec fn effect(&self, m: Machine) -> Machine {
        step(m, m.register.with_r8(self.0, m.register.a), 1)
    }

    fn exec(&self, gb: &mut GameBoy) {
        let a = gb.register.a;
        let register = gb.register.get_mut(&self.0);
        *register = a;
        gb.register.pc = gb.register.pc.wrapping_add(1);
    }
}

/// LD A,(rr): loads A from memory at the address held in a register pair.
#[derive(Debug, Clone, Copy, PartialEq, Eq, Structural)]
pub struct LoadRegisterRamIntoRegisterA(pub RegisterPair);

impl LoadRegisterRamIntoRegisterA {
    /// LD A,(BC).
    pub fn bc() -> (r: LoadRegisterRamIntoRegisterA)
        ensures
            r.0 == RegisterPair::BC,
    {
        LoadRegisterRamIntoRegisterA(RegisterPair::BC)
    }

    /// LD A,(DE).
    pub fn de() -> (r: LoadRegisterRamIntoRegisterA)
        ensures
            r.0 == RegisterPair::DE,
    {
        LoadRegisterRamIntoRegisterA(RegisterPair::DE)
    }

    /// LD A,(HL).
    pub fn hl() -> (r: LoadRegisterRamIntoRegisterA)
        ensures
            r.0 == RegisterPair::HL,
    {
        LoadRegisterRamIntoRegisterA(RegisterPair::HL)
    }
}

impl Instruction for LoadRegisterRamIntoRegisterA {
    open spec fn fits(&self, m: Machine) -> bool {
        m.register.pair_value(self.0) < MEMORY_SIZE
    }

    open spec fn effect(&self, m: Machine) -> Machine {
        step(m, Register { a: m.ram[m.register.pair_value(self.0) as int], ..m.register }, 1)
    }

    fn exec(&self, gb: &mut GameBoy) {
        let location = gb.register.pair(&self.0) as usize;
        gb.register.a = gb.ram[location];
        gb.register.pc = gb.register.pc.wrapping_add(1);
    }
}

/// LD A,(nn): loads A from memory at an immediate address; three bytes long.
#[derive(Debug, Clone, Copy, PartialEq, Eq, Structural)]
pub struct LoadImmediateRamIntoRegisterA(pub u16);

impl Instruction for LoadImmediateRamIntoRegisterA {
    open spec fn fits(&self, m: Machine) -> bool {
        self.0 < MEMORY_SIZE
    }

    open spec fn effect(&self, m: Machine) -> Machine {
        step(m, Register { a: m.ram[self.0 as int], ..m.register }, 3)
    }

    fn exec(&self, gb: &mut GameBoy) {
        let location = self.0 as usize;
        gb.register.a = gb.ram[location];
        gb.register.pc = gb.register.pc.wrapping_add(3);
    }
}

/// LD (rr),A: stores A in memory at the address held in BC, DE or HL.
#[derive(Debug, Clone, Copy, PartialEq, Eq, Structural)]
pub struct LoadIntoRegisterRamFromRegisterA(pub Register16);

impl LoadIntoRegisterRamFromRegisterA {
    /// The address register of an `LD (rr),A` opcode: 0x02 is BC, 0x12 DE,
    /// 0x77 HL.
    pub fn new(opcode: u8) -> (r: LoadIntoRegisterRamFromRegisterA)
        requires
            opcode == 0x02 || opcode == 0x12 || opcode == 0x77,
        ensures
            r.0 == (if opcode == 0x02 {
                Register16::BC
            } else if opcode == 0x12 {
                Register16::DE
            } else {
                Register16::HL
            }),
    {
        let register = match opcode {
            0x02 => Register16::BC,
            0x12 => Register16::DE,
            _ => Register16::HL,
        };
        LoadIntoRegisterRamFromRegisterA(register)
    }
}

impl Instruction for LoadIntoRegisterRamFromRegisterA {
    open spec fn fits(&self, m: Machine) -> bool {
        m.register.r16(self.0) < MEMORY_SIZE
    }

    open spec fn effect(&self, m: Machine) -> Machine {
        store(m, m.register.r16(self.0) as int, m.register.a, 1)
    }

    fn exec(&self, gb: &mut GameBoy) {
        let a = gb.register.a;
        let location = gb.register.read_16bit_register(&self.0) as usize;
        let ram = gb.ram_mut();
        ram[location] = a;
        gb.register.pc = gb.register.pc.wrapping_add(1);
    }
}

/// LD (nn),A: stores A in memory at an immediate address; three bytes long.
#[derive(Debug, Clone, Copy, PartialEq, Eq, Structural)]
pub struct LoadIntoImmediateRamFromRegisterA(pub u16);

impl Instruction for LoadIntoImmediateRamFromRegisterA {
    open spec fn fits(&self, m: Machine) -> bool {
        self.0 < MEMORY_SIZE
    }

    open spec fn effect(&self, m: Machine) -> Machine {
        store(m, self.0 as int, m.register.a, 3)
    }

    fn exec(&self, gb: &mut GameBoy) {
        let a = gb.register.a;
        let location = self.0 as usize;
        let ram = gb.ram_mut();
        ram[location] = a;
        gb.register.pc = gb.register.pc.wrapping_add(3);
    }
}

/// LD (C),A: stores A in the zero page, at 0xFF00 + C.
#[derive(Debug, Clone, Copy, PartialEq, Eq, Structural)]
pub struct LoadRamFromRegisterA;

impl Instruction for LoadRamFromRegisterA {
    open spec fn fits(&self, m: Machine) -> bool {
        0xff00 + m.register.c < MEMORY_SIZE
    }

    open spec fn effect(&self, m: Machine) -> Machine {
        store(m, 0xff00 + m.register.c, m.register.a, 1)
    }

    fn exec(&self, gb: &mut GameBoy) {
        let c = gb.register.c as u16;
        let a = gb.register.a;
        let index = (0xff00 + c) as usize;
        gb.ram[index] = a;
        gb.register.pc = gb.register.pc.wrapping_add(1);
    }
}

/// LDH (n),A: stores A in the zero page, at 0xFF00 + n; two bytes long.
#[derive(Debug, Clone, Copy, PartialEq, Eq, Structural)]
pub struct LoadRegisterAIntoZeroPageRam(pub u8);

impl Instruction for LoadRegisterAIntoZeroPageRam {
    open spec fn fits(&self, m: Machine) -> bool {
        0xff00 + self.0 < MEMORY_SIZE
    }

    open spec fn effect(&self, m: Machine) -> Machine {
        store(m, 0xff00 + self.0, m.register.a, 2)
    }

    fn exec(&self, gb: &mut GameBoy) {
        let offset = self.0 as u16;
        let a = gb.register.a;
        let index = (0xff00 + offset) as usize;
        gb.ram[index] = a;
        gb.register.pc = gb.register.pc.wrapping_add(2);
    }
}

/// LD (HL+),A: stores A in memory at HL, then adds one to HL.
#[derive(Debug, Clone, Copy, PartialEq, Eq, Structural)]
pub struct LoadIncrementHLA;

impl Instruction for LoadIncrementHLA {
    open spec fn fits(&self, m: Machine) -> bool {
        m.register.r16(Register16::HL) < MEMORY_SIZE
    }

    open spec fn effect(&self, m: Machine) -> Machine {
        let hl = m.register.r16(Register16::HL);
        Machine {
            ram: m.ram.update(hl as int, m.register.a),
            ..step(m, m.register.with_r16(Register16::HL, wrap16(hl + 1)), 1)
        }
    }

    fn exec(&self, gb: &mut GameBoy) {
        let hl = gb.register.read_hl();
        let a = gb.register.a;
        gb.ram[hl as usize] = a;
        gb.register.write_hl(hl + 1);
        gb.register.pc = gb.register.pc.wrapping_add(1);
    }
}

/// LD (HL-),A: stores A in memory at HL, then subtracts one from HL, wrapping.
#[derive(Debug, Clone, Copy, PartialEq, Eq, Structural)]
pub struct LoadDecrementHLA;

impl Instruction for LoadDecrementHLA {
    open spec fn fits(&self, m: Machine) -> bool {
        m.register.r16(Register16::HL) < MEMORY_SIZE
    }

    open spec fn effect(&self, m: Machine) -> Machine {
        let hl = m.register.r16(Register16::HL);
        Machine {
            ram: m.ram.update(hl as int, m.register.a),
            ..step(m, m.register.with_r16(Register16::HL, wrap16(hl - 1)), 1)
        }
    }

    fn exec(&self, gb: &mut GameBoy) {
        let hl = gb.register.read_hl();
        let a = gb.register.a;
        gb.ram[hl as usize] = a;
        gb.register.write_hl(hl.wrapping_sub(1));
        gb.register.pc = gb.register.pc.wrapping_add(1);
    }
}

} // verus!
