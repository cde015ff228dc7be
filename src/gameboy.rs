use crate::bytes::{high_byte, low_byte, read_le_u16, word};
use crate::decode::{decode, parse_command, DecodeError};
use crate::instruction::AnyInstruction;
use crate::register::Register;
use vstd::prelude::*;

verus! {

/// The number of addressable bytes of memory: indices run from 0 to 0xfffe.
pub const MEMORY_SIZE: usize = 0xffff;

/// A 16-bit value taken modulo 0x10000.
pub open spec fn wrap16(x: int) -> u16 {
    (x % 0x10000) as u16
}

/// The machine as a mathematical value: the register file and the bytes of
/// memory.
pub struct Machine {
    pub register: Register,
    pub ram: Seq<u8>,
}

impl Machine {
    /// The machine with the stack pointer set to `sp`.
    pub open spec fn with_sp(self, sp: u16) -> Machine {
        Machine { register: Register { sp, ..self.register }, ..self }
    }

    /// The machine with the program counter set to `pc`.
    pub open spec fn with_pc(self, pc: u16) -> Machine {
        Machine { register: Register { pc, ..self.register }, ..self }
    }

    /// The machine with the program counter advanced by `n`, wrapping.
    pub open spec fn advance(self, n: int) -> Machine {
        self.with_pc(wrap16(self.register.pc + n))
    }

    /// Whether a push fits: it writes the bytes at SP and SP - 1.
    pub open spec fn can_push(self) -> bool {
        1 <= self.register.sp < MEMORY_SIZE
    }

    /// Whether a pop fits: it reads the bytes at SP + 1 and SP + 2.
    pub open spec fn can_pop(self) -> bool {
        self.register.sp + 2 < MEMORY_SIZE
    }

    /// The machine after pushing `v`: its low byte is stored at SP, its high
    /// byte at SP - 1, and SP goes down by two.
    pub open spec fn pushed(self, v: u16) -> Machine {
        let sp = self.register.sp as int;
        Machine {
            register: Register { sp: wrap16(sp - 2), ..self.register },
            ram: self.ram.update(sp, low_byte(v)).update(sp - 1, high_byte(v)),
        }
    }

    /// The word that a pop returns: low byte at SP + 2, high byte at SP + 1.
    pub open spec fn top(self) -> u16 {
        let sp = self.register.sp as int;
        word(self.ram[sp + 1], self.ram[sp + 2]) as u16
    }

    /// The machine after a pop: SP goes up by two, memory is unchanged.
    pub open spec fn popped(self) -> Machine {
        self.with_sp(wrap16(self.register.sp + 2))
    }
}

/// Why no further instruction is fetched.
#[derive(Debug, Clone, Copy, PartialEq, Eq, Structural)]
pub enum Stop {
    /// The program counter is at or beyond the last byte of memory.
    EndOfMemory,
    /// The bytes at the program counter do not decode.
    Decode(DecodeError),
}

/// The instruction at the program counter of `m`, or why there is none.
pub open spec fn next_of(m: Machine) -> Result<AnyInstruction, Stop> {
    let pc = m.register.pc as int;
    if pc >= MEMORY_SIZE {
        Err(Stop::EndOfMemory)
    } else {
        match decode(m.ram[pc], m.ram.subrange(pc + 1, MEMORY_SIZE as int)) {
            Ok(i) => Ok(i),
            Err(e) => Err(Stop::Decode(e)),
        }
    }
}

/// The machine: the register file and a flat memory of `MEMORY_SIZE` bytes.
pub struct GameBoy {
    pub register: Register,
    pub ram: [u8; 0xffff],
}

impl View for GameBoy {
    type V = Machine;

    open spec fn view(&self) -> Machine {
        Machine { register: self.register, ram: self.ram@ }
    }
}

impl GameBoy {
    /// A machine with every register and every byte of memory zero.
    pub fn new() -> (r: GameBoy)
        ensures
            r.register == Register::new_spec(),
            forall|i: int| 0 <= i < MEMORY_SIZE ==> r.ram@[i] == 0,
    {
        GameBoy { register: Register::new(), ram: [0u8; 0xffff] }
    }

    /// A machine whose memory holds `firmware` from address 0 on and zero
    /// beyond it, with every register zero.
    pub fn with_firmware(firmware: &[u8]) -> (r: GameBoy)
        requires
            firmware@.len() <= MEMORY_SIZE,
        ensures
            r.register == Register::new_spec(),
            forall|i: int| 0 <= i < firmware@.len() ==> r.ram@[i] == firmware@[i],
            forall|i: int| firmware@.len() <= i < MEMORY_SIZE ==> r.ram@[i] == 0,
    {
        let mut gb = GameBoy::new();
        let mut i: usize = 0;
        while i < firmware.len()
            invariant
                i <= firmware@.len() <= MEMORY_SIZE,
                gb.register == Register::new_spec(),
                forall|j: int| 0 <= j < i ==> gb.ram@[j] == firmware@[j],
                forall|j: int| i <= j < MEMORY_SIZE ==> gb.ram@[j] == 0,
            decreases firmware@.len() - i,
        {
            gb.ram[i] = firmware[i];
            i = i + 1;
        }
        gb
    }

    /// Decodes the instruction at the program counter without applying it; the
    /// machine is left as it is, so asking again gives the same answer.
    pub fn fetch(&self) -> (r: Result<AnyInstruction, Stop>)
        ensures
            r == next_of(self@),
    {
        let pc = self.register.pc as usize;
        if pc >= MEMORY_SIZE {
            return Err(Stop::EndOfMemory);
        }
        let opcode = self.ram[pc];
        let tail = vstd::slice::slice_subrange(self.ram.as_slice(), pc + 1, MEMORY_SIZE);
        match parse_command(opcode, tail) {
            Ok(instruction) => Ok(instruction),
            Err(e) => Err(Stop::Decode(e)),
        }
    }

    /// The whole memory, for writing in place.
    pub fn ram_mut(&mut self) -> (r: &mut [u8; 0xffff])
        ensures
            *r == old(self).ram,
            final(self).register == old(self).register,
            final(self).ram == *final(r),
    {
        &mut self.ram
    }

    /// Pushes `addr`: its low byte goes to SP and its high byte to SP - 1, then
    /// SP goes down by two.
    pub fn push_to_stack(&mut self, addr: u16)
        requires
            old(self)@.can_push(),
        ensures
            final(self)@ == old(self)@.pushed(addr),
    {
        let data = crate::bytes::write_le_u16(addr);
        let sp = self.register.sp as usize;
        self.ram[sp] = data[0];
        self.ram[sp - 1] = data[1];
        self.register.sp = self.register.sp.wrapping_sub(2);
    }

    /// Pops a word: the low byte from SP + 2 and the high byte from SP + 1,
    /// then SP goes up by two.
    pub fn pop_from_stack(&mut self) -> (r: u16)
        requires
            old(self)@.can_pop(),
        ensures
            r == old(self)@.top(),
            final(self)@ == old(self)@.popped(),
    {
        let sp = self.register.sp as usize;
        let b1 = self.ram[sp + 2];
        let b2 = self.ram[sp + 1];
        self.register.sp = self.register.sp + 2;
        let bytes: [u8; 2] = [b1, b2];
        read_le_u16(&bytes)
    }
}

} // verus!
