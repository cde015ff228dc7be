use crate::bytes::{high_byte, low_byte, read_le_u16, word, write_le_u16};
use vstd::prelude::*;

verus! {

/// Selects one of the seven 8-bit general registers.
#[derive(Debug, Clone, Copy, PartialEq, Eq, Structural)]
pub enum Register8 {
    A,
    B,
    C,
    D,
    E,
    H,
    L,
}

/// Selects the stack pointer or one of the four register pairs.
#[derive(Debug, Clone, Copy, PartialEq, Eq, Structural)]
pub enum Register16 {
    SP,
    AF,
    BC,
    DE,
    HL,
}

/// Selects one of the four register pairs.
#[derive(Debug, Clone, Copy, PartialEq, Eq, Structural)]
pub enum RegisterPair {
    AF,
    BC,
    DE,
    HL,
}

/// Selects one bit of the flag register.
#[derive(Debug, Clone, Copy, PartialEq, Eq, Structural)]
pub enum Flag {
    /// Zero.
    Z,
    /// Subtract (operation).
    N,
    /// Half carry.
    H,
    /// Carry.
    C,
}

/// The four flags. Packed into a byte they occupy bits 7 (Z), 6 (N), 5 (H) and
/// 4 (C); the low nibble of that byte is always zero.
#[derive(Debug, Clone, Copy, PartialEq, Eq, Structural)]
pub struct Flags {
    pub z: bool,
    pub n: bool,
    pub h: bool,
    pub c: bool,
}

/// The weight of a set bit: `w` when `b` holds, else zero.
pub open spec fn bit_weight(b: bool, w: int) -> int {
    if b {
        w
    } else {
        0
    }
}

impl Flags {
    /// The flag byte: Z, N, H, C in bits 7 to 4, the low nibble clear.
    pub open spec fn byte(self) -> u8 {
        (bit_weight(self.z, 128) + bit_weight(self.n, 64) + bit_weight(self.h, 32)
            + bit_weight(self.c, 16)) as u8
    }

    /// The flags that a byte holds in bits 7 to 4; its low nibble is dropped.
    pub open spec fn unpack(b: u8) -> Flags {
        Flags { z: b as int / 128 % 2 == 1, n: b as int / 64 % 2 == 1, h: b as int / 32 % 2 == 1, c: b as int / 16 % 2 == 1 }
    }

    /// The value of one flag.
    pub open spec fn get(self, flag: Flag) -> bool {
        match flag {
            Flag::Z => self.z,
            Flag::N => self.n,
            Flag::H => self.h,
            Flag::C => self.c,
        }
    }

    /// These flags with one of them set to `value`.
    pub open spec fn with(self, flag: Flag, value: bool) -> Flags {
        match flag {
            Flag::Z => Flags { z: value, ..self },
            Flag::N => Flags { n: value, ..self },
            Flag::H => Flags { h: value, ..self },
            Flag::C => Flags { c: value, ..self },
        }
    }

    /// No flag set.
    pub fn empty() -> (r: Flags)
        ensures
            r == (Flags { z: false, n: false, h: false, c: false }),
    {
        Flags { z: false, n: false, h: false, c: false }
    }

    /// Whether `flag` is set.
    pub fn contains(&self, flag: Flag) -> (r: bool)
        ensures
            r == self.get(flag),
    {
        match flag {
            Flag::Z => self.z,
            Flag::N => self.n,
            Flag::H => self.h,
            Flag::C => self.c,
        }
    }

    /// Sets `flag` to `value`, leaving the other flags as they were.
    pub fn set(&mut self, flag: Flag, value: bool)
        ensures
            *final(self) == old(self).with(flag, value),
    {
        match flag {
            Flag::Z => self.z = value,
            Flag::N => self.n = value,
            Flag::H => self.h = value,
            Flag::C => self.c = value,
        }
    }

    /// The packed flag byte.
    pub fn bits(&self) -> (r: u8)
        ensures
            r == self.byte(),
            r % 16 == 0,
    {
        let mut r: u8 = 0;
        if self.z {
            r = r + 0x80;
        }
        if self.n {
            r = r + 0x40;
        }
        if self.h {
            r = r + 0x20;
        }
        if self.c {
            r = r + 0x10;
        }
        r
    }

    /// The flags held in bits 7 to 4 of `b`; the low nibble is masked off.
    pub fn from_bits_truncate(b: u8) -> (r: Flags)
        ensures
            r == Flags::unpack(b),
    {
        proof {
            lemma_flag_bits(b);
        }
        Flags { z: b & 0x80 != 0, n: b & 0x40 != 0, h: b & 0x20 != 0, c: b & 0x10 != 0 }
    }
}

proof fn lemma_flag_bits(b: u8)
    by (bit_vector)
    ensures
        (b & 0x80 != 0) == (b as int / 128 % 2 == 1),
        (b & 0x40 != 0) == (b as int / 64 % 2 == 1),
        (b & 0x20 != 0) == (b as int / 32 % 2 == 1),
        (b & 0x10 != 0) == (b as int / 16 % 2 == 1),
{
}

/// Packing the flags of a byte gives the byte with its low nibble cleared.
pub(crate) proof fn lemma_byte_unpack(b: u8)
    ensures
        Flags::unpack(b).byte() == b - b % 16,
{
}

/// The 16-bit register that a register pair names.
pub open spec fn pair_register(pair: RegisterPair) -> Register16 {
    match pair {
        RegisterPair::AF => Register16::AF,
        RegisterPair::BC => Register16::BC,
        RegisterPair::DE => Register16::DE,
        RegisterPair::HL => Register16::HL,
    }
}

impl RegisterPair {
    /// The 16-bit register that this pair names.
    pub fn register16(&self) -> (r: Register16)
        ensures
            r == pair_register(*self),
    {
        match self {
            RegisterPair::AF => Register16::AF,
            RegisterPair::BC => Register16::BC,
            RegisterPair::DE => Register16::DE,
            RegisterPair::HL => Register16::HL,
        }
    }
}

/// The register file: seven 8-bit registers, the flags, the stack pointer and
/// the program counter.
#[derive(Debug, Clone, Copy, PartialEq, Eq, Structural)]
pub struct Register {
    /// Accumulator.
    pub a: u8,
    pub b: u8,
    pub c: u8,
    pub d: u8,
    pub e: u8,
    pub f: Flags,
    pub h: u8,
    pub l: u8,
    /// Stack pointer.
    pub sp: u16,
    /// Program counter.
    pub pc: u16,
}

impl Register {
    /// The value of an 8-bit register.
    pub open spec fn r8(self, r: Register8) -> u8 {
        match r {
            Register8::A => self.a,
            Register8::B => self.b,
            Register8::C => self.c,
            Register8::D => self.d,
            Register8::E => self.e,
            Register8::H => self.h,
            Register8::L => self.l,
        }
    }

    /// This register file with one 8-bit register set to `v`.
    pub open spec fn with_r8(self, r: Register8, v: u8) -> Register {
        match r {
            Register8::A => Register { a: v, ..self },
            Register8::B => Register { b: v, ..self },
            Register8::C => Register { c: v, ..self },
            Register8::D => Register { d: v, ..self },
            Register8::E => Register { e: v, ..self },
            Register8::H => Register { h: v, ..self },
            Register8::L => Register { l: v, ..self },
        }
    }

    /// The value of the stack pointer or of a pair: the first-named register of
    /// a pair is its high byte (for AF, A high and the flag byte low).
    pub open spec fn r16(self, r: Register16) -> u16 {
        match r {
            Register16::SP => self.sp,
            Register16::AF => word(self.a, self.f.byte()) as u16,
            Register16::BC => word(self.b, self.c) as u16,
            Register16::DE => word(self.d, self.e) as u16,
            Register16::HL => word(self.h, self.l) as u16,
        }
    }

    /// This register file with the stack pointer or a pair set to `v`; writing
    /// AF keeps only the high nibble of the flag byte.
    pub open spec fn with_r16(self, r: Register16, v: u16) -> Register {
        match r {
            Register16::SP => Register { sp: v, ..self },
            Register16::AF => Register { a: high_byte(v), f: Flags::unpack(low_byte(v)), ..self },
            Register16::BC => Register { b: high_byte(v), c: low_byte(v), ..self },
            Register16::DE => Register { d: high_byte(v), e: low_byte(v), ..self },
            Register16::HL => Register { h: high_byte(v), l: low_byte(v), ..self },
        }
    }

    /// The value of a register pair.
    pub open spec fn pair_value(self, pair: RegisterPair) -> u16 {
        self.r16(pair_register(pair))
    }

    /// All registers zero and no flag set.
    pub open spec fn new_spec() -> Register {
        Register {
            a: 0,
            b: 0,
            c: 0,
            d: 0,
            e: 0,
            f: Flags { z: false, n: false, h: false, c: false },
            h: 0,
            l: 0,
            sp: 0,
            pc: 0,
        }
    }

    /// All registers zero and no flag set.
    pub fn new() -> (r: Register)
        ensures
            r == Register::new_spec(),
    {
        Register { a: 0, b: 0, c: 0, d: 0, e: 0, f: Flags::empty(), h: 0, l: 0, sp: 0, pc: 0 }
    }

    /// The value of a register pair.
    pub fn pair(&self, pair: &RegisterPair) -> (r: u16)
        ensures
            r == self.pair_value(*pair),
    {
        match pair {
            RegisterPair::AF => self.read_af(),
            RegisterPair::BC => self.read_bc(),
            RegisterPair::DE => self.read_de(),
            RegisterPair::HL => self.read_hl(),
        }
    }

    pub fn read_af(&self) -> (r: u16)
        ensures
            r == self.r16(Register16::AF),
    {
        let bytes: [u8; 2] = [self.f.bits(), self.a];
        read_le_u16(&bytes)
    }

    pub fn read_bc(&self) -> (r: u16)
        ensures
            r == self.r16(Register16::BC),
    {
        let bytes: [u8; 2] = [self.c, self.b];
        read_le_u16(&bytes)
    }

    pub fn read_de(&self) -> (r: u16)
        ensures
            r == self.r16(Register16::DE),
    {
        let bytes: [u8; 2] = [self.e, self.d];
        read_le_u16(&bytes)
    }

    pub fn read_hl(&self) -> (r: u16)
        ensures
            r == self.r16(Register16::HL),
    {
        let bytes: [u8; 2] = [self.l, self.h];
        read_le_u16(&bytes)
    }

    /// Writes AF; the low nibble of the flag byte is masked to zero.
    pub fn write_af(&mut self, af: u16)
        ensures
            *final(self) == old(self).with_r16(Register16::AF, af),
    {
        let bytes = write_le_u16(af);
        self.a = bytes[1];
        self.f = Flags::from_bits_truncate(bytes[0]);
    }

    pub fn write_bc(&mut self, bc: u16)
        ensures
            *final(self) == old(self).with_r16(Register16::BC, bc),
    {
        let bytes = write_le_u16(bc);
        self.b = bytes[1];
        self.c = bytes[0];
    }

    pub fn write_de(&mut self, de: u16)
        ensures
            *final(self) == old(self).with_r16(Register16::DE, de),
    {
        let bytes = write_le_u16(de);
        self.d = bytes[1];
        self.e = bytes[0];
    }

    pub fn write_hl(&mut self, hl: u16)
        ensures
            *final(self) == old(self).with_r16(Register16::HL, hl),
    {
        let bytes = write_le_u16(hl);
        self.h = bytes[1];
        self.l = bytes[0];
    }

    pub fn read_8bit_register(&self, target: &Register8) -> (r: u8)
        ensures
            r == self.r8(*target),
    {
        match target {
            Register8::A => self.a,
            Register8::B => self.b,
            Register8::C => self.c,
            Register8::D => self.d,
            Register8::E => self.e,
            Register8::H => self.h,
            Register8::L => self.l,
        }
    }

    pub fn write_8bit_register(&mut self, target: &Register8, data: u8)
        ensures
            *final(self) == old(self).with_r8(*target, data),
    {
        let target = self.get_mut(target);
        *target = data;
    }

    pub fn read_16bit_register(&self, target: &Register16) -> (r: u16)
        ensures
            r == self.r16(*target),
    {
        match target {
            Register16::SP => self.sp,
            Register16::AF => self.read_af(),
            Register16::BC => self.read_bc(),
            Register16::DE => self.read_de(),
            Register16::HL => self.read_hl(),
        }
    }

    pub fn write_16bit_register(&mut self, target: &Register16, data: u16)
        ensures
            *final(self) == old(self).with_r16(*target, data),
    {
        match target {
            Register16::SP => self.sp = data,
            Register16::AF => self.write_af(data),
            Register16::BC => self.write_bc(data),
            Register16::DE => self.write_de(data),
            Register16::HL => self.write_hl(data),
        }
    }

    /// The value of an 8-bit register.
    pub fn get(&self, target: &Register8) -> (r: u8)
        ensures
            r == self.r8(*target),
    {
        self.read_8bit_register(target)
    }

    /// A handle on one 8-bit register, for arithmetic in place.
    pub fn get_mut(&mut self, target: &Register8) -> (r: &mut u8)
        ensures
            *r == old(self).r8(*target),
            *final(self) == old(self).with_r8(*target, *final(r)),
    {
        match target {
            Register8::A => &mut self.a,
            Register8::B => &mut self.b,
            Register8::C => &mut self.c,
            Register8::D => &mut self.d,
            Register8::E => &mut self.e,
            Register8::H => &mut self.h,
            Register8::L => &mut self.l,
        }
    }
}

} // verus!
