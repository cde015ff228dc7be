//! The textual rendering of decoded instructions, for logs and debuggers.
use crate::control::JumpMode;
use crate::load::Load16Bit;
use crate::instruction::AnyInstruction;
use crate::register::{Register16, Register8, RegisterPair};
use vstd::prelude::*;

verus! {

/// The name of an 8-bit register.
pub open spec fn register_text(r: Register8) -> Seq<char> {
    match r {
        Register8::A => "A"@,
        Register8::B => "B"@,
        Register8::C => "C"@,
        Register8::D => "D"@,
        Register8::E => "E"@,
        Register8::H => "H"@,
        Register8::L => "L"@,
    }
}

/// The name of the stack pointer or of a register pair.
pub open spec fn register16_text(r: Register16) -> Seq<char> {
    match r {
        Register16::SP => "SP"@,
        Register16::AF => "AF"@,
        Register16::BC => "BC"@,
        Register16::DE => "DE"@,
        Register16::HL => "HL"@,
    }
}

/// The name of a register pair.
pub open spec fn pair_text(p: RegisterPair) -> Seq<char> {
    match p {
        RegisterPair::AF => "AF"@,
        RegisterPair::BC => "BC"@,
        RegisterPair::DE => "DE"@,
        RegisterPair::HL => "HL"@,
    }
}

/// The name of a jump condition.
pub open spec fn mode_text(m: JumpMode) -> Seq<char> {
    match m {
        JumpMode::NZ => "NZ"@,
        JumpMode::Z => "Z"@,
        JumpMode::NC => "NC"@,
        JumpMode::C => "C"@,
    }
}

/// The character of a digit below sixteen, in lower case.
pub open spec fn digit_text(d: nat) -> Seq<char> {
    if d == 0 {
        "0"@
    } else if d == 1 {
        "1"@
    } else if d == 2 {
        "2"@
    } else if d == 3 {
        "3"@
    } else if d == 4 {
        "4"@
    } else if d == 5 {
        "5"@
    } else if d == 6 {
        "6"@
    } else if d == 7 {
        "7"@
    } else if d == 8 {
        "8"@
    } else if d == 9 {
        "9"@
    } else if d == 10 {
        "a"@
    } else if d == 11 {
        "b"@
    } else if d == 12 {
        "c"@
    } else if d == 13 {
        "d"@
    } else if d == 14 {
        "e"@
    } else {
        "f"@
    }
}

/// The digits of `v` in base `base`, most significant first, without leading
/// zeros (zero is "0").
pub open spec fn digits(v: nat, base: nat) -> Seq<char>
    decreases v,
    via digits_decreases
{
    if v < base || base < 2 {
        digit_text(v)
    } else {
        digits(v / base, base) + digit_text(v % base)
    }
}

#[via_fn]
proof fn digits_decreases(v: nat, base: nat) {
    if !(v < base || base < 2) {
        assert(v / base < v) by (nonlinear_arith)
            requires
                v >= base >= 2,
        ;
    }
}

/// `v` in hexadecimal, prefixed with "0x".
pub open spec fn hex(v: nat) -> Seq<char> {
    "0x"@ + digits(v, 16)
}

/// `v` in decimal, with a minus sign when negative.
pub open spec fn decimal(v: int) -> Seq<char> {
    if v < 0 {
        "-"@ + digits((-v) as nat, 10)
    } else {
        digits(v as nat, 10)
    }
}

impl AnyInstruction {
    /// The assembly text of the instruction, e.g. "LD BC,0x1234", "DEC A" or
    /// "JR NZ, 10".
    pub open spec fn text(self) -> Seq<char> {
        match self {
            AnyInstruction::NoOp(_) => "NOP"@,
            AnyInstruction::Load16Bit(i) => "LD "@ + register16_text(i.target().0) + ","@ + hex(
                i.target().1 as nat,
            ),
            AnyInstruction::Load8Bit(i) => "LD "@ + register_text(i.register) + ","@ + hex(
                i.data as nat,
            ),
            AnyInstruction::LoadRegisterIntoRegisterA(i) => "LD A,"@ + register_text(i.0),
            AnyInstruction::LoadIntoRegisterFromRegisterA(i) => "LD "@ + register_text(i.0)
                + ",A"@,
            AnyInstruction::LoadRegisterRamIntoRegisterA(i) => "LD A,("@ + pair_text(i.0) + ")"@,
            AnyInstruction::LoadImmediateRamIntoRegisterA(i) => "LD A,("@ + hex(i.0 as nat)
                + ")"@,
            AnyInstruction::LoadIntoRegisterRamFromRegisterA(i) => "LD ("@ + register16_text(i.0)
                + "),A"@,
            AnyInstruction::LoadIntoImmediateRamFromRegisterA(i) => "LD ("@ + hex(i.0 as nat)
                + "),A"@,
            AnyInstruction::LoadRamFromRegisterA(_) => "LD (C),A"@,
            AnyInstruction::LoadRegisterAIntoZeroPageRam(i) => "LDH ("@ + hex(i.0 as nat)
                + "),A"@,
            AnyInstruction::LoadIncrementHLA(_) => "LD (HL+),A"@,
            AnyInstruction::LoadDecrementHLA(_) => "LD (HL-),A"@,
            AnyInstruction::IncrementRegister(i) => "INC "@ + register_text(i.0),
            AnyInstruction::DecrementRegister(i) => "DEC "@ + register_text(i.0),
            AnyInstruction::Increment16BitRegister(i) => "INC "@ + register16_text(i.0),
            AnyInstruction::Xor(i) => "XOR "@ + register_text(i.0),
            AnyInstruction::CompareImmediate(i) => "CP "@ + hex(i.0 as nat),
            AnyInstruction::Bit(i) => "BIT "@ + digits(i.bit as nat, 2) + ","@ + register_text(
                i.register,
            ),
            AnyInstruction::RotateRegisterLeft(i) => "RL "@ + register_text(i.0),
            AnyInstruction::RotateRegisterALeft(_) => "RLA"@,
            AnyInstruction::JumpRelative(i) => "JR "@ + mode_text(i.mode) + ", "@ + decimal(
                i.target as int,
            ),
            AnyInstruction::Call(i) => "CALL "@ + hex(i.0 as nat),
            AnyInstruction::Return(_) => "RET"@,
            AnyInstruction::Push(i) => "PUSH "@ + pair_text(i.0),
            AnyInstruction::Pop(i) => "POP "@ + pair_text(i.0),
        }
    }
}

fn register_name(r: &Register8) -> (s: &'static str)
    ensures
        s@ == register_text(*r),
{
    match r {
        Register8::A => "A",
        Register8::B => "B",
        Register8::C => "C",
        Register8::D => "D",
        Register8::E => "E",
        Register8::H => "H",
        Register8::L => "L",
    }
}

fn digit_name(d: u32) -> (s: &'static str)
    requires
        d < 16,
    ensures
        s@ == digit_text(d as nat),
{
    match d {
        0 => "0",
        1 => "1",
        2 => "2",
        3 => "3",
        4 => "4",
        5 => "5",
        6 => "6",
        7 => "7",
        8 => "8",
        9 => "9",
        10 => "a",
        11 => "b",
        12 => "c",
        13 => "d",
        14 => "e",
        _ => "f",
    }
}

/// Appends the digits of `v` in base `base`.
fn push_digits(s: &mut String, v: u32, base: u32)
    requires
        2 <= base <= 16,
    ensures
        final(s)@ == old(s)@ + digits(v as nat, base as nat),
    decreases v,
{
    if v >= base {
        assert(v / base < v) by (nonlinear_arith)
            requires
                v >= base >= 2,
        ;
        push_digits(s, v / base, base);
    }
    if v < base {
        assert(v % base == v) by (nonlinear_arith)
            requires
                v < base,
        ;
    }
    s.append(digit_name(v % base));
    proof {
        assert(s@ =~= old(s)@ + digits(v as nat, base as nat));
    }
}

fn register16_name(r: &Register16) -> (s: &'static str)
    ensures
        s@ == register16_text(*r),
{
    match r {
        Register16::SP => "SP",
        Register16::AF => "AF",
        Register16::BC => "BC",
        Register16::DE => "DE",
        Register16::HL => "HL",
    }
}

fn pair_name(p: &RegisterPair) -> (s: &'static str)
    ensures
        s@ == pair_text(*p),
{
    match p {
        RegisterPair::AF => "AF",
        RegisterPair::BC => "BC",
        RegisterPair::DE => "DE",
        RegisterPair::HL => "HL",
    }
}

fn mode_name(m: &JumpMode) -> (s: &'static str)
    ensures
        s@ == mode_text(*m),
{
    match m {
        JumpMode::NZ => "NZ",
        JumpMode::Z => "Z",
        JumpMode::NC => "NC",
        JumpMode::C => "C",
    }
}

/// Appends `v` in hexadecimal with its "0x" prefix.
fn push_hex(s: &mut String, v: u32)
    ensures
        final(s)@ == old(s)@ + hex(v as nat),
{
    s.append("0x");
    push_digits(s, v, 16);
    proof {
        assert(s@ =~= old(s)@ + hex(v as nat));
    }
}

/// Appends `v` in decimal.
fn push_decimal(s: &mut String, v: i8)
    ensures
        final(s)@ == old(s)@ + decimal(v as int),
{
    if v < 0 {
        s.append("-");
        push_digits(s, (0 - v as i32) as u32, 10);
    } else {
        push_digits(s, v as u32, 10);
    }
    proof {
        assert(s@ =~= old(s)@ + decimal(v as int));
    }
}

/// The text `a`, then `b`.
fn join2(a: &str, b: &str) -> (r: String)
    ensures
        r@ == a@ + b@,
{
    let mut s = String::from_str(a);
    s.append(b);
    s
}

/// The text `a`, then `b`, then `c`.
fn join3(a: &str, b: &str, c: &str) -> (r: String)
    ensures
        r@ == a@ + b@ + c@,
{
    let mut s = String::from_str(a);
    s.append(b);
    s.append(c);
    s
}

impl Load16Bit {
    /// The register that the instruction loads, and the word it loads.
    pub fn parts(&self) -> (r: (Register16, u16))
        ensures
            r == self.target(),
    {
        match self {
            Load16Bit::BC(d) => (Register16::BC, *d),
            Load16Bit::DE(d) => (Register16::DE, *d),
            Load16Bit::HL(d) => (Register16::HL, *d),
            Load16Bit::SP(d) => (Register16::SP, *d),
        }
    }
}

impl AnyInstruction {
    /// The assembly text of the instruction.
    pub fn mnemonic(&self) -> (r: String)
        ensures
            r@ == self.text(),
    {
        match self {
            AnyInstruction::NoOp(_) => String::from_str("NOP"),
            AnyInstruction::Load16Bit(i) => {
                let (register, data) = i.parts();
                let mut s = join3("LD ", register16_name(&register), ",");
                push_hex(&mut s, data as u32);
                s
            },
            AnyInstruction::Load8Bit(i) => {
                let mut s = join3("LD ", register_name(&i.register), ",");
                push_hex(&mut s, i.data as u32);
                s
            },
            AnyInstruction::LoadRegisterIntoRegisterA(i) => join2("LD A,", register_name(&i.0)),
            AnyInstruction::LoadIntoRegisterFromRegisterA(i) => join3("LD ", register_name(&i.0), ",A"),
            AnyInstruction::LoadRegisterRamIntoRegisterA(i) => join3("LD A,(", pair_name(&i.0), ")"),
            AnyInstruction::LoadImmediateRamIntoRegisterA(i) => {
                let mut s = String::from_str("LD A,(");
                push_hex(&mut s, i.0 as u32);
                s.append(")");
                s
            },
            AnyInstruction::LoadIntoRegisterRamFromRegisterA(i) => join3(
                "LD (",
                register16_name(&i.0),
                "),A",
            ),
            AnyInstruction::LoadIntoImmediateRamFromRegisterA(i) => {
                let mut s = String::from_str("LD (");
                push_hex(&mut s, i.0 as u32);
                s.append("),A");
                s
            },
            AnyInstruction::LoadRamFromRegisterA(_) => String::from_str("LD (C),A"),
            AnyInstruction::LoadRegisterAIntoZeroPageRam(i) => {
                let mut s = String::from_str("LDH (");
                push_hex(&mut s, i.0 as u32);
                s.append("),A");
                s
            },
            AnyInstruction::LoadIncrementHLA(_) => String::from_str("LD (HL+),A"),
            AnyInstruction::LoadDecrementHLA(_) => String::from_str("LD (HL-),A"),
            AnyInstruction::IncrementRegister(i) => join2("INC ", register_name(&i.0)),
            AnyInstruction::DecrementRegister(i) => join2("DEC ", register_name(&i.0)),
            AnyInstruction::Increment16BitRegister(i) => join2("INC ", register16_name(&i.0)),
            AnyInstruction::Xor(i) => join2("XOR ", register_name(&i.0)),
            AnyInstruction::CompareImmediate(i) => {
                let mut s = String::from_str("CP ");
                push_hex(&mut s, i.0 as u32);
                s
            },
            AnyInstruction::Bit(i) => {
                let mut s = String::from_str("BIT ");
                push_digits(&mut s, i.bit as u32, 2);
                s.append(",");
                s.append(register_name(&i.register));
                s
            },
            AnyInstruction::RotateRegisterLeft(i) => join2("RL ", register_name(&i.0)),
            AnyInstruction::RotateRegisterALeft(_) => String::from_str("RLA"),
            AnyInstruction::JumpRelative(i) => {
                let mut s = join3("JR ", mode_name(&i.mode), ", ");
                push_decimal(&mut s, i.target);
                s
            },
            AnyInstruction::Call(i) => {
                let mut s = String::from_str("CALL ");
                push_hex(&mut s, i.0 as u32);
                s
            },
            AnyInstruction::Return(_) => String::from_str("RET"),
            AnyInstruction::Push(i) => join2("PUSH ", pair_name(&i.0)),
            AnyInstruction::Pop(i) => join2("POP ", pair_name(&i.0)),
        }
    }
}

} // verus!
