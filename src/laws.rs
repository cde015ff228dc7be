//! Properties that relate several operations of the core, proved over the
//! specifications that the operations' own contracts use.
use crate::alu::{DecrementRegister, IncrementRegister, Xor};
use crate::control::{Call, Return};
use crate::decode::{decode, operand_len, primary_entry, DecodeError};
use crate::gameboy::{next_of, wrap16, Machine, Stop, MEMORY_SIZE};
use crate::instruction::{AnyInstruction, Instruction};
use crate::bytes::low_byte;
use crate::register::{Flags, Register, Register16, Register8};
use vstd::prelude::*;

verus! {

/// Setting an 8-bit register and reading it back gives the value written.
proof fn lemma_r8_with(reg: Register, r: Register8, v: u8)
    ensures
        reg.with_r8(r, v).r8(r) == v,
{
}

/// Writing the stack pointer or a register pair and reading it back gives the
/// value written; for AF the low nibble of the flag byte reads back as zero.
pub proof fn lemma_r16_round_trip(reg: Register, r: Register16, v: u16)
    ensures
        r != Register16::AF ==> reg.with_r16(r, v).r16(r) == v,
        reg.with_r16(Register16::AF, v).r16(Register16::AF) == v - v % 16,
{
    crate::register::lemma_byte_unpack(low_byte(v));
}

/// Incrementing and then decrementing an 8-bit register, or decrementing and
/// then incrementing it, leaves the register with the value it had.
pub proof fn lemma_inc_dec_inverse(m: Machine, r: Register8)
    ensures
        DecrementRegister(r).effect(IncrementRegister(r).effect(m)).register.r8(r)
            == m.register.r8(r),
        IncrementRegister(r).effect(DecrementRegister(r).effect(m)).register.r8(r)
            == m.register.r8(r),
{
    let v = m.register.r8(r);
    let up = IncrementRegister(r).effect(m);
    let down = DecrementRegister(r).effect(m);
    lemma_r8_with(m.register, r, ((v + 1) % 256) as u8);
    lemma_r8_with(m.register, r, ((v + 255) % 256) as u8);
    lemma_r8_with(up.register, r, ((up.register.r8(r) + 255) % 256) as u8);
    lemma_r8_with(down.register, r, ((down.register.r8(r) + 1) % 256) as u8);
}

/// A push followed by a pop returns the pushed word and restores the stack
/// pointer. The stack pointer must leave room for both bytes of the push
/// without wrapping below zero.
pub proof fn lemma_push_pop(m: Machine, v: u16)
    requires
        m.ram.len() == MEMORY_SIZE,
        2 <= m.register.sp < MEMORY_SIZE,
    ensures
        m.pushed(v).can_pop(),
        m.pushed(v).top() == v,
        m.pushed(v).popped().register == m.register,
{
}

/// A pop followed by a push of the popped word leaves the machine as it was.
pub proof fn lemma_pop_push(m: Machine)
    requires
        m.ram.len() == MEMORY_SIZE,
        m.can_pop(),
    ensures
        m.popped().can_push(),
        m.popped().pushed(m.top()) == m,
{
    let sp = m.register.sp as int;
    let after = m.popped().pushed(m.top());
    assert(after.ram =~= m.ram);
}

/// A call stores the return address (three bytes past the call) with its low
/// byte at SP and its high byte at SP - 1 and jumps to its target; a return
/// right after it goes back to that address and restores the stack pointer.
pub proof fn lemma_call_return(m: Machine, target: u16)
    requires
        m.ram.len() == MEMORY_SIZE,
        2 <= m.register.sp < MEMORY_SIZE,
    ensures
        Call(target).fits(m),
        Call(target).effect(m).register.pc == target,
        Call(target).effect(m).ram[m.register.sp as int] == wrap16(m.register.pc + 3) % 256,
        Call(target).effect(m).ram[m.register.sp - 1] == wrap16(m.register.pc + 3) / 256,
        Return.fits(Call(target).effect(m)),
        Return.effect(Call(target).effect(m)).register == (Register {
            pc: wrap16(m.register.pc + 3),
            ..m.register
        }),
{
}

/// XOR A always clears A and leaves exactly the Z flag set.
pub proof fn lemma_xor_self(m: Machine)
    ensures
        Xor(Register8::A).effect(m).register.a == 0,
        Xor(Register8::A).effect(m).register.f == (Flags { z: true, n: false, h: false, c: false }),
{
    let a = m.register.a;
    assert(a ^ a == 0) by (bit_vector);
}

/// A 0xCB prefix followed by a sub-opcode outside the rotate-left family
/// (0x10 to 0x17 but 0x16) and outside BIT 7 on a register (0x78 to 0x7F but
/// 0x7E) decodes to the unimplemented-opcode error for that sub-opcode.
pub proof fn lemma_prefixed_unimplemented(tail: Seq<u8>)
    requires
        tail.len() >= 1,
        !(0x10 <= tail[0] <= 0x17 && tail[0] != 0x16),
        !(0x78 <= tail[0] <= 0x7F && tail[0] != 0x7E),
    ensures
        decode(0xCB, tail) == Err::<crate::instruction::AnyInstruction, DecodeError>(
            DecodeError::UnimplementedOpcode(tail[0]),
        ),
{
}

/// Decoding reads no byte past the operands that the opcode takes: two tails
/// that hold those operands and agree on them decode alike.
pub proof fn lemma_decode_reads_only_operands(opcode: u8, t1: Seq<u8>, t2: Seq<u8>)
    requires
        t1.len() >= operand_len(opcode),
        t2.len() >= operand_len(opcode),
        forall|i: int| 0 <= i < operand_len(opcode) ==> t1[i] == t2[i],
    ensures
        decode(opcode, t1) == decode(opcode, t2),
{
    if operand_len(opcode) >= 1 {
        assert(t1[0] == t2[0]);
    }
    if operand_len(opcode) >= 2 {
        assert(t1[1] == t2[1]);
    }
}

/// Every decoded instruction that is not a control transfer leaves the
/// program counter just past its own bytes: the opcode and its operands.
pub proof fn lemma_decoded_length(opcode: u8, tail: Seq<u8>, m: Machine)
    ensures
        match decode(opcode, tail) {
            Ok(i) => i is JumpRelative || i is Call || i is Return || i.effect(m).register.pc
                == wrap16(m.register.pc + 1 + operand_len(opcode)),
            Err(_) => true,
        },
{
}

/// When the byte at the program counter has no entry in the primary table,
/// fetching stops with the unknown-opcode error; fetching leaves the machine
/// unchanged, so no further instruction follows.
pub proof fn lemma_unknown_opcode_stops(m: Machine)
    requires
        m.ram.len() == MEMORY_SIZE,
        m.register.pc < MEMORY_SIZE,
        m.ram[m.register.pc as int] != 0xCB,
        primary_entry(
            m.ram[m.register.pc as int],
            m.ram.subrange(m.register.pc + 1, MEMORY_SIZE as int),
        ) is None,
    ensures
        next_of(m) == Err::<crate::instruction::AnyInstruction, Stop>(
            Stop::Decode(DecodeError::UnknownOpcode(m.ram[m.register.pc as int])),
        ),
{
}

} // verus!
