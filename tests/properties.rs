use gameboy::alu::{
    Bit, CompareImmediate, DecrementRegister, IncrementRegister, RotateRegisterALeft,
    RotateRegisterLeft, Xor,
};
use gameboy::control::{Call, JumpMode, JumpRelative, Pop, Push, Return};
use gameboy::decode::{parse_command, DecodeError};
use gameboy::gameboy::{GameBoy, Stop};
use gameboy::instruction::{AnyInstruction, Instruction};
use gameboy::register::{Flag, Register8, RegisterPair};

const REGISTERS: [Register8; 7] = [
    Register8::A,
    Register8::B,
    Register8::C,
    Register8::D,
    Register8::E,
    Register8::H,
    Register8::L,
];

#[test]
fn inc_then_dec_restores_every_value() {
    for r in REGISTERS {
        for v in 0..=255u8 {
            let mut gb = GameBoy::new();
            gb.register.write_8bit_register(&r, v);
            IncrementRegister(r).exec(&mut gb);
            DecrementRegister(r).exec(&mut gb);
            assert_eq!(gb.register.get(&r), v);
            DecrementRegister(r).exec(&mut gb);
            IncrementRegister(r).exec(&mut gb);
            assert_eq!(gb.register.get(&r), v);
        }
    }
}

#[test]
fn inc_a_from_ff_wraps_to_zero_and_sets_z() {
    let mut gb = GameBoy::new();
    gb.register.a = 0xff;
    gb.register.f.set(Flag::N, true);
    IncrementRegister(Register8::A).exec(&mut gb);
    assert_eq!(gb.register.a, 0x00);
    assert!(gb.register.f.contains(Flag::Z));
    assert!(!gb.register.f.contains(Flag::N));
    assert!(gb.register.f.contains(Flag::H));
}

#[test]
fn dec_a_from_zero_wraps_to_ff_and_sets_n() {
    let mut gb = GameBoy::new();
    gb.register.f.set(Flag::Z, true);
    DecrementRegister(Register8::A).exec(&mut gb);
    assert_eq!(gb.register.a, 0xff);
    assert!(!gb.register.f.contains(Flag::Z));
    assert!(gb.register.f.contains(Flag::N));
    assert!(gb.register.f.contains(Flag::H));
}

#[test]
fn half_carry_follows_the_low_nibble() {
    let mut gb = GameBoy::new();
    gb.register.b = 0x0f;
    IncrementRegister(Register8::B).exec(&mut gb);
    assert_eq!(gb.register.b, 0x10);
    assert!(gb.register.f.contains(Flag::H));
    IncrementRegister(Register8::B).exec(&mut gb);
    assert!(!gb.register.f.contains(Flag::H));
    gb.register.c = 0x10;
    DecrementRegister(Register8::C).exec(&mut gb);
    assert_eq!(gb.register.c, 0x0f);
    assert!(gb.register.f.contains(Flag::H));
    DecrementRegister(Register8::C).exec(&mut gb);
    assert!(!gb.register.f.contains(Flag::H));
}

#[test]
fn inc_and_dec_keep_the_carry_flag() {
    let mut gb = GameBoy::new();
    gb.register.f.set(Flag::C, true);
    IncrementRegister(Register8::D).exec(&mut gb);
    DecrementRegister(Register8::E).exec(&mut gb);
    assert!(gb.register.f.contains(Flag::C));
}

#[test]
fn push_then_pop_returns_the_word() {
    for v in [0x0000u16, 0x0001, 0x00ff, 0x1234, 0x8000, 0xabcd, 0xffff] {
        let mut gb = GameBoy::new();
        gb.register.sp = 0xfffe;
        gb.push_to_stack(v);
        assert_eq!(gb.register.sp, 0xfffc);
        assert_eq!(gb.pop_from_stack(), v);
        assert_eq!(gb.register.sp, 0xfffe);
    }
}

#[test]
fn push_stores_low_byte_at_sp() {
    let mut gb = GameBoy::new();
    gb.register.sp = 0x8000;
    gb.push_to_stack(0xbeef);
    assert_eq!(gb.ram[0x8000], 0xef);
    assert_eq!(gb.ram[0x7fff], 0xbe);
    assert_eq!(gb.register.sp, 0x7ffe);
}

#[test]
fn call_then_return_restores_pc_and_sp() {
    let mut gb = GameBoy::new();
    gb.register.sp = 0xfffe;
    gb.register.pc = 0x0ff0;
    Call(0x1234).exec(&mut gb);
    assert_eq!(gb.register.pc, 0x1234);
    assert_eq!(gb.register.sp, 0xfffc);
    assert_eq!(gb.ram[0xfffe], 0xf3);
    assert_eq!(gb.ram[0xfffd], 0x0f);
    Return.exec(&mut gb);
    assert_eq!(gb.register.pc, 0x0ff3);
    assert_eq!(gb.register.sp, 0xfffe);
}

#[test]
fn push_and_pop_af_keep_the_flags() {
    let mut gb = GameBoy::new();
    gb.register.sp = 0xfffe;
    gb.register.a = 0x42;
    gb.register.f.set(Flag::Z, true);
    gb.register.f.set(Flag::C, true);
    Push(RegisterPair::AF).exec(&mut gb);
    gb.register.a = 0;
    gb.register.f.set(Flag::Z, false);
    Pop(RegisterPair::AF).exec(&mut gb);
    assert_eq!(gb.register.a, 0x42);
    assert_eq!(gb.register.f.bits(), 0x90);
    assert_eq!(gb.register.pc, 2);
}

#[test]
fn pop_af_masks_the_low_nibble() {
    let mut gb = GameBoy::new();
    gb.register.sp = 0xfffc;
    gb.ram[0xfffe] = 0xff;
    gb.ram[0xfffd] = 0x12;
    Pop(RegisterPair::AF).exec(&mut gb);
    assert_eq!(gb.register.a, 0x12);
    assert_eq!(gb.register.f.bits(), 0xf0);
    assert_eq!(gb.register.read_af(), 0x12f0);
}

#[test]
fn xor_a_clears_a_and_sets_only_z() {
    let mut gb = GameBoy::new();
    gb.register.a = 0x5a;
    gb.register.f.set(Flag::N, true);
    gb.register.f.set(Flag::H, true);
    gb.register.f.set(Flag::C, true);
    Xor(Register8::A).exec(&mut gb);
    assert_eq!(gb.register.a, 0x00);
    assert_eq!(gb.register.f.bits(), 0x80);
}

#[test]
fn xor_register_sets_a_and_flags() {
    let mut gb = GameBoy::new();
    gb.register.a = 0x0f;
    gb.register.b = 0xf5;
    gb.register.f.set(Flag::C, true);
    Xor(Register8::B).exec(&mut gb);
    assert_eq!(gb.register.a, 0xfa);
    assert_eq!(gb.register.f.bits(), 0x00);
    gb.register.c = 0xfa;
    Xor(Register8::C).exec(&mut gb);
    assert_eq!(gb.register.a, 0x00);
    assert_eq!(gb.register.f.bits(), 0x80);
}

#[test]
fn xor_new_maps_opcodes_to_registers() {
    assert_eq!(Xor::new(0xaf), Xor(Register8::A));
    assert_eq!(Xor::new(0xa8), Xor(Register8::B));
    assert_eq!(Xor::new(0xad), Xor(Register8::L));
    assert_eq!(IncrementRegister::new(0x3c), IncrementRegister(Register8::A));
    assert_eq!(IncrementRegister::new(0x24), IncrementRegister(Register8::H));
}

#[test]
fn jr_nz_from_memory_jumps_when_z_is_clear() {
    let mut gb = GameBoy::new();
    gb.ram[0] = 0x20;
    gb.ram[1] = 10;
    let instruction = gb.fetch().unwrap();
    assert_eq!(
        instruction,
        AnyInstruction::JumpRelative(JumpRelative { target: 10, mode: JumpMode::NZ })
    );
    instruction.exec(&mut gb);
    assert_eq!(gb.register.pc, 0x000c);

    let mut gb = GameBoy::new();
    gb.ram[0] = 0x20;
    gb.ram[1] = 10;
    gb.register.f.set(Flag::Z, true);
    gb.fetch().unwrap().exec(&mut gb);
    assert_eq!(gb.register.pc, 0x0002);
}

#[test]
fn jr_goes_backwards_with_a_negative_displacement() {
    let mut gb = GameBoy::new();
    gb.register.pc = 0x0010;
    JumpRelative::nz(-4).exec(&mut gb);
    assert_eq!(gb.register.pc, 0x000e);
    gb.register.pc = 0x0000;
    JumpRelative::nz(-4).exec(&mut gb);
    assert_eq!(gb.register.pc, 0xfffe);
}

#[test]
fn compare_sets_flags_without_changing_a() {
    let mut gb = GameBoy::new();
    gb.register.a = 0x10;
    CompareImmediate(0x01).exec(&mut gb);
    assert_eq!(gb.register.a, 0x10);
    assert_eq!(gb.register.f.bits(), 0x60);
    assert_eq!(gb.register.pc, 2);
    CompareImmediate(0x20).exec(&mut gb);
    assert_eq!(gb.register.f.bits(), 0x50);
    CompareImmediate(0x10).exec(&mut gb);
    assert_eq!(gb.register.f.bits(), 0xc0);
}

#[test]
fn bit_tests_the_masked_bit_and_keeps_carry() {
    let mut gb = GameBoy::new();
    gb.register.h = 0x80;
    gb.register.f.set(Flag::C, true);
    gb.register.f.set(Flag::N, true);
    let bit = Bit { bit: 0x80, register: Register8::H };
    bit.exec(&mut gb);
    assert_eq!(gb.register.f.bits(), 0x30);
    gb.register.h = 0x7f;
    bit.exec(&mut gb);
    assert_eq!(gb.register.f.bits(), 0xb0);
    assert_eq!(gb.register.pc, 4);
}

#[test]
fn rotate_left_moves_bit_seven_into_carry() {
    let mut gb = GameBoy::new();
    gb.register.b = 0x80;
    RotateRegisterLeft(Register8::B).exec(&mut gb);
    assert_eq!(gb.register.b, 0x00);
    assert_eq!(gb.register.f.bits(), 0x90);
    assert_eq!(gb.register.pc, 2);
    RotateRegisterLeft(Register8::B).exec(&mut gb);
    assert_eq!(gb.register.b, 0x01);
    assert_eq!(gb.register.f.bits(), 0x00);
}

#[test]
fn rla_rotates_a_through_carry() {
    let mut gb = GameBoy::new();
    gb.register.a = 0xc1;
    gb.register.f.set(Flag::C, true);
    RotateRegisterALeft.exec(&mut gb);
    assert_eq!(gb.register.a, 0x83);
    assert_eq!(gb.register.f.bits(), 0x10);
    assert_eq!(gb.register.pc, 1);
}

#[test]
fn prefixed_sub_opcodes_without_handler_are_unimplemented() {
    for sub in [0x00u8, 0x07, 0x16, 0x18, 0x1f, 0x40, 0x77, 0x7e, 0x80, 0xff] {
        assert_eq!(parse_command(0xcb, &[sub]), Err(DecodeError::UnimplementedOpcode(sub)));
    }
    let mut gb = GameBoy::new();
    gb.ram[0] = 0xcb;
    gb.ram[1] = 0x37;
    assert_eq!(gb.fetch(), Err(Stop::Decode(DecodeError::UnimplementedOpcode(0x37))));
}

#[test]
fn prefixed_sub_opcodes_with_handler_decode() {
    assert_eq!(
        parse_command(0xcb, &[0x11]),
        Ok(AnyInstruction::RotateRegisterLeft(RotateRegisterLeft(Register8::C)))
    );
    assert_eq!(
        parse_command(0xcb, &[0x17]),
        Ok(AnyInstruction::RotateRegisterLeft(RotateRegisterLeft(Register8::A)))
    );
    assert_eq!(
        parse_command(0xcb, &[0x7c]),
        Ok(AnyInstruction::Bit(Bit { bit: 0x80, register: Register8::H }))
    );
}

#[test]
fn unknown_opcode_stops_the_fetch() {
    let mut gb = GameBoy::new();
    gb.ram[0] = 0xd3;
    assert_eq!(gb.fetch(), Err(Stop::Decode(DecodeError::UnknownOpcode(0xd3))));
    assert_eq!(gb.fetch(), Err(Stop::Decode(DecodeError::UnknownOpcode(0xd3))));
    assert_eq!(gb.register.pc, 0);
    let gb = GameBoy::new();
    assert_eq!(gb.fetch(), Err(Stop::Decode(DecodeError::UnknownOpcode(0x00))));
}

#[test]
fn fetch_stops_at_the_end_of_memory() {
    let mut gb = GameBoy::new();
    gb.register.pc = 0xffff;
    assert_eq!(gb.fetch(), Err(Stop::EndOfMemory));
    gb.register.pc = 0xfffe;
    gb.ram[0xfffe] = 0x01;
    assert_eq!(gb.fetch(), Err(Stop::Decode(DecodeError::MissingOperand(0x01))));
    gb.ram[0xfffe] = 0x3c;
    assert_eq!(
        gb.fetch(),
        Ok(AnyInstruction::IncrementRegister(IncrementRegister(Register8::A)))
    );
}

#[test]
fn decode_reports_missing_operands() {
    assert_eq!(parse_command(0xcb, &[]), Err(DecodeError::MissingOperand(0xcb)));
    assert_eq!(parse_command(0xcd, &[0x34]), Err(DecodeError::MissingOperand(0xcd)));
    assert_eq!(parse_command(0x3e, &[]), Err(DecodeError::MissingOperand(0x3e)));
    assert_eq!(parse_command(0xc9, &[]), Ok(AnyInstruction::Return(Return)));
}

#[test]
fn primary_table_has_seventy_entries() {
    let mut known = 0;
    for opcode in 0..=255u8 {
        if opcode == 0xcb {
            continue;
        }
        match parse_command(opcode, &[0, 0]) {
            Ok(_) => known += 1,
            Err(e) => assert_eq!(e, DecodeError::UnknownOpcode(opcode)),
        }
    }
    assert_eq!(known, 70);
}

#[test]
fn load_immediate_word_is_little_endian() {
    let decoded = parse_command(0x01, &[0x34, 0x12, 0x99]).unwrap();
    let mut gb = GameBoy::new();
    decoded.exec(&mut gb);
    assert_eq!(gb.register.b, 0x12);
    assert_eq!(gb.register.c, 0x34);
    assert_eq!(gb.register.read_bc(), 0x1234);
    assert_eq!(gb.register.pc, 3);
    let call = parse_command(0xcd, &[0xcd, 0xab]).unwrap();
    assert_eq!(call, AnyInstruction::Call(Call(0xabcd)));
}

#[test]
fn register_pairs_split_high_and_low() {
    let mut gb = GameBoy::new();
    gb.register.write_de(0xabcd);
    assert_eq!(gb.register.d, 0xab);
    assert_eq!(gb.register.e, 0xcd);
    assert_eq!(gb.register.read_de(), 0xabcd);
    gb.register.write_af(0x12ff);
    assert_eq!(gb.register.a, 0x12);
    assert_eq!(gb.register.f.bits(), 0xf0);
    assert_eq!(gb.register.pair(&RegisterPair::AF), 0x12f0);
    gb.register.write_hl(0x0102);
    assert_eq!(gb.register.pair(&RegisterPair::HL), 0x0102);
}

#[test]
fn loads_move_data_between_registers_and_memory() {
    let mut gb = GameBoy::new();
    gb.register.a = 0x77;
    gb.register.write_hl(0xc000);
    parse_command(0x22, &[]).unwrap().exec(&mut gb);
    assert_eq!(gb.ram[0xc000], 0x77);
    assert_eq!(gb.register.read_hl(), 0xc001);
    gb.register.write_hl(0x0000);
    parse_command(0x32, &[]).unwrap().exec(&mut gb);
    assert_eq!(gb.ram[0x0000], 0x77);
    assert_eq!(gb.register.read_hl(), 0xffff);
    parse_command(0xe0, &[0x80]).unwrap().exec(&mut gb);
    assert_eq!(gb.ram[0xff80], 0x77);
    gb.register.c = 0x10;
    parse_command(0xe2, &[]).unwrap().exec(&mut gb);
    assert_eq!(gb.ram[0xff10], 0x77);
    parse_command(0xea, &[0x00, 0xd0]).unwrap().exec(&mut gb);
    assert_eq!(gb.ram[0xd000], 0x77);
    gb.ram[0xd001] = 0x99;
    let pc = gb.register.pc;
    parse_command(0xfa, &[0x01, 0xd0]).unwrap().exec(&mut gb);
    assert_eq!(gb.register.a, 0x99);
    assert_eq!(gb.register.pc, pc + 3);
    parse_command(0x47, &[]).unwrap().exec(&mut gb);
    assert_eq!(gb.register.b, 0x99);
    parse_command(0x3e, &[0x42]).unwrap().exec(&mut gb);
    assert_eq!(gb.register.a, 0x42);
    gb.register.write_bc(0xd001);
    parse_command(0x0a, &[]).unwrap().exec(&mut gb);
    assert_eq!(gb.register.a, 0x99);
}

#[test]
fn can_apply_rejects_addresses_outside_memory() {
    let mut gb = GameBoy::new();
    assert!(!parse_command(0xe0, &[0xff]).unwrap().can_apply(&gb));
    assert!(parse_command(0xe0, &[0xfe]).unwrap().can_apply(&gb));
    assert!(!parse_command(0xc5, &[]).unwrap().can_apply(&gb));
    gb.register.sp = 0xfffd;
    assert!(!parse_command(0xc9, &[]).unwrap().can_apply(&gb));
    gb.register.sp = 0xfffc;
    assert!(parse_command(0xc9, &[]).unwrap().can_apply(&gb));
}

#[test]
fn mnemonics_render_the_instructions() {
    let text = |opcode: u8, tail: &[u8]| parse_command(opcode, tail).unwrap().mnemonic();
    assert_eq!(text(0x01, &[0x34, 0x12]), "LD BC,0x1234");
    assert_eq!(text(0x3d, &[]), "DEC A");
    assert_eq!(text(0x20, &[10]), "JR NZ, 10");
    assert_eq!(text(0x20, &[0xfe]), "JR NZ, -2");
    assert_eq!(text(0xcb, &[0x7c]), "BIT 10000000,H");
    assert_eq!(text(0xfe, &[0x00]), "CP 0x0");
    assert_eq!(text(0xe0, &[0x80]), "LDH (0x80),A");
    assert_eq!(text(0xcd, &[0x34, 0x12]), "CALL 0x1234");
    assert_eq!(text(0x7e, &[]), "LD A,(HL)");
    assert_eq!(text(0x77, &[]), "LD (HL),A");
    assert_eq!(text(0x0e, &[0xab]), "LD C,0xab");
    assert_eq!(text(0xf5, &[]), "PUSH AF");
    assert_eq!(text(0x33, &[]), "INC SP");
    assert_eq!(text(0x22, &[]), "LD (HL+),A");
}

#[test]
fn firmware_is_loaded_at_address_zero() {
    let gb = GameBoy::with_firmware(&[0x31, 0xfe, 0xff]);
    assert_eq!(gb.ram[0], 0x31);
    assert_eq!(gb.ram[2], 0xff);
    assert_eq!(gb.ram[3], 0x00);
    assert_eq!(gb.register.pc, 0);
    assert_eq!(
        gb.fetch(),
        Ok(AnyInstruction::Load16Bit(gameboy::load::Load16Bit::SP(0xfffe)))
    );
}

#[test]
fn mutable_handles_write_through() {
    let mut gb = GameBoy::new();
    *gb.register.get_mut(&Register8::E) = 0x21;
    assert_eq!(gb.register.e, 0x21);
    gb.ram_mut()[0x100] = 0x5;
    assert_eq!(gb.ram[0x100], 0x5);
}
