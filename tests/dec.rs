use gameboy::alu::DecrementRegister;
use gameboy::gameboy::GameBoy;
use gameboy::instruction::Instruction;
use gameboy::register::Register8;

#[test]
fn it_should_increase_the_pc() {
    let mut gb = GameBoy::new();
    let instruction = DecrementRegister(Register8::A);
    instruction.exec(&mut gb);
    assert_eq!(gb.register.pc, 0x01);
}

#[test]
fn it_should_decrement_the_value_of_register_a() {
    let mut gb = GameBoy::new();
    let instruction = DecrementRegister(Register8::A);
    gb.register.a = 0x01;
    instruction.exec(&mut gb);
    assert_eq!(gb.register.a, 0x00);
}

#[test]
fn it_should_decrement_the_value_of_register_b() {
    let mut gb = GameBoy::new();
    let instruction = DecrementRegister(Register8::B);
    gb.register.b = 0x01;
    instruction.exec(&mut gb);
    assert_eq!(gb.register.b, 0x00);
}

#[test]
fn it_should_decrement_the_value_of_register_c() {
    let mut gb = GameBoy::new();
    let instruction = DecrementRegister(Register8::C);
    gb.register.c = 0x01;
    instruction.exec(&mut gb);
    assert_eq!(gb.register.c, 0x00);
}

#[test]
fn it_should_decrement_the_value_of_register_d() {
    let mut gb = GameBoy::new();
    let instruction = DecrementRegister(Register8::D);
    gb.register.d = 0x01;
    instruction.exec(&mut gb);
    assert_eq!(gb.register.d, 0x00);
}

#[test]
fn it_should_decrement_the_value_of_register_e() {
    let mut gb = GameBoy::new();
    let instruction = DecrementRegister(Register8::E);
    gb.register.e = 0x01;
    instruction.exec(&mut gb);
    assert_eq!(gb.register.e, 0x00);
}

#[test]
fn it_should_decrement_the_value_of_register_h() {
    let mut gb = GameBoy::new();
    let instruction = DecrementRegister(Register8::H);
    gb.register.h = 0x01;
    instruction.exec(&mut gb);
    assert_eq!(gb.register.h, 0x00);
}

#[test]
fn it_should_decrement_the_value_of_register_l() {
    let mut gb = GameBoy::new();
    let instruction = DecrementRegister(Register8::L);
    gb.register.l = 0x01;
    instruction.exec(&mut gb);
    assert_eq!(gb.register.l, 0x00);
}

#[test]
fn it_should_overflow_while_decrementing() {
    let mut gb = GameBoy::new();
    let instruction = DecrementRegister(Register8::A);
    instruction.exec(&mut gb);
    assert_eq!(gb.register.a, 0xff);
}
