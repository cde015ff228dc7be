use gameboy::control::JumpRelative;
use gameboy::gameboy::GameBoy;
use gameboy::instruction::Instruction;
use gameboy::register::Flag;

#[test]
fn it_should_jump_when_z_flag_is_reset() {
    let mut gb = GameBoy::new();
    let instruction = JumpRelative::nz(10);
    instruction.exec(&mut gb);
    assert_eq!(gb.register.pc, 12);
}

#[test]
fn it_should_not_jump_when_z_flag_is_set() {
    let mut gb = GameBoy::new();
    gb.register.f.set(Flag::Z, true);
    let instruction = JumpRelative::nz(10);
    instruction.exec(&mut gb);
    assert_eq!(gb.register.pc, 2);
}

#[test]
fn it_should_jump_when_z_flag_is_set() {
    let mut gb = GameBoy::new();
    gb.register.f.set(Flag::Z, true);
    let instruction = JumpRelative::z(10);
    instruction.exec(&mut gb);
    assert_eq!(gb.register.pc, 12);
}

#[test]
fn it_should_not_jump_when_z_flag_is_reset() {
    let mut gb = GameBoy::new();
    let instruction = JumpRelative::z(10);
    instruction.exec(&mut gb);
    assert_eq!(gb.register.pc, 2);
}

#[test]
fn it_should_jump_when_c_flag_is_reset() {
    let mut gb = GameBoy::new();
    let instruction = JumpRelative::nc(10);
    instruction.exec(&mut gb);
    assert_eq!(gb.register.pc, 12);
}

#[test]
fn it_should_not_jump_when_c_flag_is_set() {
    let mut gb = GameBoy::new();
    gb.register.f.set(Flag::C, true);
    let instruction = JumpRelative::nc(10);
    instruction.exec(&mut gb);
    assert_eq!(gb.register.pc, 2);
}

#[test]
fn it_should_jump_when_c_flag_is_set() {
    let mut gb = GameBoy::new();
    gb.register.f.set(Flag::C, true);
    let instruction = JumpRelative::c(10);
    instruction.exec(&mut gb);
    assert_eq!(gb.register.pc, 12);
}

#[test]
fn it_should_not_jump_when_c_flag_is_reset() {
    let mut gb = GameBoy::new();
    let instruction = JumpRelative::z(10);
    instruction.exec(&mut gb);
    assert_eq!(gb.register.pc, 2);
}
