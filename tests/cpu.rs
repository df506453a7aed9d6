use chip8::decode::{byte, decode, inst_byte, nib, Instruction};
use chip8::display::FrameBuffer;
use chip8::exec::{execute, run, step, ExecError, Outcome};
use chip8::keypad::{input_key_seek, physical_key_index, Keypad};
use chip8::machine::{Cpu, LoadError};

fn machine(rom: &[u8]) -> (Cpu, FrameBuffer, Keypad) {
    (Cpu::new(rom).unwrap(), FrameBuffer::new(), Keypad::new())
}

fn exec(cpu: &mut Cpu, fb: &mut FrameBuffer, keys: &Keypad, op: u16) -> Result<Outcome, ExecError> {
    execute(cpu, fb, keys, [(op >> 8) as u8, (op & 0xFF) as u8], 0)
}

#[test]
fn nibbles_of_an_instruction() {
    let ins = [0xAB, 0xCD];
    assert_eq!(nib(ins, 0), 0xA);
    assert_eq!(nib(ins, 1), 0xB);
    assert_eq!(nib(ins, 2), 0xC);
    assert_eq!(nib(ins, 3), 0xD);
    assert_eq!(inst_byte(ins), 0xABCD);
}

#[test]
fn single_bits() {
    assert_eq!(byte(0b1000_0001, 7), 0x80);
    assert_eq!(byte(0b1000_0001, 0), 0x01);
    assert_eq!(byte(0b1000_0001, 3), 0);
}

#[test]
fn decoding_picks_the_most_specific_pattern() {
    assert_eq!(decode([0x00, 0xE0]), Instruction::Cls);
    assert_eq!(decode([0x00, 0xEE]), Instruction::Ret);
    assert_eq!(decode([0x12, 0x34]), Instruction::Jp { addr: 0x234 });
    assert_eq!(decode([0x8A, 0xBE]), Instruction::Shl { x: 0xA });
    assert_eq!(decode([0xD1, 0x2F]), Instruction::Drw { x: 1, y: 2, n: 0xF });
    assert_eq!(decode([0xF3, 0x65]), Instruction::LoadRegs { x: 3 });
    assert_eq!(decode([0x01, 0x23]), Instruction::Unknown { opcode: 0x0123 });
    assert_eq!(decode([0x51, 0x21]), Instruction::Unknown { opcode: 0x5121 });
}

#[test]
fn initial_state() {
    let cpu = Cpu::new(&[0x12, 0x00]).unwrap();
    assert_eq!(cpu.pc, 0x200);
    assert_eq!(cpu.sp, 0);
    assert_eq!(cpu.i, 0);
    assert_eq!(cpu.dt, 0);
    assert_eq!(cpu.v, [0u8; 16]);
    assert_eq!(&cpu.memory[0..5], &[0xF0, 0x90, 0x90, 0x90, 0xF0]);
    assert_eq!(&cpu.memory[75..80], &[0xF0, 0x80, 0xF0, 0x80, 0x80]);
    assert_eq!(cpu.memory[0x200], 0x12);
    assert_eq!(cpu.memory[0x202], 0);
}

#[test]
fn full_rom_fills_program_space() {
    let rom: Vec<u8> = (0..3584usize).map(|k| (k % 251) as u8 + 1).collect();
    let cpu = Cpu::new(&rom).unwrap();
    assert_eq!(&cpu.memory[0x200..0x1000], &rom[..]);
    assert!(cpu.memory[0x50..0x200].iter().all(|b| *b == 0));
}

#[test]
fn oversized_rom_is_refused() {
    let rom = vec![0u8; 3585];
    assert!(matches!(Cpu::new(&rom), Err(LoadError::RomTooLarge)));
}

#[test]
fn add_with_carry_for_all_values() {
    let (mut cpu, mut fb, keys) = machine(&[]);
    for a in 0..=255u16 {
        for b in 0..=255u16 {
            cpu.v[1] = a as u8;
            cpu.v[2] = b as u8;
            cpu.v[15] = 7;
            assert_eq!(exec(&mut cpu, &mut fb, &keys, 0x8124), Ok(Outcome::Executed));
            assert_eq!(cpu.v[1] as u16, (a + b) % 256);
            assert_eq!(cpu.v[15], if a + b > 255 { 1 } else { 0 });
        }
    }
}

#[test]
fn add_carry_into_vf_itself() {
    let (mut cpu, mut fb, keys) = machine(&[]);
    cpu.v[15] = 200;
    cpu.v[3] = 100;
    exec(&mut cpu, &mut fb, &keys, 0x8F34).unwrap();
    assert_eq!(cpu.v[15], 1);
}

#[test]
fn shifts_move_one_bit() {
    let (mut cpu, mut fb, keys) = machine(&[]);
    for a in 0..=255u16 {
        cpu.v[4] = a as u8;
        exec(&mut cpu, &mut fb, &keys, 0x8406).unwrap();
        assert_eq!(cpu.v[4] as u16, a >> 1);
        assert_eq!(cpu.v[15] as u16, a & 1);
        cpu.v[4] = a as u8;
        exec(&mut cpu, &mut fb, &keys, 0x840E).unwrap();
        assert_eq!(cpu.v[4] as u16, (a << 1) & 0xFF);
        assert_eq!(cpu.v[15] as u16, a >> 7);
    }
}

#[test]
fn subtraction_flags() {
    let (mut cpu, mut fb, keys) = machine(&[]);
    cpu.v[0] = 5;
    cpu.v[1] = 7;
    exec(&mut cpu, &mut fb, &keys, 0x8015).unwrap();
    assert_eq!(cpu.v[0], 254);
    assert_eq!(cpu.v[15], 0);
    cpu.v[0] = 9;
    exec(&mut cpu, &mut fb, &keys, 0x8015).unwrap();
    assert_eq!(cpu.v[0], 2);
    assert_eq!(cpu.v[15], 1);
    cpu.v[0] = 3;
    cpu.v[1] = 10;
    exec(&mut cpu, &mut fb, &keys, 0x8017).unwrap();
    assert_eq!(cpu.v[0], 7);
    assert_eq!(cpu.v[15], 1);
    cpu.v[0] = 10;
    cpu.v[1] = 3;
    exec(&mut cpu, &mut fb, &keys, 0x8017).unwrap();
    assert_eq!(cpu.v[0], 249);
    assert_eq!(cpu.v[15], 0);
}

#[test]
fn bitwise_and_moves() {
    let (mut cpu, mut fb, keys) = machine(&[]);
    cpu.v[2] = 0b1100;
    cpu.v[3] = 0b1010;
    exec(&mut cpu, &mut fb, &keys, 0x8231).unwrap();
    assert_eq!(cpu.v[2], 0b1110);
    cpu.v[2] = 0b1100;
    exec(&mut cpu, &mut fb, &keys, 0x8232).unwrap();
    assert_eq!(cpu.v[2], 0b1000);
    cpu.v[2] = 0b1100;
    exec(&mut cpu, &mut fb, &keys, 0x8233).unwrap();
    assert_eq!(cpu.v[2], 0b0110);
    exec(&mut cpu, &mut fb, &keys, 0x8230).unwrap();
    assert_eq!(cpu.v[2], 0b1010);
    assert_eq!(cpu.pc, 0x208);
}

#[test]
fn load_then_add_immediate() {
    let (mut cpu, mut fb, keys) = machine(&[0x60, 0x05, 0x70, 0x06]);
    cpu.v[15] = 0x42;
    assert_eq!(step(&mut cpu, &mut fb, &keys, 0), Ok(Outcome::Executed));
    assert_eq!(step(&mut cpu, &mut fb, &keys, 0), Ok(Outcome::Executed));
    assert_eq!(cpu.v[0], 11);
    assert_eq!(cpu.v[15], 0x42);
    assert_eq!(cpu.pc, 0x204);
}

#[test]
fn add_immediate_wraps_without_flag() {
    let (mut cpu, mut fb, keys) = machine(&[]);
    cpu.v[5] = 250;
    exec(&mut cpu, &mut fb, &keys, 0x750A).unwrap();
    assert_eq!(cpu.v[5], 4);
    assert_eq!(cpu.v[15], 0);
}

#[test]
fn call_then_return() {
    let (mut cpu, mut fb, keys) = machine(&[]);
    cpu.pc = 0x300;
    cpu.memory[0x300] = 0x24;
    cpu.memory[0x301] = 0x00;
    cpu.memory[0x400] = 0x00;
    cpu.memory[0x401] = 0xEE;
    step(&mut cpu, &mut fb, &keys, 0).unwrap();
    assert_eq!(cpu.pc, 0x400);
    assert_eq!(cpu.sp, 1);
    assert_eq!(cpu.stack[0], 0x300);
    step(&mut cpu, &mut fb, &keys, 0).unwrap();
    assert_eq!(cpu.pc, 0x302);
    assert_eq!(cpu.sp, 0);
}

#[test]
fn return_on_empty_stack_is_underflow() {
    let (mut cpu, mut fb, keys) = machine(&[0x00, 0xEE]);
    assert_eq!(step(&mut cpu, &mut fb, &keys, 0), Err(ExecError::StackUnderflow));
    assert_eq!(cpu.pc, 0x200);
    assert_eq!(cpu.sp, 0);
}

#[test]
fn seventeenth_call_overflows() {
    // a subroutine at 0x200 that calls itself
    let (mut cpu, mut fb, keys) = machine(&[0x22, 0x00]);
    for depth in 0..16u8 {
        assert_eq!(step(&mut cpu, &mut fb, &keys, 0), Ok(Outcome::Executed));
        assert_eq!(cpu.sp, depth + 1);
    }
    let before = cpu.stack;
    assert_eq!(step(&mut cpu, &mut fb, &keys, 0), Err(ExecError::StackOverflow));
    assert_eq!(cpu.sp, 16);
    assert_eq!(cpu.stack, before);
    assert_eq!(cpu.pc, 0x200);
}

#[test]
fn unknown_opcode_is_reported_and_skipped() {
    let (mut cpu, mut fb, keys) = machine(&[0x01, 0x23]);
    assert_eq!(step(&mut cpu, &mut fb, &keys, 0), Err(ExecError::UnknownOpcode { opcode: 0x0123 }));
    assert_eq!(cpu.pc, 0x202);
}

#[test]
fn jumps() {
    let (mut cpu, mut fb, keys) = machine(&[]);
    exec(&mut cpu, &mut fb, &keys, 0x1ABC).unwrap();
    assert_eq!(cpu.pc, 0xABC);
    cpu.v[0] = 0x10;
    exec(&mut cpu, &mut fb, &keys, 0xB300).unwrap();
    assert_eq!(cpu.pc, 0x310);
    cpu.v[0] = 0xFF;
    exec(&mut cpu, &mut fb, &keys, 0xBFFF).unwrap();
    assert_eq!(cpu.pc, (0xFFF + 0xFF) & 0xFFF);
}

#[test]
fn conditional_skips() {
    let (mut cpu, mut fb, keys) = machine(&[]);
    cpu.v[1] = 0x33;
    cpu.v[2] = 0x33;
    exec(&mut cpu, &mut fb, &keys, 0x3133).unwrap();
    assert_eq!(cpu.pc, 0x204);
    exec(&mut cpu, &mut fb, &keys, 0x4133).unwrap();
    assert_eq!(cpu.pc, 0x206);
    exec(&mut cpu, &mut fb, &keys, 0x5120).unwrap();
    assert_eq!(cpu.pc, 0x20A);
    exec(&mut cpu, &mut fb, &keys, 0x9120).unwrap();
    assert_eq!(cpu.pc, 0x20C);
    exec(&mut cpu, &mut fb, &keys, 0x4134).unwrap();
    assert_eq!(cpu.pc, 0x210);
}

#[test]
fn key_skips() {
    let (mut cpu, mut fb, mut keys) = machine(&[]);
    cpu.v[0] = 0xA;
    exec(&mut cpu, &mut fb, &keys, 0xE09E).unwrap();
    assert_eq!(cpu.pc, 0x202);
    exec(&mut cpu, &mut fb, &keys, 0xE0A1).unwrap();
    assert_eq!(cpu.pc, 0x206);
    keys.set_key(0xA, true);
    exec(&mut cpu, &mut fb, &keys, 0xE09E).unwrap();
    assert_eq!(cpu.pc, 0x20A);
    exec(&mut cpu, &mut fb, &keys, 0xE0A1).unwrap();
    assert_eq!(cpu.pc, 0x20C);
}

#[test]
fn wait_for_key() {
    let (mut cpu, mut fb, mut keys) = machine(&[0xF3, 0x0A]);
    for _ in 0..5 {
        assert_eq!(step(&mut cpu, &mut fb, &keys, 0), Ok(Outcome::WaitingForKey));
        assert_eq!(cpu.pc, 0x200);
        assert_eq!(cpu.v[3], 0);
    }
    keys.set_key(5, true);
    assert_eq!(step(&mut cpu, &mut fb, &keys, 0), Ok(Outcome::Executed));
    assert_eq!(cpu.v[3], 5);
    assert_eq!(cpu.pc, 0x202);
}

#[test]
fn wait_for_key_takes_highest() {
    let (mut cpu, mut fb, mut keys) = machine(&[0xF3, 0x0A]);
    keys.set_key(2, true);
    keys.set_key(9, true);
    step(&mut cpu, &mut fb, &keys, 0).unwrap();
    assert_eq!(cpu.v[3], 9);
}

#[test]
fn draw_and_collide() {
    let (mut cpu, mut fb, keys) = machine(&[]);
    cpu.memory[0x300] = 0xFF;
    cpu.i = 0x300;
    exec(&mut cpu, &mut fb, &keys, 0xD011).unwrap();
    for x in 0..64 {
        for y in 0..32 {
            assert_eq!(fb.get(x, y), y == 0 && x < 8);
        }
    }
    assert_eq!(cpu.v[15], 0);
    exec(&mut cpu, &mut fb, &keys, 0xD011).unwrap();
    for x in 0..64 {
        for y in 0..32 {
            assert!(!fb.get(x, y));
        }
    }
    assert_eq!(cpu.v[15], 1);
}

#[test]
fn draw_wraps_both_edges() {
    let (mut cpu, mut fb, keys) = machine(&[]);
    cpu.memory[0x300] = 0b1000_0001;
    cpu.memory[0x301] = 0b1000_0000;
    cpu.i = 0x300;
    cpu.v[1] = 60;
    cpu.v[2] = 31;
    exec(&mut cpu, &mut fb, &keys, 0xD122).unwrap();
    assert!(fb.get(60, 31));
    assert!(fb.get(3, 31));
    assert!(fb.get(60, 0));
    assert!(!fb.get(3, 0));
    let lit = (0..64).flat_map(|x| (0..32).map(move |y| (x, y))).filter(|&(x, y)| fb.get(x, y)).count();
    assert_eq!(lit, 3);
    assert_eq!(cpu.v[15], 0);
}

#[test]
fn draw_font_glyph() {
    let (mut cpu, mut fb, keys) = machine(&[]);
    cpu.v[0] = 0;
    exec(&mut cpu, &mut fb, &keys, 0xF029).unwrap();
    assert_eq!(cpu.i, 0);
    cpu.v[5] = 0xF;
    exec(&mut cpu, &mut fb, &keys, 0xF529).unwrap();
    assert_eq!(cpu.i, 75);
    cpu.i = 0;
    exec(&mut cpu, &mut fb, &keys, 0xD005).unwrap();
    // glyph 0: F0 90 90 90 F0
    assert!(fb.get(0, 0) && fb.get(3, 0) && !fb.get(4, 0));
    assert!(fb.get(0, 2) && !fb.get(1, 2) && fb.get(3, 2));
}

#[test]
fn clear_screen() {
    let (mut cpu, mut fb, keys) = machine(&[]);
    cpu.i = 0;
    exec(&mut cpu, &mut fb, &keys, 0xD005).unwrap();
    assert!(fb.get(0, 0));
    exec(&mut cpu, &mut fb, &keys, 0x00E0).unwrap();
    for x in 0..64 {
        for y in 0..32 {
            assert!(!fb.get(x, y));
        }
    }
    assert_eq!(cpu.pc, 0x204);
}

#[test]
fn random_byte_is_masked() {
    let (mut cpu, mut fb, keys) = machine(&[]);
    execute(&mut cpu, &mut fb, &keys, [0xC2, 0x0F], 0xAB).unwrap();
    assert_eq!(cpu.v[2], 0x0B);
    execute(&mut cpu, &mut fb, &keys, [0xC2, 0xF0], 0xAB).unwrap();
    assert_eq!(cpu.v[2], 0xA0);
}

#[test]
fn run_draws_a_random_byte() {
    let rom: Vec<u8> = [0xC0u8, 0x0F].repeat(64);
    let (mut cpu, mut fb, keys) = machine(&rom);
    let mut seen = [false; 16];
    for _ in 0..64 {
        assert_eq!(run(&mut cpu, &mut fb, &keys), Ok(Outcome::Executed));
        assert!(cpu.v[0] <= 0x0F);
        seen[cpu.v[0] as usize] = true;
    }
    assert!(seen.iter().filter(|s| **s).count() > 1);
    assert_eq!(cpu.pc, 0x200 + 128);
}

#[test]
fn timer_and_index() {
    let (mut cpu, mut fb, keys) = machine(&[]);
    cpu.v[6] = 3;
    exec(&mut cpu, &mut fb, &keys, 0xF615).unwrap();
    assert_eq!(cpu.dt, 3);
    cpu.decrement_timer();
    cpu.decrement_timer();
    exec(&mut cpu, &mut fb, &keys, 0xF707).unwrap();
    assert_eq!(cpu.v[7], 1);
    cpu.decrement_timer();
    cpu.decrement_timer();
    assert_eq!(cpu.dt, 0);
    exec(&mut cpu, &mut fb, &keys, 0xA123).unwrap();
    assert_eq!(cpu.i, 0x123);
    exec(&mut cpu, &mut fb, &keys, 0xF61E).unwrap();
    assert_eq!(cpu.i, 0x126);
    cpu.i = 0xFFFF;
    exec(&mut cpu, &mut fb, &keys, 0xF61E).unwrap();
    assert_eq!(cpu.i, 2);
    let pc = cpu.pc;
    exec(&mut cpu, &mut fb, &keys, 0xF618).unwrap();
    assert_eq!(cpu.pc, pc + 2);
}

#[test]
fn decimal_digits() {
    let (mut cpu, mut fb, keys) = machine(&[]);
    cpu.v[1] = 254;
    cpu.i = 0x400;
    exec(&mut cpu, &mut fb, &keys, 0xF133).unwrap();
    assert_eq!(&cpu.memory[0x400..0x403], &[2, 5, 4]);
    cpu.i = 0xFFF;
    cpu.v[1] = 7;
    exec(&mut cpu, &mut fb, &keys, 0xF133).unwrap();
    assert_eq!(cpu.memory[0xFFF], 0);
    assert_eq!(cpu.memory[0], 0);
    assert_eq!(cpu.memory[1], 7);
}

#[test]
fn store_and_load_registers_inclusive() {
    let (mut cpu, mut fb, keys) = machine(&[]);
    for k in 0..16 {
        cpu.v[k] = (k as u8) * 3 + 1;
    }
    cpu.i = 0x500;
    exec(&mut cpu, &mut fb, &keys, 0xF355).unwrap();
    assert_eq!(&cpu.memory[0x500..0x505], &[1, 4, 7, 10, 0]);
    assert_eq!(cpu.i, 0x500);
    cpu.v = [0; 16];
    exec(&mut cpu, &mut fb, &keys, 0xF265).unwrap();
    assert_eq!(&cpu.v[0..4], &[1, 4, 7, 0]);
}

#[test]
fn store_wraps_at_end_of_memory() {
    let (mut cpu, mut fb, keys) = machine(&[]);
    cpu.v[0] = 0xAA;
    cpu.v[1] = 0xBB;
    cpu.i = 0xFFF;
    exec(&mut cpu, &mut fb, &keys, 0xF155).unwrap();
    assert_eq!(cpu.memory[0xFFF], 0xAA);
    assert_eq!(cpu.memory[0], 0xBB);
}

#[test]
fn keypad_queries() {
    let mut keys = Keypad::new();
    assert!(!input_key_seek(&keys, 3));
    keys.set_key(3, true);
    assert!(input_key_seek(&keys, 3));
    assert!(!input_key_seek(&keys, 0x13));
    keys.set_key(3, false);
    assert!(!input_key_seek(&keys, 3));
}

#[test]
fn physical_layout() {
    assert_eq!(physical_key_index('Q'), Some(0x1));
    assert_eq!(physical_key_index('R'), Some(0xC));
    assert_eq!(physical_key_index('I'), Some(0x0));
    assert_eq!(physical_key_index('P'), Some(0xF));
    assert_eq!(physical_key_index('M'), None);
}
