use chip8::cpu::{Cpu, StepEffect};
use chip8::error::Chip8Error;
use chip8::instruction::{Instruction, Op};
use chip8::machine::Chip8;
use chip8::memory::Memory;
use chip8::stack::Stack;

fn cpu_with(rom: &[u8]) -> Cpu {
    let mut cpu = Cpu::new();
    cpu.load_game(rom.to_vec()).unwrap();
    cpu
}

fn run(cpu: &mut Cpu, steps: usize) {
    for _ in 0..steps {
        cpu.emulate_cycle().unwrap();
    }
}

#[test]
fn test_get_bcd() {
    assert_eq!(Chip8::get_bcd(128), [1, 2, 8]);
    assert_eq!(Chip8::get_bcd(28), [0, 2, 8]);
    assert_eq!(Chip8::get_bcd(8), [0, 0, 8]);
}

#[test]
fn bcd_of_extremes() {
    assert_eq!(Chip8::get_bcd(0), [0, 0, 0]);
    assert_eq!(Chip8::get_bcd(255), [2, 5, 5]);
}

#[test]
fn stack_pops_in_reverse_order() {
    let mut stack = Stack::new();
    let addresses: Vec<u16> = (0..16).map(|i| 0x200 + 2 * i).collect();
    for &a in &addresses {
        assert_eq!(stack.push(a), Ok(()));
    }
    assert_eq!(stack.len(), 16);
    for &a in addresses.iter().rev() {
        assert_eq!(stack.pop(), Ok(a));
    }
    assert_eq!(stack.len(), 0);
}

#[test]
fn seventeenth_push_overflows() {
    let mut stack = Stack::new();
    for i in 0..16u16 {
        assert_eq!(stack.push(0x300 + i), Ok(()));
    }
    assert_eq!(stack.push(0x999), Err(Chip8Error::StackOverflow));
    assert_eq!(stack.len(), 16);
    for i in (0..16u16).rev() {
        assert_eq!(stack.pop(), Ok(0x300 + i));
    }
}

#[test]
fn pop_of_empty_stack_underflows() {
    let mut stack = Stack::new();
    assert_eq!(stack.pop(), Err(Chip8Error::StackUnderflow));
    assert_eq!(stack.len(), 0);
}

#[test]
fn jump_sets_pc_to_low_twelve_bits() {
    let mut cpu = cpu_with(&[0x1A, 0xBC]);
    assert_eq!(cpu.emulate_cycle(), Ok(StepEffect::Executed));
    assert_eq!(cpu.program_counter(), 0xABC);
}

#[test]
fn skip_if_equal_advances_by_four() {
    let mut cpu = cpu_with(&[0x63, 0x42, 0x33, 0x42]);
    run(&mut cpu, 1);
    assert_eq!(cpu.program_counter(), 0x202);
    run(&mut cpu, 1);
    assert_eq!(cpu.program_counter(), 0x206);
}

#[test]
fn skip_if_equal_not_taken_advances_by_two() {
    let mut cpu = cpu_with(&[0x63, 0x42, 0x33, 0x43]);
    run(&mut cpu, 2);
    assert_eq!(cpu.program_counter(), 0x204);
}

#[test]
fn skip_variants() {
    // V0 = 1, V1 = 1; 4012 not taken, 5010 taken, 9010 not taken.
    let mut cpu = cpu_with(&[0x60, 0x01, 0x61, 0x01, 0x40, 0x01, 0x50, 0x10, 0x00, 0x00, 0x90, 0x10]);
    run(&mut cpu, 3);
    assert_eq!(cpu.program_counter(), 0x206);
    run(&mut cpu, 1);
    assert_eq!(cpu.program_counter(), 0x20A);
    run(&mut cpu, 1);
    assert_eq!(cpu.program_counter(), 0x20C);
}

#[test]
fn font_glyph_addresses() {
    assert_eq!(Memory::get_char_position(0), 0x050);
    assert_eq!(Memory::get_char_position(15), 0x09B);
    let memory = Memory::new();
    let zero = [0xF0, 0x90, 0x90, 0x90, 0xF0];
    let f = [0xF0, 0x80, 0xF0, 0x80, 0x80];
    for i in 0..5u16 {
        assert_eq!(memory.get(0x050 + i), zero[i as usize]);
        assert_eq!(memory.get(0x09B + i), f[i as usize]);
    }
    assert_eq!(memory.get(0x04F), 0);
    assert_eq!(memory.get(0x0A0), 0);
}

#[test]
fn memory_put_and_get() {
    let mut memory = Memory::new();
    memory.put(0xFFF, 0xAB);
    assert_eq!(memory.get(0xFFF), 0xAB);
    assert_eq!(memory.get(0xFFE), 0);
    assert_eq!(memory.get_display_memory(), vec![0u8; 2048]);
}

#[test]
fn rom_load_and_first_fetch() {
    let cpu = cpu_with(&[0x12, 0x34]);
    assert_eq!(cpu.read_memory(0x200), Ok(0x12));
    assert_eq!(cpu.read_memory(0x201), Ok(0x34));
    assert_eq!(cpu.read_opcode(), Ok(0x1234));
    assert_eq!(cpu.read_memory(0x1000), Err(Chip8Error::AddressOutOfRange(0x1000)));
}

#[test]
fn rom_size_limit() {
    let mut cpu = Cpu::new();
    assert_eq!(cpu.load_game(vec![0u8; 3585]), Err(Chip8Error::RomTooLarge(3585)));
    assert_eq!(cpu.load_game(vec![7u8; 3584]), Ok(()));
    assert_eq!(cpu.read_memory(0xFFF), Ok(7));
    let mut memory = Memory::new();
    assert_eq!(memory.load_game(vec![1u8; 4000]), Err(Chip8Error::RomTooLarge(4000)));
    assert_eq!(memory.get(0x200), 0);
}

#[test]
fn decode_twice_gives_same_fields() {
    let a = Instruction::decode(0xD123);
    let b = Instruction::decode(0xD123);
    assert_eq!(a, b);
    assert_eq!((a.kind, a.x, a.y, a.n, a.nn, a.nnn), (0xD, 1, 2, 3, 0x23, 0x123));
    assert_eq!(a.to_op(), Some(Op::Draw(1, 2, 3)));
    assert_eq!(Instruction::decode(0x5121).to_op(), None);
    assert_eq!(Instruction::decode(0xF165).to_op(), Some(Op::LoadRegs(1)));
}

#[test]
fn add_immediate_wraps_without_flag() {
    let mut cpu = cpu_with(&[0x60, 0xFF, 0x6F, 0x05, 0x70, 0x02]);
    run(&mut cpu, 3);
    assert_eq!(cpu.register(0), 0x01);
    assert_eq!(cpu.register(15), 0x05);
}

#[test]
fn add_registers_sets_carry() {
    let mut cpu = cpu_with(&[0x60, 0xFF, 0x61, 0x02, 0x80, 0x14, 0x62, 0x10, 0x63, 0x20, 0x82, 0x34]);
    run(&mut cpu, 3);
    assert_eq!(cpu.register(0), 0x01);
    assert_eq!(cpu.register(15), 1);
    run(&mut cpu, 3);
    assert_eq!(cpu.register(2), 0x30);
    assert_eq!(cpu.register(15), 0);
}

#[test]
fn subtract_registers_sets_no_borrow() {
    let mut cpu = cpu_with(&[0x60, 0x05, 0x61, 0x03, 0x80, 0x15, 0x62, 0x03, 0x63, 0x05, 0x82, 0x35]);
    run(&mut cpu, 3);
    assert_eq!(cpu.register(0), 2);
    assert_eq!(cpu.register(15), 1);
    run(&mut cpu, 3);
    assert_eq!(cpu.register(2), 254);
    assert_eq!(cpu.register(15), 0);
}

#[test]
fn reverse_subtract_and_shifts() {
    // V0 = 3, V1 = 5; 8017: V0 = 5 - 3 = 2, VF = 1.
    let mut cpu = cpu_with(&[0x60, 0x03, 0x61, 0x05, 0x80, 0x17, 0x62, 0x81, 0x82, 0x06, 0x63, 0x81, 0x83, 0x0E]);
    run(&mut cpu, 3);
    assert_eq!(cpu.register(0), 2);
    assert_eq!(cpu.register(15), 1);
    run(&mut cpu, 2);
    assert_eq!(cpu.register(2), 0x40);
    assert_eq!(cpu.register(15), 1);
    run(&mut cpu, 2);
    assert_eq!(cpu.register(3), 0x02);
    assert_eq!(cpu.register(15), 1);
}

#[test]
fn flag_register_as_destination_keeps_flag() {
    // VF = 0xFF, V1 = 2; 8F14: sum 0x101 overflows, so VF ends as the carry 1.
    let mut cpu = cpu_with(&[0x6F, 0xFF, 0x61, 0x02, 0x8F, 0x14]);
    run(&mut cpu, 3);
    assert_eq!(cpu.register(15), 1);
}

#[test]
fn logic_operations() {
    let mut cpu = cpu_with(&[
        0x60, 0x0C, 0x61, 0x0A, 0x82, 0x00, 0x82, 0x11, 0x83, 0x00, 0x83, 0x12, 0x84, 0x00, 0x84,
        0x13,
    ]);
    run(&mut cpu, 8);
    assert_eq!(cpu.register(2), 0x0E);
    assert_eq!(cpu.register(3), 0x08);
    assert_eq!(cpu.register(4), 0x06);
}

#[test]
fn untouched_register_is_kept() {
    let mut cpu = cpu_with(&[0x65, 0x77, 0x60, 0x10, 0x61, 0x20, 0x80, 0x14, 0x80, 0x15, 0xA3, 0x00]);
    run(&mut cpu, 6);
    assert_eq!(cpu.register(5), 0x77);
}

#[test]
fn unknown_opcode_changes_nothing() {
    let mut cpu = cpu_with(&[0x51, 0x21]);
    assert_eq!(cpu.emulate_cycle(), Err(Chip8Error::UnknownOpcode(0x5121)));
    assert_eq!(cpu.program_counter(), 0x200);
}

#[test]
fn call_and_return() {
    // 200: call 206; 202: jump 202; 206: return.
    let mut cpu = cpu_with(&[0x22, 0x06, 0x12, 0x02, 0x00, 0x00, 0x00, 0xEE]);
    run(&mut cpu, 1);
    assert_eq!(cpu.program_counter(), 0x206);
    run(&mut cpu, 1);
    assert_eq!(cpu.program_counter(), 0x202);
}

#[test]
fn return_without_call_underflows() {
    let mut cpu = cpu_with(&[0x00, 0xEE]);
    assert_eq!(cpu.emulate_cycle(), Err(Chip8Error::StackUnderflow));
    assert_eq!(cpu.program_counter(), 0x200);
}

#[test]
fn runaway_recursion_overflows() {
    let mut cpu = cpu_with(&[0x22, 0x00]);
    run(&mut cpu, 16);
    assert_eq!(cpu.emulate_cycle(), Err(Chip8Error::StackOverflow));
    assert_eq!(cpu.program_counter(), 0x200);
}

#[test]
fn jump_with_offset() {
    let mut cpu = cpu_with(&[0x60, 0x10, 0xB3, 0x00]);
    run(&mut cpu, 2);
    assert_eq!(cpu.program_counter(), 0x310);
}

#[test]
fn fetch_past_memory_end_fails() {
    let mut cpu = cpu_with(&[0x1F, 0xFF]);
    run(&mut cpu, 1);
    assert_eq!(cpu.emulate_cycle(), Err(Chip8Error::AddressOutOfRange(0xFFF)));
}

#[test]
fn draw_glyph_and_collision() {
    // I = glyph 0; V0 = V1 = 0; draw 5 rows twice.
    let mut machine = Chip8::new();
    machine.load_game(vec![0xA0, 0x50, 0xD0, 0x15, 0xD0, 0x15, 0x00, 0xE0]).unwrap();
    assert_eq!(machine.emulate_cycle(), Ok(StepEffect::Executed));
    assert_eq!(machine.take_frame(), None);
    assert_eq!(machine.emulate_cycle(), Ok(StepEffect::Drawn));
    assert_eq!(machine.cpu().register(15), 0);
    let frame = machine.take_frame().unwrap();
    assert_eq!(&frame[0..8], &[1, 1, 1, 1, 0, 0, 0, 0]);
    assert_eq!(&frame[64..68], &[1, 0, 0, 1]);
    assert_eq!(frame.iter().filter(|&&p| p == 1).count(), 14);
    assert_eq!(machine.take_frame(), None);
    assert_eq!(machine.emulate_cycle(), Ok(StepEffect::Drawn));
    assert_eq!(machine.cpu().register(15), 1);
    assert_eq!(machine.take_frame().unwrap(), vec![0u8; 2048]);
    assert_eq!(machine.emulate_cycle(), Ok(StepEffect::Cleared));
    assert_eq!(machine.take_frame().unwrap(), vec![0u8; 2048]);
}

#[test]
fn draw_wraps_round_the_edges() {
    // V0 = 62, V1 = 31: glyph 1's top row 0x20 sets column 2 of the sprite,
    // which lands at x = 0 on row 31.
    let mut cpu = cpu_with(&[0x60, 0x3E, 0x61, 0x1F, 0xA0, 0x55, 0xD0, 0x11]);
    run(&mut cpu, 4);
    let screen = cpu.display_memory();
    assert_eq!(screen[31 * 64], 1);
    assert_eq!(screen.iter().filter(|&&p| p == 1).count(), 1);
}

#[test]
fn store_bcd_writes_three_digits() {
    let mut cpu = cpu_with(&[0x60, 0x80, 0xA3, 0x00, 0xF0, 0x33]);
    run(&mut cpu, 3);
    assert_eq!(cpu.read_memory(0x300), Ok(1));
    assert_eq!(cpu.read_memory(0x301), Ok(2));
    assert_eq!(cpu.read_memory(0x302), Ok(8));
}

#[test]
fn store_past_memory_end_fails() {
    let mut cpu = cpu_with(&[0xAF, 0xFE, 0xF0, 0x33]);
    run(&mut cpu, 1);
    assert_eq!(cpu.emulate_cycle(), Err(Chip8Error::AddressOutOfRange(0xFFE)));
    assert_eq!(cpu.read_memory(0xFFE), Ok(0));
}

#[test]
fn store_and_load_registers() {
    // V0..V2 = 1, 2, 3; store at 0x300; clear; load back V0..V1.
    let mut cpu = cpu_with(&[
        0x60, 0x01, 0x61, 0x02, 0x62, 0x03, 0xA3, 0x00, 0xF2, 0x55, 0x60, 0x00, 0x61, 0x00, 0x62,
        0x00, 0xF1, 0x65,
    ]);
    run(&mut cpu, 5);
    assert_eq!(cpu.read_memory(0x300), Ok(1));
    assert_eq!(cpu.read_memory(0x302), Ok(3));
    assert_eq!(cpu.read_memory(0x303), Ok(0));
    run(&mut cpu, 4);
    assert_eq!(cpu.register(0), 1);
    assert_eq!(cpu.register(1), 2);
    assert_eq!(cpu.register(2), 0);
}

#[test]
fn index_operations() {
    // V0 = 0x0A; I = 0x100; I += V0; I = glyph of V0 (A).
    let mut cpu = cpu_with(&[0x60, 0x0A, 0xA1, 0x00, 0xF0, 0x1E, 0xF0, 0x29]);
    run(&mut cpu, 3);
    assert_eq!(cpu.index_register(), 0x10A);
    run(&mut cpu, 1);
    assert_eq!(cpu.index_register(), 0x050 + 50);
}

#[test]
fn timers_count_down_to_zero() {
    let mut cpu = cpu_with(&[0x60, 0x02, 0xF0, 0x15, 0xF0, 0x18, 0xF1, 0x07]);
    run(&mut cpu, 4);
    assert_eq!(cpu.register(1), 2);
    cpu.tick_timers();
    assert_eq!(cpu.delay_timer(), 1);
    cpu.tick_timers();
    cpu.tick_timers();
    assert_eq!(cpu.delay_timer(), 0);
    assert_eq!(cpu.sound_timer(), 0);
}

#[test]
fn wait_for_key() {
    let mut cpu = cpu_with(&[0xF3, 0x0A, 0x12, 0x02]);
    assert_eq!(cpu.emulate_cycle(), Ok(StepEffect::Waiting));
    assert!(cpu.is_waiting_for_key());
    assert_eq!(cpu.emulate_cycle(), Ok(StepEffect::Waiting));
    assert_eq!(cpu.program_counter(), 0x202);
    cpu.set_key(7, false);
    assert!(cpu.is_waiting_for_key());
    cpu.set_key(7, true);
    assert!(!cpu.is_waiting_for_key());
    assert_eq!(cpu.register(3), 7);
}

#[test]
fn skip_on_key_state() {
    // V0 = 4; skip if key 4 down; then skip if key 4 up.
    let mut cpu = cpu_with(&[0x60, 0x04, 0xE0, 0x9E, 0x00, 0x00, 0xE0, 0xA1]);
    cpu.set_key(4, true);
    run(&mut cpu, 2);
    assert_eq!(cpu.program_counter(), 0x206);
    run(&mut cpu, 1);
    assert_eq!(cpu.program_counter(), 0x208);
}

#[test]
fn random_byte_is_masked() {
    let mut cpu = cpu_with(&[0xC0, 0x0F, 0xC1, 0x00]);
    cpu.seed_random(12345);
    run(&mut cpu, 2);
    assert!(cpu.register(0) <= 0x0F);
    assert_eq!(cpu.register(1), 0);
}

#[test]
fn machine_ticks_and_keys() {
    let mut machine = Chip8::new();
    machine.load_game(vec![0x60, 0x03, 0xF0, 0x15, 0xF1, 0x0A]).unwrap();
    for _ in 0..3 {
        machine.emulate_cycle().unwrap();
    }
    machine.tick_timers();
    assert_eq!(machine.cpu().delay_timer(), 2);
    machine.set_key(9, true);
    assert_eq!(machine.cpu().register(1), 9);
}
