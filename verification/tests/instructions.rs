use chip8::cycle::execute;
use chip8::machine::{Fault, Machine};
use chip8::opcodes::Operation;
use chip8::ops;

fn machine_with(program: &[u8]) -> Machine {
    Machine::new(program)
}

#[test]
fn new_loads_font_and_program() {
    let program = [0xA3u8, 0x33, 0x12, 0x00, 0x77];
    let machine = Machine::new(&program);
    assert_eq!(&machine.memory[0..5], &[0xF0, 0x90, 0x90, 0x90, 0xF0]);
    assert_eq!(&machine.memory[5..10], &[0x20, 0x60, 0x20, 0x20, 0x70]);
    assert_eq!(&machine.memory[75..80], &[0xF0, 0x80, 0xF0, 0x80, 0x80]);
    for addr in 80..0x200 {
        assert_eq!(machine.memory[addr], 0);
    }
    assert_eq!(&machine.memory[0x200..0x205], &program);
    for addr in 0x205..4096 {
        assert_eq!(machine.memory[addr], 0);
    }
    assert_eq!(machine.pc, 0x200);
    assert_eq!(machine.sp, 0);
    assert_eq!(machine.index, 0);
    assert_eq!(machine.opcode, 0);
    assert_eq!(machine.delay_timer, 0);
    assert_eq!(machine.sound_timer, 0);
    assert_eq!(machine.register, [0u8; 16]);
    assert_eq!(machine.stack, [0u16; 16]);
    assert_eq!(machine.key, [false; 16]);
    assert!(!machine.stop);
    assert_eq!(machine.fault, None);
    assert_eq!(machine.program_size, 5);
    for row in machine.video_mem.iter() {
        assert_eq!(*row, [0u8; 64]);
    }
}

#[test]
fn new_takes_the_largest_program() {
    let program = vec![0xABu8; 3584];
    let machine = Machine::new(&program);
    assert_eq!(machine.memory[0x200], 0xAB);
    assert_eq!(machine.memory[4095], 0xAB);
    assert_eq!(machine.memory[0x1FF], 0);
    assert_eq!(machine.program_size, 3584);
}

#[test]
fn new_takes_the_empty_program() {
    let machine = Machine::new(&[]);
    assert_eq!(machine.program_size, 0);
    assert_eq!(machine.memory[0x200], 0);
    assert_eq!(machine.memory[79], 0x80);
}

#[test]
fn set_index_end_to_end() {
    let mut machine = machine_with(&[0xA3, 0x33]);
    let halted = machine.cycle();
    assert!(!halted);
    assert_eq!(machine.index, 0x333);
    assert_eq!(machine.pc, 0x202);
    assert_eq!(machine.opcode, 0xA333);
}

#[test]
fn set_register_end_to_end() {
    let mut machine = machine_with(&[0x64, 0x33]);
    machine.register[4] = 10;
    assert!(!machine.cycle());
    assert_eq!(machine.register[4], 0x33);
    assert_eq!(machine.pc, 0x202);
}

#[test]
fn xor_end_to_end() {
    let mut machine = machine_with(&[0x81, 0x23]);
    machine.register[1] = 23;
    machine.register[2] = 56;
    assert!(!machine.cycle());
    assert_eq!(machine.register[1], 23 ^ 56);
    assert_eq!(machine.register[2], 56);
}

#[test]
fn add_immediate_wraps_and_leaves_the_flag() {
    let mut machine = machine_with(&[0x73, 0x10, 0x73, 0xFF]);
    machine.register[3] = 0xF8;
    machine.register[15] = 7;
    machine.cycle();
    assert_eq!(machine.register[3], 0x08);
    assert_eq!(machine.register[15], 7);
    machine.cycle();
    assert_eq!(machine.register[3], 0x07);
    assert_eq!(machine.register[15], 7);
}

#[test]
fn register_add_sets_the_flag_on_carry() {
    let mut machine = machine_with(&[0x81, 0x24]);
    machine.register[1] = 200;
    machine.register[2] = 100;
    machine.cycle();
    assert_eq!(machine.register[1], 44);
    assert_eq!(machine.register[15], 1);
}

#[test]
fn register_add_clears_the_flag_without_carry() {
    let mut machine = machine_with(&[0x81, 0x24]);
    machine.register[1] = 10;
    machine.register[2] = 20;
    machine.register[15] = 1;
    machine.cycle();
    assert_eq!(machine.register[1], 30);
    assert_eq!(machine.register[15], 0);
}

#[test]
fn register_add_at_the_boundary() {
    let mut machine = machine_with(&[0x81, 0x24, 0x83, 0x44]);
    machine.register[1] = 255;
    machine.register[2] = 0;
    machine.register[3] = 255;
    machine.register[4] = 1;
    machine.cycle();
    assert_eq!(machine.register[1], 255);
    assert_eq!(machine.register[15], 0);
    machine.cycle();
    assert_eq!(machine.register[3], 0);
    assert_eq!(machine.register[15], 1);
}

#[test]
fn register_add_for_every_pair() {
    for a in 0..=255u16 {
        for b in 0..=255u16 {
            let mut machine = machine_with(&[]);
            machine.register[0] = a as u8;
            machine.register[1] = b as u8;
            ops::add(&mut machine, 0, 1);
            assert_eq!(machine.register[0] as u16, (a + b) % 256);
            assert_eq!(machine.register[15], if a + b > 255 { 1 } else { 0 });
            assert_eq!(machine.register[1], b as u8);
        }
    }
}

#[test]
fn register_add_into_the_flag_register_keeps_the_carry() {
    let mut machine = machine_with(&[0x8F, 0x14]);
    machine.register[15] = 200;
    machine.register[1] = 100;
    machine.cycle();
    assert_eq!(machine.register[15], 1);
}

#[test]
fn register_add_of_a_register_to_itself() {
    let mut machine = machine_with(&[0x82, 0x24]);
    machine.register[2] = 0x90;
    machine.cycle();
    assert_eq!(machine.register[2], 0x20);
    assert_eq!(machine.register[15], 1);
}

#[test]
fn copy_or_and() {
    let mut machine = machine_with(&[0x81, 0x20, 0x83, 0x41, 0x85, 0x62]);
    machine.register[2] = 0x5A;
    machine.register[3] = 0xF0;
    machine.register[4] = 0x0C;
    machine.register[5] = 0x3C;
    machine.register[6] = 0x0F;
    machine.cycle();
    assert_eq!(machine.register[1], 0x5A);
    machine.cycle();
    assert_eq!(machine.register[3], 0xFC);
    machine.cycle();
    assert_eq!(machine.register[5], 0x0C);
    assert_eq!(machine.register[15], 0);
}

#[test]
fn reverse_subtract_without_borrow() {
    let mut machine = machine_with(&[0x81, 0x27]);
    machine.register[1] = 5;
    machine.register[2] = 12;
    machine.register[15] = 9;
    machine.cycle();
    assert_eq!(machine.register[1], 7);
    assert_eq!(machine.register[15], 0);
}

#[test]
fn reverse_subtract_with_borrow() {
    let mut machine = machine_with(&[0x81, 0x27]);
    machine.register[1] = 12;
    machine.register[2] = 5;
    machine.cycle();
    assert_eq!(machine.register[1], 249);
    assert_eq!(machine.register[15], 1);
}

#[test]
fn reverse_subtract_of_equal_values() {
    let mut machine = machine_with(&[0x81, 0x27]);
    machine.register[1] = 77;
    machine.register[2] = 77;
    machine.register[15] = 1;
    machine.cycle();
    assert_eq!(machine.register[1], 0);
    assert_eq!(machine.register[15], 0);
}

#[test]
fn shift_right_moves_the_low_bit_to_the_flag() {
    let mut machine = machine_with(&[0x81, 0x26, 0x82, 0x26]);
    machine.register[1] = 0b1000_0101;
    machine.register[2] = 0b0000_0110;
    machine.cycle();
    assert_eq!(machine.register[1], 0b0100_0010);
    assert_eq!(machine.register[15], 1);
    machine.cycle();
    assert_eq!(machine.register[2], 0b0000_0011);
    assert_eq!(machine.register[15], 0);
}

#[test]
fn shift_left_moves_the_high_bit_to_the_flag() {
    let mut machine = machine_with(&[0x81, 0x2E, 0x82, 0x2E]);
    machine.register[1] = 0b1000_0101;
    machine.register[2] = 0b0100_0001;
    machine.cycle();
    assert_eq!(machine.register[1], 0b0000_1010);
    assert_eq!(machine.register[15], 1);
    machine.cycle();
    assert_eq!(machine.register[2], 0b1000_0010);
    assert_eq!(machine.register[15], 0);
}

#[test]
fn shift_of_the_flag_register_shifts_the_flag() {
    let mut machine = machine_with(&[0x8F, 0x06]);
    machine.register[15] = 0b0000_0111;
    machine.cycle();
    assert_eq!(machine.register[15], 0);
    let mut machine = machine_with(&[0x8F, 0x0E]);
    machine.register[15] = 0b1000_0000;
    machine.cycle();
    assert_eq!(machine.register[15], 2);
}

#[test]
fn jump_lands_on_its_target() {
    let mut machine = machine_with(&[0x13, 0x45]);
    assert!(!machine.cycle());
    assert_eq!(machine.pc, 0x345);
}

#[test]
fn jump_to_the_lowest_addresses() {
    let mut machine = machine_with(&[0x10, 0x00]);
    machine.cycle();
    assert_eq!(machine.pc, 0);
    let mut machine = machine_with(&[0x10, 0x01]);
    machine.cycle();
    assert_eq!(machine.pc, 1);
    let mut machine = machine_with(&[0x1F, 0xFF]);
    machine.cycle();
    assert_eq!(machine.pc, 0xFFF);
}

#[test]
fn goto_alone_compensates_the_advance() {
    let mut machine = machine_with(&[]);
    machine.opcode = 0x1345;
    ops::goto(&mut machine);
    assert_eq!(machine.pc, 0x343);
    machine.opcode = 0x1000;
    ops::goto(&mut machine);
    assert_eq!(machine.pc, 0xFFFE);
}

#[test]
fn call_pushes_the_program_counter() {
    let mut machine = machine_with(&[0x23, 0x00]);
    assert!(!machine.cycle());
    assert_eq!(machine.sp, 1);
    assert_eq!(machine.stack[0], 0x200);
    assert_eq!(machine.pc, 0x300);
}

#[test]
fn call_then_return_restores_the_stack_pointer() {
    let mut machine = machine_with(&[0x22, 0x04, 0x00, 0x00, 0x00, 0xEE]);
    machine.cycle();
    assert_eq!(machine.sp, 1);
    assert_eq!(machine.pc, 0x204);
    assert!(!machine.cycle());
    assert_eq!(machine.sp, 0);
    assert_eq!(machine.pc, 0x200);
    assert_eq!(machine.fault, None);
}

#[test]
fn call_on_a_full_stack_halts() {
    let mut machine = machine_with(&[0x22, 0x00]);
    for depth in 0..16u8 {
        assert!(!machine.cycle());
        assert_eq!(machine.sp, depth + 1);
        assert_eq!(machine.pc, 0x200);
    }
    let stack = machine.stack;
    assert!(machine.cycle());
    assert!(machine.stop);
    assert_eq!(machine.fault, Some(Fault::StackOverflow));
    assert_eq!(machine.sp, 16);
    assert_eq!(machine.stack, stack);
    assert_eq!(machine.pc, 0x202);
}

#[test]
fn return_on_an_empty_stack_halts() {
    let mut machine = machine_with(&[0x00, 0xEE]);
    assert!(machine.cycle());
    assert_eq!(machine.fault, Some(Fault::StackUnderflow));
    assert_eq!(machine.sp, 0);
    assert_eq!(machine.pc, 0x202);
}

#[test]
fn return_with_a_stack_pointer_beyond_the_stack_halts() {
    let mut machine = machine_with(&[0x00, 0xEE]);
    machine.sp = 17;
    assert!(machine.cycle());
    assert_eq!(machine.fault, Some(Fault::StackOverflow));
    assert_eq!(machine.sp, 17);
}

#[test]
fn skip_if_equal_to_immediate() {
    let mut machine = machine_with(&[0x31, 0x42]);
    machine.register[1] = 0x42;
    machine.cycle();
    assert_eq!(machine.pc, 0x204);
    let mut machine = machine_with(&[0x31, 0x42]);
    machine.register[1] = 0x43;
    machine.cycle();
    assert_eq!(machine.pc, 0x202);
}

#[test]
fn skip_if_not_equal_to_immediate() {
    let mut machine = machine_with(&[0x41, 0x42]);
    machine.register[1] = 0x42;
    machine.cycle();
    assert_eq!(machine.pc, 0x202);
    let mut machine = machine_with(&[0x41, 0x42]);
    machine.register[1] = 0x43;
    machine.cycle();
    assert_eq!(machine.pc, 0x204);
}

#[test]
fn skip_if_registers_equal() {
    let mut machine = machine_with(&[0x51, 0x20]);
    machine.register[1] = 9;
    machine.register[2] = 9;
    machine.cycle();
    assert_eq!(machine.pc, 0x204);
    let mut machine = machine_with(&[0x51, 0x20]);
    machine.register[1] = 9;
    machine.register[2] = 8;
    machine.cycle();
    assert_eq!(machine.pc, 0x202);
}

#[test]
fn skip_if_registers_differ() {
    let mut machine = machine_with(&[0x91, 0x20]);
    machine.register[1] = 9;
    machine.register[2] = 9;
    machine.cycle();
    assert_eq!(machine.pc, 0x202);
    let mut machine = machine_with(&[0x91, 0x20]);
    machine.register[1] = 9;
    machine.register[2] = 8;
    machine.cycle();
    assert_eq!(machine.pc, 0x204);
}

#[test]
fn add_to_index() {
    let mut machine = machine_with(&[0xF2, 0x1E]);
    machine.index = 0x0FF0;
    machine.register[2] = 0x20;
    assert!(!machine.cycle());
    assert_eq!(machine.index, 0x1010);
}

#[test]
fn add_to_index_up_to_the_limit() {
    let mut machine = machine_with(&[0xF2, 0x1E]);
    machine.index = 0xFF00;
    machine.register[2] = 0xFF;
    assert!(!machine.cycle());
    assert_eq!(machine.index, 0xFFFF);
}

#[test]
fn add_to_index_beyond_the_limit_halts() {
    let mut machine = machine_with(&[0xF2, 0x1E]);
    machine.index = 0xFF01;
    machine.register[2] = 0xFF;
    assert!(machine.cycle());
    assert_eq!(machine.fault, Some(Fault::IndexOverflow));
    assert_eq!(machine.index, 0xFF01);
}

#[test]
fn font_address_is_five_times_the_digit() {
    for digit in 0..16u8 {
        let mut machine = machine_with(&[0xF3, 0x29]);
        machine.register[3] = digit;
        assert!(!machine.cycle());
        assert_eq!(machine.index, 5 * digit as u16);
    }
    let mut machine = machine_with(&[0xF3, 0x29]);
    machine.register[3] = 255;
    machine.cycle();
    assert_eq!(machine.index, 1275);
}

#[test]
fn register_dump_stores_up_to_x() {
    let mut machine = machine_with(&[0xF3, 0x55]);
    for i in 0..16 {
        machine.register[i] = 0xA0 + i as u8;
    }
    machine.index = 0x400;
    machine.memory[0x404] = 0x77;
    assert!(!machine.cycle());
    assert_eq!(&machine.memory[0x400..0x404], &[0xA0, 0xA1, 0xA2, 0xA3]);
    assert_eq!(machine.memory[0x404], 0x77);
    assert_eq!(machine.memory[0x3FF], 0);
    assert_eq!(machine.index, 0x400);
}

#[test]
fn register_dump_of_one_register() {
    let mut machine = machine_with(&[0xF0, 0x55]);
    machine.register[0] = 0x5C;
    machine.register[1] = 0x6D;
    machine.index = 0xFFF;
    assert!(!machine.cycle());
    assert_eq!(machine.memory[0xFFF], 0x5C);
}

#[test]
fn register_dump_past_memory_halts_and_writes_nothing() {
    let mut machine = machine_with(&[0xFF, 0x55]);
    for i in 0..16 {
        machine.register[i] = 0xA0 + i as u8;
    }
    machine.index = 4090;
    let memory = machine.memory;
    assert!(machine.cycle());
    assert_eq!(machine.fault, Some(Fault::MemoryOutOfBounds));
    assert_eq!(machine.memory, memory);
}

#[test]
fn register_load_reads_up_to_x() {
    let mut machine = machine_with(&[0xF2, 0x65]);
    machine.index = 0x400;
    machine.memory[0x400] = 1;
    machine.memory[0x401] = 2;
    machine.memory[0x402] = 3;
    machine.memory[0x403] = 4;
    machine.register[3] = 0x99;
    assert!(!machine.cycle());
    assert_eq!(&machine.register[0..4], &[1, 2, 3, 0x99]);
    assert_eq!(machine.index, 0x400);
}

#[test]
fn register_load_past_memory_halts_and_reads_nothing() {
    let mut machine = machine_with(&[0xF1, 0x65]);
    machine.index = 0xFFF;
    machine.memory[0xFFF] = 0x12;
    machine.register[0] = 0x34;
    assert!(machine.cycle());
    assert_eq!(machine.fault, Some(Fault::MemoryOutOfBounds));
    assert_eq!(machine.register[0], 0x34);
}

#[test]
fn clear_display_turns_every_cell_off() {
    let mut machine = machine_with(&[0x00, 0xE0]);
    machine.video_mem[3][7] = 0xFF;
    machine.video_mem[31][63] = 0xFF;
    assert!(!machine.cycle());
    for row in machine.video_mem.iter() {
        assert_eq!(*row, [0u8; 64]);
    }
}

#[test]
fn instructions_without_behaviour_halt() {
    let words: [[u8; 2]; 9] = [
        [0x01, 0x23],
        [0x81, 0x25],
        [0xE1, 0x9E],
        [0xE1, 0xA1],
        [0xF1, 0x07],
        [0xF1, 0x0A],
        [0xF1, 0x15],
        [0xF1, 0x18],
        [0xF1, 0x33],
    ];
    for word in words.iter() {
        let mut machine = machine_with(word);
        machine.register[1] = 0x42;
        let before_registers = machine.register;
        let before_memory = machine.memory;
        assert!(machine.cycle());
        assert!(machine.stop);
        assert_eq!(machine.fault, Some(Fault::NotImplemented));
        assert_eq!(machine.register, before_registers);
        assert_eq!(machine.memory, before_memory);
        assert_eq!(machine.pc, 0x202);
    }
}

#[test]
fn unknown_instructions_halt_and_change_nothing() {
    let words: [[u8; 2]; 6] = [
        [0xB1, 0x23],
        [0xC0, 0x00],
        [0x81, 0x28],
        [0xE0, 0x00],
        [0xF0, 0xFF],
        [0x81, 0x2F],
    ];
    for word in words.iter() {
        let mut machine = machine_with(word);
        for i in 0..16 {
            machine.register[i] = 3 * i as u8 + 1;
        }
        machine.video_mem[5][6] = 0xFF;
        machine.index = 0x123;
        let registers = machine.register;
        let memory = machine.memory;
        let video = machine.video_mem;
        let stack = machine.stack;
        assert!(machine.cycle());
        assert!(machine.stop);
        assert_eq!(machine.fault, Some(Fault::UnknownInstruction));
        assert_eq!(machine.register, registers);
        assert_eq!(machine.memory, memory);
        assert_eq!(machine.video_mem, video);
        assert_eq!(machine.stack, stack);
        assert_eq!(machine.sp, 0);
        assert_eq!(machine.index, 0x123);
        assert_eq!(machine.pc, 0x202);
    }
}

#[test]
fn a_halted_machine_executes_nothing() {
    let mut machine = machine_with(&[0xB0, 0x00, 0x61, 0x07]);
    assert!(machine.cycle());
    assert_eq!(machine.pc, 0x202);
    assert!(machine.cycle());
    assert_eq!(machine.pc, 0x202);
    assert_eq!(machine.register[1], 0);
    assert_eq!(machine.opcode, 0xB000);
    assert_eq!(machine.fault, Some(Fault::UnknownInstruction));
}

#[test]
fn a_program_counter_at_the_end_of_memory_halts() {
    let mut machine = machine_with(&[]);
    machine.pc = 4095;
    assert!(machine.cycle());
    assert_eq!(machine.fault, Some(Fault::FetchOutOfBounds));
    assert_eq!(machine.pc, 4095);
    assert_eq!(machine.opcode, 0);
}

#[test]
fn the_last_instruction_of_memory_is_fetched() {
    let mut machine = machine_with(&[]);
    machine.pc = 4094;
    machine.memory[4094] = 0x65;
    machine.memory[4095] = 0x11;
    assert!(!machine.cycle());
    assert_eq!(machine.register[5], 0x11);
    assert_eq!(machine.pc, 4096);
    assert!(machine.cycle());
    assert_eq!(machine.fault, Some(Fault::FetchOutOfBounds));
}

#[test]
fn execute_runs_the_behaviour_without_advancing() {
    let mut machine = machine_with(&[]);
    machine.opcode = 0x6A55;
    execute(&mut machine, Operation::SetRegister);
    assert_eq!(machine.register[10], 0x55);
    assert_eq!(machine.pc, 0x200);
    machine.opcode = 0x3A55;
    execute(&mut machine, Operation::SkipEqual);
    assert_eq!(machine.pc, 0x202);
    execute(&mut machine, Operation::Bcd);
    assert_eq!(machine.fault, Some(Fault::NotImplemented));
}

#[test]
fn halt_sets_flag_and_reason_only() {
    let mut machine = machine_with(&[1, 2, 3]);
    machine.register[4] = 4;
    ops::halt(&mut machine, Fault::IndexOverflow);
    assert!(machine.stop);
    assert_eq!(machine.fault, Some(Fault::IndexOverflow));
    assert_eq!(machine.register[4], 4);
    assert_eq!(machine.pc, 0x200);
}

#[test]
fn operands_of_an_instruction_word() {
    assert_eq!(ops::low_byte(0xABCD), 0xCD);
    assert_eq!(ops::address(0xABCD), 0xBCD);
    assert_eq!(ops::low_byte(0xFF00), 0);
    assert_eq!(ops::address(0xF000), 0);
}
