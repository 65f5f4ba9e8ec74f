use chip8::bits::get_bit;
use chip8::machine::{Machine, WIDTH};

#[test]
fn test_get_bit() {
    assert_eq!(get_bit(0x000A, 0), 0x000A);
    assert_eq!(get_bit(0x00A0, 1), 0x000A);
    assert_eq!(get_bit(0x0A00, 2), 0x000A);
    assert_eq!(get_bit(0xA000, 3), 0x000A);

    assert_eq!(get_bit(0xAAAA, 2), 0x000A);
}

#[test]
fn test_add() {
    let prog: [u8; 0] = [];
    let mut machine = Machine::new(&prog);
    machine.register[0] = 10;
    machine.register[1] = 10;
    chip8::ops::add(&mut machine, 0, 1);
    assert_eq!(machine.register[0], 20);
}

#[test]
fn test_draw() {
    let index: usize = 10;

    let prog: [u8; 2] = [0xD1, 0x24];
    let mem: [u8; 8] = [
        0xFFu8, 0xFFu8, 0xFFu8, 0xFFu8, 0xFFu8, 0xFFu8, 0xFFu8, 0xFFu8,
    ];
    let mut machine = Machine::new(&prog);
    machine.index = index as u16;
    for (i, x) in mem.iter().enumerate() {
        machine.memory[index + i] = *x;
    }
    machine.register[1] = 1;
    machine.register[2] = 1;
    machine.cycle();
    for x in 1..5 {
        for y in 1..9 {
            assert_eq!(machine.video_mem[x][y], 0xFF);
        }
    }
    for x in 1..5 {
        for y in 9..WIDTH {
            assert_eq!(machine.video_mem[x][y], 0x00);
        }
    }
}

#[test]
fn test_draw_0() {
    let index: usize = 0;

    let prog: [u8; 2] = [0xD0, 0x05];
    let mut machine = Machine::new(&prog);
    machine.index = index as u16;
    machine.register[0] = 0;
    machine.cycle();

    assert_eq!(machine.video_mem[0][0], 0x0);
    assert_eq!(machine.video_mem[0][1], 0x0);
    assert_eq!(machine.video_mem[0][2], 0x0);
    assert_eq!(machine.video_mem[0][3], 0x0);
    assert_eq!(machine.video_mem[0][4], 0xff);
    assert_eq!(machine.video_mem[0][5], 0xff);
    assert_eq!(machine.video_mem[0][6], 0xff);
    assert_eq!(machine.video_mem[0][7], 0xff);
    assert_eq!(machine.video_mem[1][0], 0x0);
    assert_eq!(machine.video_mem[1][1], 0x0);
    assert_eq!(machine.video_mem[1][2], 0x0);
    assert_eq!(machine.video_mem[1][3], 0x0);
    assert_eq!(machine.video_mem[1][4], 0xff);
    assert_eq!(machine.video_mem[1][5], 0x0);
    assert_eq!(machine.video_mem[1][6], 0x0);
    assert_eq!(machine.video_mem[1][7], 0xff);
    assert_eq!(machine.video_mem[2][0], 0x0);
    assert_eq!(machine.video_mem[2][1], 0x0);
    assert_eq!(machine.video_mem[2][2], 0x0);
    assert_eq!(machine.video_mem[2][3], 0x0);
    assert_eq!(machine.video_mem[2][4], 0xff);
    assert_eq!(machine.video_mem[2][5], 0x0);
    assert_eq!(machine.video_mem[2][6], 0x0);
    assert_eq!(machine.video_mem[2][7], 0xff);
    assert_eq!(machine.video_mem[3][0], 0x0);
    assert_eq!(machine.video_mem[3][1], 0x0);
    assert_eq!(machine.video_mem[3][2], 0x0);
    assert_eq!(machine.video_mem[3][3], 0x0);
    assert_eq!(machine.video_mem[3][4], 0xff);
    assert_eq!(machine.video_mem[3][5], 0x0);
    assert_eq!(machine.video_mem[3][6], 0x0);
    assert_eq!(machine.video_mem[3][7], 0xff);
    assert_eq!(machine.video_mem[4][0], 0x0);
    assert_eq!(machine.video_mem[4][1], 0x0);
    assert_eq!(machine.video_mem[4][2], 0x0);
    assert_eq!(machine.video_mem[4][3], 0x0);
    assert_eq!(machine.video_mem[4][4], 0xff);
    assert_eq!(machine.video_mem[4][5], 0xff);
    assert_eq!(machine.video_mem[4][6], 0xff);
    assert_eq!(machine.video_mem[4][7], 0xff);
}

#[test]
fn test_draw_8() {
    let index: usize = 40;

    let prog: [u8; 2] = [0xD0, 0x05];
    let mut machine = Machine::new(&prog);
    machine.index = index as u16;
    machine.register[0] = 0;
    machine.cycle();

    assert_eq!(machine.video_mem[0][0], 0x0);
    assert_eq!(machine.video_mem[0][1], 0x0);
    assert_eq!(machine.video_mem[0][2], 0x0);
    assert_eq!(machine.video_mem[0][3], 0x0);
    assert_eq!(machine.video_mem[0][4], 0xff);
    assert_eq!(machine.video_mem[0][5], 0xff);
    assert_eq!(machine.video_mem[0][6], 0xff);
    assert_eq!(machine.video_mem[0][7], 0xff);
    assert_eq!(machine.video_mem[1][0], 0x0);
    assert_eq!(machine.video_mem[1][1], 0x0);
    assert_eq!(machine.video_mem[1][2], 0x0);
    assert_eq!(machine.video_mem[1][3], 0x0);
    assert_eq!(machine.video_mem[1][4], 0xff);
    assert_eq!(machine.video_mem[1][5], 0x0);
    assert_eq!(machine.video_mem[1][6], 0x0);
    assert_eq!(machine.video_mem[1][7], 0xff);
    assert_eq!(machine.video_mem[2][0], 0x0);
    assert_eq!(machine.video_mem[2][1], 0x0);
    assert_eq!(machine.video_mem[2][2], 0x0);
    assert_eq!(machine.video_mem[2][3], 0x0);
    assert_eq!(machine.video_mem[2][4], 0xff);
    assert_eq!(machine.video_mem[2][5], 0xff);
    assert_eq!(machine.video_mem[2][6], 0xff);
    assert_eq!(machine.video_mem[2][7], 0xff);
    assert_eq!(machine.video_mem[3][0], 0x0);
    assert_eq!(machine.video_mem[3][1], 0x0);
    assert_eq!(machine.video_mem[3][2], 0x0);
    assert_eq!(machine.video_mem[3][3], 0x0);
    assert_eq!(machine.video_mem[3][4], 0xff);
    assert_eq!(machine.video_mem[3][5], 0x0);
    assert_eq!(machine.video_mem[3][6], 0x0);
    assert_eq!(machine.video_mem[3][7], 0xff);
    assert_eq!(machine.video_mem[4][0], 0x0);
    assert_eq!(machine.video_mem[4][1], 0x0);
    assert_eq!(machine.video_mem[4][2], 0x0);
    assert_eq!(machine.video_mem[4][3], 0x0);
    assert_eq!(machine.video_mem[4][4], 0xff);
    assert_eq!(machine.video_mem[4][5], 0xff);
    assert_eq!(machine.video_mem[4][6], 0xff);
    assert_eq!(machine.video_mem[4][7], 0xff);
}

#[test]
fn test_mem() {
    let prog: [u8; 2] = [0xA3, 0x33];
    let mut machine = Machine::new(&prog);
    machine.index = 10;
    machine.cycle();
    assert_eq!(machine.index, 0x333);
}

#[test]
fn test_assing_reg() {
    let prog: [u8; 2] = [0x64, 0x33];
    let mut machine = Machine::new(&prog);
    machine.register[4] = 10;
    machine.cycle();
    assert_eq!(machine.register[4], 0x33);
}

#[test]
fn test_xor() {
    let prog: [u8; 2] = [0x81, 0x23];
    let mut machine = Machine::new(&prog);
    machine.register[1] = 23;
    machine.register[2] = 56;
    machine.cycle();
    assert_eq!(machine.register[1], 23 ^ 56);
}

#[test]
fn test_reg_assing() {
    let prog: [u8; 2] = [0x81, 0x20];
    let mut machine = Machine::new(&prog);
    machine.register[1] = 11;
    machine.register[2] = 0;
    machine.cycle();
    assert_eq!(machine.register[1], 0);
}

#[test]
fn test_reg_or() {
    let prog: [u8; 2] = [0x81, 0x21];
    let mut machine = Machine::new(&prog);
    machine.register[1] = 11;
    machine.register[2] = 0;
    machine.cycle();
    assert_eq!(machine.register[1], 11);
}

#[test]
fn test_reg_and() {
    let prog: [u8; 2] = [0x81, 0x22];
    let mut machine = Machine::new(&prog);
    machine.register[1] = 11;
    machine.register[2] = 1;
    machine.cycle();
    assert_eq!(machine.register[1], 1);
}
