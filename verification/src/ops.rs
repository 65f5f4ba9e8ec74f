//! The behaviours of the instructions that touch registers, memory, the
//! stack and the program counter, each with its transition on the model.

use vstd::prelude::*;
use crate::bits::{get_bit, nibble};
use crate::machine::{Fault, Machine, State, FLAG, MEMORY_SIZE, REGISTER_COUNT};

verus! {

impl State {
    /// The register index `X` of the instruction word: its third nibble.
    pub open spec fn x(self) -> int {
        nibble(self.opcode, 2) as int
    }

    /// The register index `Y` of the instruction word: its second nibble.
    pub open spec fn y(self) -> int {
        nibble(self.opcode, 1) as int
    }

    /// The nibble operand `N` of the instruction word: its lowest nibble.
    pub open spec fn n(self) -> int {
        nibble(self.opcode, 0) as int
    }

    /// The byte operand `NN` of the instruction word.
    pub open spec fn nn(self) -> u8 {
        (self.opcode & 0x00FF) as u8
    }

    /// The address operand `NNN` of the instruction word.
    pub open spec fn nnn(self) -> u16 {
        self.opcode & 0x0FFF
    }

    /// The state halted for the reason `fault`, nothing else changed.
    pub open spec fn halt(self, fault: Fault) -> State {
        State { stop: true, fault: Some(fault), ..self }
    }

    /// The state with the program counter moved past one more instruction.
    pub open spec fn skip(self) -> State {
        State { pc: self.pc.wrapping_add(2), ..self }
    }

    /// The state with the program counter set so that the advance which
    /// ends the cycle lands on `target`.
    pub open spec fn jump_to(self, target: u16) -> State {
        State { pc: target.wrapping_sub(2), ..self }
    }

    /// The state with register `i` set to `value`.
    pub open spec fn with_register(self, i: int, value: u8) -> State {
        State { register: self.register.update(i, value), ..self }
    }
}

/// The byte operand `NN` of an instruction word.
pub fn low_byte(opcode: u16) -> (nn: u8)
    ensures
        nn == (opcode & 0x00FF) as u8,
        nn == opcode & 0x00FF,
{
    assert(opcode & 0x00FF < 256) by (bit_vector);
    (opcode & 0x00FF) as u8
}

/// The address operand `NNN` of an instruction word.
pub fn address(opcode: u16) -> (nnn: u16)
    ensures
        nnn == opcode & 0x0FFF,
        nnn < 4096,
{
    assert(opcode & 0x0FFF < 4096) by (bit_vector);
    opcode & 0x0FFF
}

/// Halts the machine for the reason `fault`.
pub fn halt(machine: &mut Machine, fault: Fault)
    ensures
        final(machine)@ == old(machine)@.halt(fault),
{
    machine.stop = true;
    machine.fault = Some(fault);
}

/// Set index: `index = NNN`.
pub open spec fn after_mem(s: State) -> State {
    State { index: s.nnn(), ..s }
}

/// Set index (`ANNN`).
pub fn mem(machine: &mut Machine)
    ensures
        final(machine)@ == after_mem(old(machine)@),
{
    machine.index = address(machine.opcode);
}

/// Set register: `register[X] = NN`.
pub open spec fn after_assign_reg(s: State) -> State {
    s.with_register(s.x(), s.nn())
}

/// Set register (`6XNN`).
pub fn assign_reg(machine: &mut Machine)
    ensures
        final(machine)@ == after_assign_reg(old(machine)@),
{
    let x = get_bit(machine.opcode, 2) as usize;
    let nn = low_byte(machine.opcode);
    machine.register[x] = nn;
}

/// Call: push the program counter and jump to `NNN`; a full stack halts.
pub open spec fn after_call(s: State) -> State {
    if s.sp >= REGISTER_COUNT {
        s.halt(Fault::StackOverflow)
    } else {
        State { stack: s.stack.update(s.sp as int, s.pc), sp: (s.sp + 1) as u8, ..s }.jump_to(
            s.nnn(),
        )
    }
}

/// Call (`2NNN`).
pub fn call(machine: &mut Machine)
    ensures
        final(machine)@ == after_call(old(machine)@),
{
    if machine.sp >= 16 {
        halt(machine, Fault::StackOverflow);
    } else {
        let addr = address(machine.opcode);
        machine.stack[machine.sp as usize] = machine.pc;
        machine.sp += 1;
        machine.pc = addr.wrapping_sub(2);
    }
}

/// Jump: the cycle ends at `NNN`.
pub open spec fn after_goto(s: State) -> State {
    s.jump_to(s.nnn())
}

/// Jump (`1NNN`).
pub fn goto(machine: &mut Machine)
    ensures
        final(machine)@ == after_goto(old(machine)@),
{
    let addr = address(machine.opcode);
    machine.pc = addr.wrapping_sub(2);
}

/// Return: pop the newest return address and make the cycle end there.
/// An empty stack halts, and so does a stack pointer beyond the stack.
pub open spec fn after_return_func(s: State) -> State {
    if s.sp == 0 {
        s.halt(Fault::StackUnderflow)
    } else if s.sp > REGISTER_COUNT {
        s.halt(Fault::StackOverflow)
    } else {
        State { sp: (s.sp - 1) as u8, ..s }.jump_to(s.stack[s.sp - 1])
    }
}

/// Return (`00EE`).
pub fn return_func(machine: &mut Machine)
    ensures
        final(machine)@ == after_return_func(old(machine)@),
{
    if machine.sp == 0 {
        halt(machine, Fault::StackUnderflow);
    } else if machine.sp > 16 {
        halt(machine, Fault::StackOverflow);
    } else {
        machine.pc = machine.stack[(machine.sp - 1) as usize].wrapping_sub(2);
        machine.sp -= 1;
    }
}

/// Skip the next instruction if `register[X] == NN`.
pub open spec fn after_if_eq(s: State) -> State {
    if s.register[s.x()] == s.nn() {
        s.skip()
    } else {
        s
    }
}

/// Skip if equal to immediate (`3XNN`).
pub fn if_eq(machine: &mut Machine)
    ensures
        final(machine)@ == after_if_eq(old(machine)@),
{
    let x = get_bit(machine.opcode, 2) as usize;
    let val = low_byte(machine.opcode);
    if machine.register[x] == val {
        machine.pc = machine.pc.wrapping_add(2);
    }
}

/// Skip the next instruction if `register[X] != NN`.
pub open spec fn after_if_ne(s: State) -> State {
    if s.register[s.x()] != s.nn() {
        s.skip()
    } else {
        s
    }
}

/// Skip if not equal to immediate (`4XNN`).
pub fn if_ne(machine: &mut Machine)
    ensures
        final(machine)@ == after_if_ne(old(machine)@),
{
    let x = get_bit(machine.opcode, 2) as usize;
    let val = low_byte(machine.opcode);
    if machine.register[x] != val {
        machine.pc = machine.pc.wrapping_add(2);
    }
}

/// Skip the next instruction if `register[X] == register[Y]`.
pub open spec fn after_if_ne_reg(s: State) -> State {
    if s.register[s.x()] == s.register[s.y()] {
        s.skip()
    } else {
        s
    }
}

/// Skip if the two registers are equal (`5XY0`): the instruction that
/// follows runs only if they differ.
pub fn if_ne_reg(machine: &mut Machine)
    ensures
        final(machine)@ == after_if_ne_reg(old(machine)@),
{
    let x = get_bit(machine.opcode, 2) as usize;
    let y = get_bit(machine.opcode, 1) as usize;
    if machine.register[x] == machine.register[y] {
        machine.pc = machine.pc.wrapping_add(2);
    }
}

/// Skip the next instruction if `register[X] != register[Y]`.
pub open spec fn after_if_eq_reg(s: State) -> State {
    if s.register[s.x()] != s.register[s.y()] {
        s.skip()
    } else {
        s
    }
}

/// Skip if the two registers differ (`9XY0`): the instruction that
/// follows runs only if they are equal.
pub fn if_eq_reg(machine: &mut Machine)
    ensures
        final(machine)@ == after_if_eq_reg(old(machine)@),
{
    let x = get_bit(machine.opcode, 2) as usize;
    let y = get_bit(machine.opcode, 1) as usize;
    if machine.register[x] != machine.register[y] {
        machine.pc = machine.pc.wrapping_add(2);
    }
}

/// Add immediate: `register[X] += NN` modulo 256; the flag is untouched.
pub open spec fn after_add_immediate(s: State) -> State {
    s.with_register(s.x(), ((s.register[s.x()] + s.nn()) % 256) as u8)
}

/// Add immediate (`7XNN`).
pub fn add_immediate(machine: &mut Machine)
    ensures
        final(machine)@ == after_add_immediate(old(machine)@),
{
    let x = get_bit(machine.opcode, 2) as usize;
    let nn = low_byte(machine.opcode);
    machine.register[x] = machine.register[x].wrapping_add(nn);
}

/// Copy: `register[X] = register[Y]`.
pub open spec fn after_copy_reg(s: State) -> State {
    s.with_register(s.x(), s.register[s.y()])
}

/// Copy (`8XY0`).
pub fn copy_reg(machine: &mut Machine)
    ensures
        final(machine)@ == after_copy_reg(old(machine)@),
{
    let x = get_bit(machine.opcode, 2) as usize;
    let y = get_bit(machine.opcode, 1) as usize;
    machine.register[x] = machine.register[y];
}

/// Bitwise or: `register[X] |= register[Y]`.
pub open spec fn after_or_reg(s: State) -> State {
    s.with_register(s.x(), s.register[s.x()] | s.register[s.y()])
}

/// Bitwise or (`8XY1`).
pub fn or_reg(machine: &mut Machine)
    ensures
        final(machine)@ == after_or_reg(old(machine)@),
{
    let x = get_bit(machine.opcode, 2) as usize;
    let y = get_bit(machine.opcode, 1) as usize;
    machine.register[x] = machine.register[x] | machine.register[y];
}

/// Bitwise and: `register[X] &= register[Y]`.
pub open spec fn after_and_reg(s: State) -> State {
    s.with_register(s.x(), s.register[s.x()] & s.register[s.y()])
}

/// Bitwise and (`8XY2`).
pub fn and_reg(machine: &mut Machine)
    ensures
        final(machine)@ == after_and_reg(old(machine)@),
{
    let x = get_bit(machine.opcode, 2) as usize;
    let y = get_bit(machine.opcode, 1) as usize;
    machine.register[x] = machine.register[x] & machine.register[y];
}

/// Bitwise exclusive or: `register[X] ^= register[Y]`.
pub open spec fn after_xor(s: State) -> State {
    s.with_register(s.x(), s.register[s.x()] ^ s.register[s.y()])
}

/// Bitwise exclusive or (`8XY3`).
pub fn xor(machine: &mut Machine)
    ensures
        final(machine)@ == after_xor(old(machine)@),
{
    let x = get_bit(machine.opcode, 2) as usize;
    let y = get_bit(machine.opcode, 1) as usize;
    machine.register[x] = machine.register[x] ^ machine.register[y];
}

/// Register add: `register[x]` becomes the sum modulo 256, then the flag
/// register becomes 1 if the sum exceeded 255 and 0 otherwise.
pub open spec fn after_add(s: State, x: int, y: int) -> State {
    let sum = s.register[x] + s.register[y];
    s.with_register(x, (sum % 256) as u8).with_register(
        FLAG as int,
        if sum > 255 {
            1u8
        } else {
            0u8
        },
    )
}

/// Register add (`8XY4`) on the registers `x` and `y`.
pub fn add(machine: &mut Machine, x: u8, y: u8)
    requires
        x < REGISTER_COUNT,
        y < REGISTER_COUNT,
    ensures
        final(machine)@ == after_add(old(machine)@, x as int, y as int),
{
    let a = machine.register[x as usize];
    let b = machine.register[y as usize];
    let carry: u8 = if a as u16 + b as u16 > 255 { 1 } else { 0 };
    machine.register[x as usize] = a.wrapping_add(b);
    machine.register[15] = carry;
}

/// Reverse subtract: `register[X] = register[Y] - register[X]` modulo 256,
/// then the flag register becomes 1 if the difference fell below 0 and 0
/// otherwise.
pub open spec fn after_sub_from(s: State) -> State {
    let difference = s.register[s.y()] - s.register[s.x()];
    s.with_register(s.x(), (difference % 256) as u8).with_register(
        FLAG as int,
        if difference < 0 {
            1u8
        } else {
            0u8
        },
    )
}

/// Reverse subtract (`8XY7`).
pub fn sub_from(machine: &mut Machine)
    ensures
        final(machine)@ == after_sub_from(old(machine)@),
{
    let x = get_bit(machine.opcode, 2) as usize;
    let y = get_bit(machine.opcode, 1) as usize;
    let a = machine.register[x];
    let b = machine.register[y];
    let borrow: u8 = if b < a { 1 } else { 0 };
    machine.register[x] = b.wrapping_sub(a);
    machine.register[15] = borrow;
}

/// Shift right: the lowest bit of `register[X]` goes to the flag register,
/// then `register[X]` is shifted right by one.
pub open spec fn after_shift_right(s: State) -> State {
    let flagged = s.with_register(FLAG as int, s.register[s.x()] & 1);
    flagged.with_register(s.x(), flagged.register[s.x()] >> 1)
}

/// Shift right (`8XY6`).
pub fn shift_right(machine: &mut Machine)
    ensures
        final(machine)@ == after_shift_right(old(machine)@),
{
    let x = get_bit(machine.opcode, 2) as usize;
    machine.register[15] = machine.register[x] & 1;
    machine.register[x] = machine.register[x] >> 1;
}

/// Shift left: the highest bit of `register[X]` goes to the flag register,
/// then `register[X]` is shifted left by one, modulo 256.
pub open spec fn after_shift_left(s: State) -> State {
    let flagged = s.with_register(FLAG as int, s.register[s.x()] >> 7);
    flagged.with_register(s.x(), flagged.register[s.x()] << 1)
}

/// Shift left (`8XYE`).
pub fn shift_left(machine: &mut Machine)
    ensures
        final(machine)@ == after_shift_left(old(machine)@),
{
    let x = get_bit(machine.opcode, 2) as usize;
    machine.register[15] = machine.register[x] >> 7;
    machine.register[x] = machine.register[x] << 1;
}

/// Add to index: `index += register[X]`; leaving the 16-bit range halts.
pub open spec fn after_add_index(s: State) -> State {
    if s.index + s.register[s.x()] > u16::MAX {
        s.halt(Fault::IndexOverflow)
    } else {
        State { index: (s.index + s.register[s.x()]) as u16, ..s }
    }
}

/// Add to index (`FX1E`).
pub fn add_index(machine: &mut Machine)
    ensures
        final(machine)@ == after_add_index(old(machine)@),
{
    let x = get_bit(machine.opcode, 2) as usize;
    let sum: u32 = machine.index as u32 + machine.register[x] as u32;
    if sum > 0xFFFF {
        halt(machine, Fault::IndexOverflow);
    } else {
        machine.index = sum as u16;
    }
}

/// Font address: `index = 5 * register[X]`, where the glyph for the value
/// of `register[X]` starts when that value is a hexadecimal digit.
pub open spec fn after_font_address(s: State) -> State {
    State { index: (5 * s.register[s.x()]) as u16, ..s }
}

/// Font address (`FX29`).
pub fn font_address(machine: &mut Machine)
    ensures
        final(machine)@ == after_font_address(old(machine)@),
{
    let x = get_bit(machine.opcode, 2) as usize;
    machine.index = 5 * (machine.register[x] as u16);
}

/// Register dump: `memory[index + i] = register[i]` for every `i` up to and
/// including `X`; reaching past the end of memory halts with nothing
/// written.
pub open spec fn after_reg_dump(s: State) -> State {
    if s.index + s.x() >= MEMORY_SIZE {
        s.halt(Fault::MemoryOutOfBounds)
    } else {
        State {
            memory: Seq::new(
                MEMORY_SIZE as nat,
                |addr: int|
                    if s.index <= addr <= s.index + s.x() {
                        s.register[addr - s.index]
                    } else {
                        s.memory[addr]
                    },
            ),
            ..s
        }
    }
}

/// Register dump (`FX55`).
pub fn reg_dump(machine: &mut Machine)
    ensures
        final(machine)@ == after_reg_dump(old(machine)@),
{
    let x = get_bit(machine.opcode, 2) as usize;
    let base = machine.index as usize;
    if base + x >= MEMORY_SIZE {
        halt(machine, Fault::MemoryOutOfBounds);
    } else {
        let mut offset: usize = 0;
        while offset <= x
            invariant
                offset <= x + 1,
                x < REGISTER_COUNT,
                base + x < MEMORY_SIZE,
                base == old(machine).index,
                machine@ == (State { memory: machine@.memory, ..old(machine)@ }),
                forall|addr: int|
                    0 <= addr < MEMORY_SIZE ==> machine.memory[addr] == if base <= addr < base
                        + offset {
                        old(machine).register[addr - base]
                    } else {
                        old(machine).memory[addr]
                    },
            decreases x + 1 - offset,
        {
            machine.memory[base + offset] = machine.register[offset];
            offset += 1;
        }
        assert(machine@.memory =~= after_reg_dump(old(machine)@).memory);
    }
}

/// Register load: `register[i] = memory[index + i]` for every `i` up to and
/// including `X`; reaching past the end of memory halts with nothing read.
pub open spec fn after_reg_fill(s: State) -> State {
    if s.index + s.x() >= MEMORY_SIZE {
        s.halt(Fault::MemoryOutOfBounds)
    } else {
        State {
            register: Seq::new(
                REGISTER_COUNT as nat,
                |i: int|
                    if i <= s.x() {
                        s.memory[s.index + i]
                    } else {
                        s.register[i]
                    },
            ),
            ..s
        }
    }
}

/// Register load (`FX65`).
pub fn reg_fill(machine: &mut Machine)
    ensures
        final(machine)@ == after_reg_fill(old(machine)@),
{
    let x = get_bit(machine.opcode, 2) as usize;
    let base = machine.index as usize;
    if base + x >= MEMORY_SIZE {
        halt(machine, Fault::MemoryOutOfBounds);
    } else {
        let mut offset: usize = 0;
        while offset <= x
            invariant
                offset <= x + 1,
                x < REGISTER_COUNT,
                base + x < MEMORY_SIZE,
                base == old(machine).index,
                machine@ == (State { register: machine@.register, ..old(machine)@ }),
                forall|i: int|
                    0 <= i < REGISTER_COUNT ==> machine.register[i] == if i < offset {
                        old(machine).memory[base + i]
                    } else {
                        old(machine).register[i]
                    },
            decreases x + 1 - offset,
        {
            machine.register[offset] = machine.memory[base + offset];
            offset += 1;
        }
        assert(machine@.register =~= after_reg_fill(old(machine)@).register);
    }
}

/// Clear display: every framebuffer cell is off.
pub open spec fn after_clear_display(s: State) -> State {
    State { video_mem: crate::machine::blank_screen(), ..s }
}

/// Clear display (`00E0`).
pub fn clear_display(machine: &mut Machine)
    ensures
        final(machine)@ == after_clear_display(old(machine)@),
{
    machine.video_mem = [[0; 64]; 32];
    assert(machine@.video_mem =~~= crate::machine::blank_screen());
}

/// A recognised instruction without behaviour: the machine halts.
pub open spec fn after_non_implemented(s: State) -> State {
    s.halt(Fault::NotImplemented)
}

/// The behaviour of every recognised instruction that has none of its own:
/// machine-code calls, key and timer access, decimal conversion and plain
/// subtraction.
pub fn non_implemented(machine: &mut Machine)
    ensures
        final(machine)@ == after_non_implemented(old(machine)@),
{
    halt(machine, Fault::NotImplemented);
}

} // verus!
