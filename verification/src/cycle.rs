//! The fetch-decode-execute cycle.

use std::collections::HashMap;
use vstd::prelude::*;
use crate::bits::get_bit;
use crate::disasm::{compose, word_at};
use crate::display::{after_draw, draw};
use crate::machine::{Fault, Machine, State, MEMORY_SIZE};
use crate::opcodes::{
    create_opcodes, decode, dispatch, get_opcode, lemma_dispatch_is_decode, opcode_table,
    table_model, Opcode, Operation,
};
use crate::ops::{
    add_immediate, add_index, after_add, after_add_immediate, after_add_index, after_and_reg,
    after_assign_reg, after_call, after_clear_display, after_copy_reg, after_font_address,
    after_goto, after_if_eq, after_if_eq_reg, after_if_ne, after_if_ne_reg, after_mem,
    after_non_implemented, after_or_reg, after_reg_dump, after_reg_fill, after_return_func,
    after_shift_left, after_shift_right, after_sub_from, after_xor, and_reg, assign_reg, call,
    clear_display, copy_reg, font_address, goto, halt, if_eq, if_eq_reg, if_ne, if_ne_reg, mem,
    non_implemented, or_reg, reg_dump, reg_fill, return_func, shift_left, shift_right, sub_from,
    xor,
};

verus! {

/// The state after the behaviour of `operation` has run on `s`, whose
/// `opcode` holds the instruction word. The program counter is not yet
/// advanced.
pub open spec fn apply(operation: Operation, s: State) -> State {
    match operation {
        Operation::ClearDisplay => after_clear_display(s),
        Operation::Return => after_return_func(s),
        Operation::Jump => after_goto(s),
        Operation::Call => after_call(s),
        Operation::SkipEqual => after_if_eq(s),
        Operation::SkipNotEqual => after_if_ne(s),
        Operation::SkipRegistersEqual => after_if_ne_reg(s),
        Operation::SetRegister => after_assign_reg(s),
        Operation::AddImmediate => after_add_immediate(s),
        Operation::Copy => after_copy_reg(s),
        Operation::Or => after_or_reg(s),
        Operation::And => after_and_reg(s),
        Operation::Xor => after_xor(s),
        Operation::Add => after_add(s, s.x(), s.y()),
        Operation::ShiftRight => after_shift_right(s),
        Operation::SubtractFrom => after_sub_from(s),
        Operation::ShiftLeft => after_shift_left(s),
        Operation::SkipRegistersDiffer => after_if_eq_reg(s),
        Operation::SetIndex => after_mem(s),
        Operation::Draw => after_draw(s),
        Operation::AddIndex => after_add_index(s),
        Operation::FontAddress => after_font_address(s),
        Operation::RegisterDump => after_reg_dump(s),
        Operation::RegisterLoad => after_reg_fill(s),
        Operation::MachineCall
        | Operation::Subtract
        | Operation::SkipKeyPressed
        | Operation::SkipKeyReleased
        | Operation::GetDelay
        | Operation::WaitKey
        | Operation::SetDelay
        | Operation::SetSound
        | Operation::Bcd => after_non_implemented(s),
    }
}

/// Runs the behaviour of `operation` on the machine, whose `opcode` holds
/// the instruction word.
pub fn execute(machine: &mut Machine, operation: Operation)
    ensures
        final(machine)@ == apply(operation, old(machine)@),
{
    match operation {
        Operation::ClearDisplay => clear_display(machine),
        Operation::Return => return_func(machine),
        Operation::Jump => goto(machine),
        Operation::Call => call(machine),
        Operation::SkipEqual => if_eq(machine),
        Operation::SkipNotEqual => if_ne(machine),
        Operation::SkipRegistersEqual => if_ne_reg(machine),
        Operation::SetRegister => assign_reg(machine),
        Operation::AddImmediate => add_immediate(machine),
        Operation::Copy => copy_reg(machine),
        Operation::Or => or_reg(machine),
        Operation::And => and_reg(machine),
        Operation::Xor => xor(machine),
        Operation::Add => {
            let x = get_bit(machine.opcode, 2);
            let y = get_bit(machine.opcode, 1);
            crate::ops::add(machine, x, y)
        },
        Operation::ShiftRight => shift_right(machine),
        Operation::SubtractFrom => sub_from(machine),
        Operation::ShiftLeft => shift_left(machine),
        Operation::SkipRegistersDiffer => if_eq_reg(machine),
        Operation::SetIndex => mem(machine),
        Operation::Draw => draw(machine),
        Operation::AddIndex => add_index(machine),
        Operation::FontAddress => font_address(machine),
        Operation::RegisterDump => reg_dump(machine),
        Operation::RegisterLoad => reg_fill(machine),
        Operation::MachineCall
        | Operation::Subtract
        | Operation::SkipKeyPressed
        | Operation::SkipKeyReleased
        | Operation::GetDelay
        | Operation::WaitKey
        | Operation::SetDelay
        | Operation::SetSound
        | Operation::Bcd => non_implemented(machine),
    }
}

/// Whether the two bytes of the instruction at the program counter lie
/// inside memory.
pub open spec fn can_fetch(s: State) -> bool {
    s.pc + 1 < MEMORY_SIZE
}

/// The instruction word at the program counter.
pub open spec fn fetch(s: State) -> u16 {
    word_at(s.memory, s.pc as int)
}

/// The state after the instruction word `word` has been fetched and the
/// operation chosen for it has run: an unknown instruction halts, and the
/// program counter advances by 2 in every case.
pub open spec fn run(s: State, word: u16, operation: Option<Operation>) -> State {
    let fetched = State { opcode: word, ..s };
    let done = match operation {
        Some(operation) => apply(operation, fetched),
        None => fetched.halt(Fault::UnknownInstruction),
    };
    State { pc: done.pc.wrapping_add(2), ..done }
}

/// One cycle under `table`. A halted machine stays as it is. A program
/// counter so high that the instruction does not lie inside memory halts
/// the machine. Otherwise the instruction at the program counter is
/// fetched, looked up and run.
pub open spec fn step_with(table: Map<u16, Seq<Opcode>>, s: State) -> State {
    if s.stop {
        s
    } else if !can_fetch(s) {
        s.halt(Fault::FetchOutOfBounds)
    } else {
        run(s, fetch(s), dispatch(table, fetch(s)))
    }
}

/// One cycle of this machine: as `step_with`, with the operation read off
/// the instruction word.
pub open spec fn step(s: State) -> State {
    if s.stop {
        s
    } else if !can_fetch(s) {
        s.halt(Fault::FetchOutOfBounds)
    } else {
        run(s, fetch(s), decode(fetch(s)))
    }
}

/// A cycle under the machine's opcode table is a cycle of this machine.
pub proof fn lemma_step_with_opcode_table(s: State)
    ensures
        step_with(opcode_table(), s) == step(s),
{
    lemma_dispatch_is_decode(fetch(s));
}

impl Machine {
    /// Executes one instruction under `table` and returns the halted flag.
    pub fn cycle_with(&mut self, table: &HashMap<u16, Vec<Opcode>>) -> (halted: bool)
        ensures
            final(self)@ == step_with(table_model(table), old(self)@),
            halted == final(self)@.stop,
    {
        if self.stop {
            return true;
        }
        let pc = self.pc as usize;
        if pc + 1 >= MEMORY_SIZE {
            halt(self, Fault::FetchOutOfBounds);
            return true;
        }
        self.opcode = compose(self.memory[pc], self.memory[pc + 1]);
        match get_opcode(table, self.opcode) {
            Ok(entry) => execute(self, entry.operation),
            Err(_) => halt(self, Fault::UnknownInstruction),
        }
        self.pc = self.pc.wrapping_add(2);
        self.stop
    }

    /// Executes one instruction and returns the halted flag. The opcode
    /// table is built for this one cycle; a host that runs many cycles
    /// builds it once and calls `cycle_with`.
    pub fn cycle(&mut self) -> (halted: bool)
        ensures
            final(self)@ == step(old(self)@),
            halted == final(self)@.stop,
    {
        let table = create_opcodes();
        proof {
            lemma_step_with_opcode_table(self@);
        }
        self.cycle_with(&table)
    }
}

} // verus!
