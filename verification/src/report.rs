//! Text about a machine for a host to show: the reason it halted, and a
//! dump of its state.

use std::collections::HashMap;
use vstd::prelude::*;
use crate::disasm::{disassemble, disassemble_word};
use crate::machine::{Fault, Machine, State, REGISTER_COUNT};
use crate::opcodes::{create_opcodes, opcode_table, table_model, unknown_message, Opcode};
use crate::text::{
    append_decimal, append_hex, append_padded_decimal, append_padded_hex, decimal, hex, hex_padded,
    padded,
};

verus! {

/// The name of a fault in a message.
pub open spec fn fault_label(fault: Fault) -> Seq<char> {
    match fault {
        Fault::UnknownInstruction => "Unknown sub instruction"@,
        Fault::NotImplemented => "Not implemented"@,
        Fault::StackOverflow => "Stack overflow"@,
        Fault::StackUnderflow => "Stack underflow"@,
        Fault::MemoryOutOfBounds => "Memory access out of bounds"@,
        Fault::IndexOverflow => "Index overflow"@,
        Fault::FetchOutOfBounds => "Program counter out of bounds"@,
    }
}

/// The message for the fault that halted the machine, if one did. An
/// unknown instruction is named by its word, a program counter out of
/// bounds by its value, every other fault by the instruction word and its
/// text under `table`.
pub open spec fn diagnostic_text(table: Map<u16, Seq<Opcode>>, s: State) -> Option<Seq<char>> {
    match s.fault {
        None => None,
        Some(Fault::UnknownInstruction) => Some(unknown_message(s.opcode)),
        Some(Fault::FetchOutOfBounds) => Some(
            fault_label(Fault::FetchOutOfBounds) + " "@ + hex(s.pc as nat),
        ),
        Some(fault) => Some(
            fault_label(fault) + " "@ + hex(s.opcode as nat) + " "@ + disassemble(table, s.opcode),
        ),
    }
}

/// The line of register `i` in a dump; every third line ends the row.
pub open spec fn register_line(i: nat, value: u8) -> Seq<char> {
    " R"@ + padded(decimal(i), 2, ' ') + ": "@ + hex_padded(value as nat) + "("@ + padded(
        decimal(value as nat),
        4,
        ' ',
    ) + ")"@ + if i % 3 == 2 {
        "\n"@
    } else {
        Seq::empty()
    }
}

/// The lines of the first `count` registers.
pub open spec fn registers_text(register: Seq<u8>, count: nat) -> Seq<char>
    decreases count,
{
    if count == 0 {
        Seq::empty()
    } else {
        registers_text(register, (count - 1) as nat) + register_line(
            (count - 1) as nat,
            register[count - 1],
        )
    }
}

/// The line of stack slot `i` in a dump.
pub open spec fn stack_line(i: nat, value: u16) -> Seq<char> {
    "\n"@ + decimal(i) + ": "@ + decimal(value as nat) + " "@ + hex_padded(value as nat)
}

/// The lines of the first `count` stack slots.
pub open spec fn stack_text(stack: Seq<u16>, count: nat) -> Seq<char>
    decreases count,
{
    if count == 0 {
        Seq::empty()
    } else {
        stack_text(stack, (count - 1) as nat) + stack_line((count - 1) as nat, stack[count - 1])
    }
}

/// The number of stack slots in use, as far as the stack reaches.
pub open spec fn slots_in_use(s: State) -> nat {
    if s.sp <= REGISTER_COUNT {
        s.sp as nat
    } else {
        REGISTER_COUNT as nat
    }
}

/// The dump of a machine: the instruction word fetched last with its text
/// under `table`, index, program counter, timers and stack pointer, then
/// all registers and the stack slots in use.
pub open spec fn dump_text(table: Map<u16, Seq<Opcode>>, s: State) -> Seq<char> {
    "\nMachine\nOpcode: "@ + hex(s.opcode as nat) + " "@ + disassemble(table, s.opcode)
        + "\nindex:       "@ + decimal(s.index as nat) + " pc: "@ + decimal(s.pc as nat)
        + "\ndelay_timer: "@ + decimal(s.delay_timer as nat) + " sound_timer: "@ + decimal(
        s.sound_timer as nat,
    ) + "\nsp:          "@ + decimal(s.sp as nat) + "\nregisters:\n"@ + registers_text(
        s.register,
        REGISTER_COUNT as nat,
    ) + "\nstack:\n"@ + stack_text(s.stack, slots_in_use(s)) + "\n"@
}

/// Appends the name of `fault`.
fn append_fault_label(text: &mut String, fault: Fault)
    ensures
        final(text)@ == old(text)@ + fault_label(fault),
{
    match fault {
        Fault::UnknownInstruction => text.append("Unknown sub instruction"),
        Fault::NotImplemented => text.append("Not implemented"),
        Fault::StackOverflow => text.append("Stack overflow"),
        Fault::StackUnderflow => text.append("Stack underflow"),
        Fault::MemoryOutOfBounds => text.append("Memory access out of bounds"),
        Fault::IndexOverflow => text.append("Index overflow"),
        Fault::FetchOutOfBounds => text.append("Program counter out of bounds"),
    }
}

/// Appends the lines of all registers.
fn append_registers(text: &mut String, register: &[u8; 16])
    ensures
        final(text)@ == old(text)@ + registers_text(register@, REGISTER_COUNT as nat),
{
    let mut i: usize = 0;
    while i < 16
        invariant
            i <= 16,
            text@ == old(text)@ + registers_text(register@, i as nat),
        decreases 16 - i,
    {
        let value = register[i] as u16;
        text.append(" R");
        append_padded_decimal(text, i as u16, 2);
        text.append(": ");
        append_padded_hex(text, value);
        text.append("(");
        append_padded_decimal(text, value, 4);
        text.append(")");
        if i % 3 == 2 {
            text.append("\n");
        }
        i += 1;
    }
}

/// Appends the lines of the first `count` stack slots.
fn append_stack(text: &mut String, stack: &[u16; 16], count: usize)
    requires
        count <= 16,
    ensures
        final(text)@ == old(text)@ + stack_text(stack@, count as nat),
{
    let mut i: usize = 0;
    while i < count
        invariant
            i <= count <= 16,
            text@ == old(text)@ + stack_text(stack@, i as nat),
        decreases count - i,
    {
        text.append("\n");
        append_decimal(text, i as u16);
        text.append(": ");
        append_decimal(text, stack[i]);
        text.append(" ");
        append_padded_hex(text, stack[i]);
        i += 1;
    }
}

impl Machine {
    /// The message for the fault that halted the machine, if one did, with
    /// instruction words rendered under `table`.
    pub fn diagnostic_with(&self, table: &HashMap<u16, Vec<Opcode>>) -> (message: Option<String>)
        ensures
            match diagnostic_text(table_model(table), self@) {
                Some(text) => message is Some && message->Some_0@ == text,
                None => message is None,
            },
    {
        match self.fault {
            None => None,
            Some(Fault::UnknownInstruction) => {
                let mut text = String::from_str("Unknown sub instruction ");
                append_hex(&mut text, self.opcode);
                Some(text)
            },
            Some(Fault::FetchOutOfBounds) => {
                let mut text = String::new();
                append_fault_label(&mut text, Fault::FetchOutOfBounds);
                text.append(" ");
                append_hex(&mut text, self.pc);
                Some(text)
            },
            Some(fault) => {
                let mut text = String::new();
                append_fault_label(&mut text, fault);
                text.append(" ");
                append_hex(&mut text, self.opcode);
                text.append(" ");
                let words = disassemble_word(table, self.opcode);
                text.append(words.as_str());
                Some(text)
            },
        }
    }

    /// The message for the fault that halted the machine, if one did.
    pub fn diagnostic(&self) -> (message: Option<String>)
        ensures
            match diagnostic_text(opcode_table(), self@) {
                Some(text) => message is Some && message->Some_0@ == text,
                None => message is None,
            },
    {
        let table = create_opcodes();
        self.diagnostic_with(&table)
    }

    /// The dump of the machine, with instruction words rendered under
    /// `table`.
    pub fn dump_with(&self, table: &HashMap<u16, Vec<Opcode>>) -> (text: String)
        ensures
            text@ == dump_text(table_model(table), self@),
    {
        let mut text = String::from_str("\nMachine\nOpcode: ");
        append_hex(&mut text, self.opcode);
        text.append(" ");
        let words = disassemble_word(table, self.opcode);
        text.append(words.as_str());
        text.append("\nindex:       ");
        append_decimal(&mut text, self.index);
        text.append(" pc: ");
        append_decimal(&mut text, self.pc);
        text.append("\ndelay_timer: ");
        append_decimal(&mut text, self.delay_timer as u16);
        text.append(" sound_timer: ");
        append_decimal(&mut text, self.sound_timer as u16);
        text.append("\nsp:          ");
        append_decimal(&mut text, self.sp as u16);
        text.append("\nregisters:\n");
        append_registers(&mut text, &self.register);
        text.append("\nstack:\n");
        let count: usize = if self.sp <= 16 {
            self.sp as usize
        } else {
            16
        };
        append_stack(&mut text, &self.stack, count);
        text.append("\n");
        text
    }

    /// The dump of the machine.
    pub fn dump(&self) -> (text: String)
        ensures
            text@ == dump_text(opcode_table(), self@),
    {
        let table = create_opcodes();
        self.dump_with(&table)
    }
}

} // verus!
