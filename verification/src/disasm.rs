//! The disassembler: instruction words rendered as mnemonics.

use std::collections::HashMap;
use vstd::prelude::*;
use crate::bits::{get_bit, nibble};
use crate::machine::{Machine, PROGRAM_START};
use crate::opcodes::{
    create_opcodes, get_opcode, lookup, opcode_table, table_model, unknown_message, Opcode,
    Operation,
};
use crate::ops::{address, low_byte};
use crate::text::{append_decimal, append_hex, decimal, hex};

verus! {

/// How a register is written in a mnemonic.
pub open spec fn register_text(i: nat) -> Seq<char> {
    "register["@ + decimal(i) + "]"@
}

/// The mnemonic of `operation` for the instruction word `word`.
pub open spec fn mnemonic(operation: Operation, word: u16) -> Seq<char> {
    let x = nibble(word, 2) as nat;
    let y = nibble(word, 1) as nat;
    let n = nibble(word, 0) as nat;
    let nn = (word & 0x00FF) as nat;
    let nnn = (word & 0x0FFF) as nat;
    match operation {
        Operation::ClearDisplay => "disp_clear()"@,
        Operation::Return => "return"@,
        Operation::MachineCall => "call"@,
        Operation::Jump => "goto "@ + hex(nnn),
        Operation::Call => "call "@ + hex(nnn),
        Operation::SkipEqual => "if "@ + register_text(x) + " == "@ + decimal(nn),
        Operation::SkipNotEqual => "if "@ + register_text(x) + " != "@ + decimal(nn),
        Operation::SkipRegistersEqual => "if "@ + register_text(x) + " != "@ + register_text(y),
        Operation::SetRegister => register_text(x) + " = "@ + decimal(nn),
        Operation::AddImmediate => register_text(x) + " += "@ + decimal(nn),
        Operation::Copy => register_text(x) + " = "@ + register_text(y),
        Operation::Or => register_text(x) + " = "@ + register_text(x) + " or "@ + register_text(y),
        Operation::And => register_text(x) + " = "@ + register_text(x) + " and "@ + register_text(
            y,
        ),
        Operation::Xor => register_text(x) + " = "@ + register_text(x) + " xor "@ + register_text(
            y,
        ),
        Operation::Add => register_text(x) + " +=  "@ + register_text(y),
        Operation::Subtract => register_text(x) + " -=  "@ + register_text(y),
        Operation::ShiftRight => register_text(x) + " >>= 1"@,
        Operation::SubtractFrom => register_text(x) + " = "@ + register_text(x) + " - "@
            + register_text(y),
        Operation::ShiftLeft => register_text(x) + " <<= 1"@,
        Operation::SkipRegistersDiffer => "if "@ + register_text(x) + " != "@ + register_text(y),
        Operation::SetIndex => "I = "@ + decimal(nnn),
        Operation::Draw => "draw("@ + register_text(x) + ", "@ + register_text(y) + " , "@
            + decimal(n) + ")"@,
        Operation::SkipKeyPressed => "if(key() == "@ + register_text(x),
        Operation::SkipKeyReleased => "if(key() != "@ + register_text(x),
        Operation::GetDelay => register_text(x) + " = get_delay"@,
        Operation::WaitKey => register_text(x) + " = get_key"@,
        Operation::SetDelay => "delay_timer("@ + register_text(x) + " )"@,
        Operation::SetSound => "sound_timer("@ + register_text(x) + " )"@,
        Operation::AddIndex => "I +="@ + register_text(x),
        Operation::FontAddress => "I = sprite_addr["@ + register_text(x) + "]"@,
        Operation::Bcd => "set_BCD("@ + register_text(x) + ")"@,
        Operation::RegisterDump => "reg_dump("@ + register_text(x) + ",&I) "@,
        Operation::RegisterLoad => "reg_load("@ + register_text(x) + ",&I) "@,
    }
}

/// The text for `word` under `table`: the mnemonic of the entry that the
/// table selects, or the message for an unknown instruction.
pub open spec fn disassemble(table: Map<u16, Seq<Opcode>>, word: u16) -> Seq<char> {
    match lookup(table, word) {
        Some(entry) => mnemonic(entry.operation, word),
        None => unknown_message(word),
    }
}

/// The instruction word stored at `addr`: two bytes, the high one first.
pub open spec fn word_at(memory: Seq<u8>, addr: int) -> u16 {
    (memory[addr] as u16) << 8 | memory[addr + 1] as u16
}

/// The listing of a program of `program_size` bytes loaded at
/// `PROGRAM_START`: the text of each pair of bytes from the start of the
/// program on. A program of odd length has its last byte paired with the
/// byte that follows it in memory.
pub open spec fn listing_model(
    table: Map<u16, Seq<Opcode>>,
    memory: Seq<u8>,
    program_size: nat,
) -> Seq<Seq<char>> {
    Seq::new(
        (program_size + 1) / 2,
        |i: int| disassemble(table, word_at(memory, PROGRAM_START + 2 * i)),
    )
}

/// Whether `listing` holds the texts `model`, one for one.
pub open spec fn is_listing(listing: Seq<String>, model: Seq<Seq<char>>) -> bool {
    &&& listing.len() == model.len()
    &&& forall|i: int| 0 <= i < listing.len() ==> (#[trigger] listing[i])@ == model[i]
}

/// Appends the text for register `i`.
fn append_register(text: &mut String, i: u16)
    ensures
        final(text)@ == old(text)@ + register_text(i as nat),
{
    text.append("register[");
    append_decimal(text, i);
    text.append("]");
}

/// Renders the mnemonic of `operation` for the instruction word `opcode`.
pub fn display(operation: Operation, opcode: u16) -> (text: String)
    ensures
        text@ == mnemonic(operation, opcode),
{
    let x = get_bit(opcode, 2) as u16;
    let y = get_bit(opcode, 1) as u16;
    let n = get_bit(opcode, 0) as u16;
    let nn = low_byte(opcode) as u16;
    let nnn = address(opcode);
    let text = match operation {
        Operation::ClearDisplay => {
            let mut text = String::from_str("disp_clear()");
            text
        },
        Operation::Return => {
            let mut text = String::from_str("return");
            text
        },
        Operation::MachineCall => {
            let mut text = String::from_str("call");
            text
        },
        Operation::Jump => {
            let mut text = String::from_str("goto ");
            append_hex(&mut text, nnn);
            text
        },
        Operation::Call => {
            let mut text = String::from_str("call ");
            append_hex(&mut text, nnn);
            text
        },
        Operation::SkipEqual => {
            let mut text = String::from_str("if ");
            append_register(&mut text, x);
            text.append(" == ");
            append_decimal(&mut text, nn);
            text
        },
        Operation::SkipNotEqual => {
            let mut text = String::from_str("if ");
            append_register(&mut text, x);
            text.append(" != ");
            append_decimal(&mut text, nn);
            text
        },
        Operation::SkipRegistersEqual => {
            let mut text = String::from_str("if ");
            append_register(&mut text, x);
            text.append(" != ");
            append_register(&mut text, y);
            text
        },
        Operation::SetRegister => {
            let mut text = String::new();
            append_register(&mut text, x);
            text.append(" = ");
            append_decimal(&mut text, nn);
            text
        },
        Operation::AddImmediate => {
            let mut text = String::new();
            append_register(&mut text, x);
            text.append(" += ");
            append_decimal(&mut text, nn);
            text
        },
        Operation::Copy => {
            let mut text = String::new();
            append_register(&mut text, x);
            text.append(" = ");
            append_register(&mut text, y);
            text
        },
        Operation::Or => {
            let mut text = String::new();
            append_register(&mut text, x);
            text.append(" = ");
            append_register(&mut text, x);
            text.append(" or ");
            append_register(&mut text, y);
            text
        },
        Operation::And => {
            let mut text = String::new();
            append_register(&mut text, x);
            text.append(" = ");
            append_register(&mut text, x);
            text.append(" and ");
            append_register(&mut text, y);
            text
        },
        Operation::Xor => {
            let mut text = String::new();
            append_register(&mut text, x);
            text.append(" = ");
            append_register(&mut text, x);
            text.append(" xor ");
            append_register(&mut text, y);
            text
        },
        Operation::Add => {
            let mut text = String::new();
            append_register(&mut text, x);
            text.append(" +=  ");
            append_register(&mut text, y);
            text
        },
        Operation::Subtract => {
            let mut text = String::new();
            append_register(&mut text, x);
            text.append(" -=  ");
            append_register(&mut text, y);
            text
        },
        Operation::ShiftRight => {
            let mut text = String::new();
            append_register(&mut text, x);
            text.append(" >>= 1");
            text
        },
        Operation::SubtractFrom => {
            let mut text = String::new();
            append_register(&mut text, x);
            text.append(" = ");
            append_register(&mut text, x);
            text.append(" - ");
            append_register(&mut text, y);
            text
        },
        Operation::ShiftLeft => {
            let mut text = String::new();
            append_register(&mut text, x);
            text.append(" <<= 1");
            text
        },
        Operation::SkipRegistersDiffer => {
            let mut text = String::from_str("if ");
            append_register(&mut text, x);
            text.append(" != ");
            append_register(&mut text, y);
            text
        },
        Operation::SetIndex => {
            let mut text = String::from_str("I = ");
            append_decimal(&mut text, nnn);
            text
        },
        Operation::Draw => {
            let mut text = String::from_str("draw(");
            append_register(&mut text, x);
            text.append(", ");
            append_register(&mut text, y);
            text.append(" , ");
            append_decimal(&mut text, n);
            text.append(")");
            text
        },
        Operation::SkipKeyPressed => {
            let mut text = String::from_str("if(key() == ");
            append_register(&mut text, x);
            text
        },
        Operation::SkipKeyReleased => {
            let mut text = String::from_str("if(key() != ");
            append_register(&mut text, x);
            text
        },
        Operation::GetDelay => {
            let mut text = String::new();
            append_register(&mut text, x);
            text.append(" = get_delay");
            text
        },
        Operation::WaitKey => {
            let mut text = String::new();
            append_register(&mut text, x);
            text.append(" = get_key");
            text
        },
        Operation::SetDelay => {
            let mut text = String::from_str("delay_timer(");
            append_register(&mut text, x);
            text.append(" )");
            text
        },
        Operation::SetSound => {
            let mut text = String::from_str("sound_timer(");
            append_register(&mut text, x);
            text.append(" )");
            text
        },
        Operation::AddIndex => {
            let mut text = String::from_str("I +=");
            append_register(&mut text, x);
            text
        },
        Operation::FontAddress => {
            let mut text = String::from_str("I = sprite_addr[");
            append_register(&mut text, x);
            text.append("]");
            text
        },
        Operation::Bcd => {
            let mut text = String::from_str("set_BCD(");
            append_register(&mut text, x);
            text.append(")");
            text
        },
        Operation::RegisterDump => {
            let mut text = String::from_str("reg_dump(");
            append_register(&mut text, x);
            text.append(",&I) ");
            text
        },
        Operation::RegisterLoad => {
            let mut text = String::from_str("reg_load(");
            append_register(&mut text, x);
            text.append(",&I) ");
            text
        },
    };
    text
}

/// Renders the text for an instruction word under `table`; never fails.
pub fn disassemble_word(table: &HashMap<u16, Vec<Opcode>>, opcode: u16) -> (text: String)
    ensures
        text@ == disassemble(table_model(table), opcode),
{
    match get_opcode(table, opcode) {
        Ok(entry) => display(entry.operation, opcode),
        Err(message) => message,
    }
}

/// Composes an instruction word from its two bytes, the high one first.
pub fn compose(high: u8, low: u8) -> (word: u16)
    ensures
        word == (high as u16) << 8 | low as u16,
{
    (high as u16) << 8 | low as u16
}

impl Machine {
    /// The listing of the loaded program under `table`: one text for each
    /// pair of bytes from the start of the program to its end, whatever the
    /// program's control flow.
    pub fn source_code_with(&self, table: &HashMap<u16, Vec<Opcode>>) -> (listing: Vec<String>)
        requires
            self@.program_fits(),
        ensures
            is_listing(
                listing@,
                listing_model(table_model(table), self@.memory, self@.program_size),
            ),
    {
        let mut listing: Vec<String> = Vec::new();
        let mut pc: usize = 0;
        while pc < self.program_size
            invariant
                self@.program_fits(),
                pc % 2 == 0,
                pc <= self.program_size + 1,
                listing@.len() == pc / 2,
                forall|i: int|
                    0 <= i < listing@.len() ==> (#[trigger] listing@[i])@ == disassemble(
                        table_model(table),
                        word_at(self@.memory, PROGRAM_START + 2 * i),
                    ),
            decreases self.program_size + 1 - pc,
        {
            let opcode = compose(self.memory[pc + 0x200], self.memory[pc + 0x201]);
            listing.push(disassemble_word(table, opcode));
            pc += 2;
        }
        listing
    }

    /// The listing of the loaded program under the machine's opcode table,
    /// which is built for this one call.
    pub fn get_source_code(&self) -> (listing: Vec<String>)
        requires
            self@.program_fits(),
        ensures
            is_listing(listing@, listing_model(opcode_table(), self@.memory, self@.program_size)),
    {
        let table = create_opcodes();
        self.source_code_with(&table)
    }
}

} // verus!
