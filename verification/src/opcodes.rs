//! The opcode table and the dispatcher that selects an entry for an
//! instruction word.

use std::collections::HashMap;
use vstd::prelude::*;
use crate::bits::nibble;
use crate::text::{append_hex, hex};

verus! {

/// What an instruction does: one variant for each entry of the opcode
/// table. A variant stands for both behaviours of its entry, executing and
/// disassembling.
#[derive(Clone, Copy, Debug, PartialEq, Eq, Structural)]
pub enum Operation {
    /// `00E0`: clear the display.
    ClearDisplay,
    /// `00EE`: return from a subroutine.
    Return,
    /// `0NNN`: call a machine-code routine; has no behaviour.
    MachineCall,
    /// `1NNN`: jump.
    Jump,
    /// `2NNN`: call a subroutine.
    Call,
    /// `3XNN`: skip if `register[X] == NN`.
    SkipEqual,
    /// `4XNN`: skip if `register[X] != NN`.
    SkipNotEqual,
    /// `5XY_`: skip if `register[X] == register[Y]`.
    SkipRegistersEqual,
    /// `6XNN`: `register[X] = NN`.
    SetRegister,
    /// `7XNN`: `register[X] += NN`.
    AddImmediate,
    /// `8XY0`: `register[X] = register[Y]`.
    Copy,
    /// `8XY1`: `register[X] |= register[Y]`.
    Or,
    /// `8XY2`: `register[X] &= register[Y]`.
    And,
    /// `8XY3`: `register[X] ^= register[Y]`.
    Xor,
    /// `8XY4`: `register[X] += register[Y]` with carry in the flag register.
    Add,
    /// `8XY5`: `register[X] -= register[Y]`; has no behaviour.
    Subtract,
    /// `8XY6`: shift `register[X]` right by one.
    ShiftRight,
    /// `8XY7`: `register[X] = register[Y] - register[X]` with borrow in the
    /// flag register.
    SubtractFrom,
    /// `8XYE`: shift `register[X]` left by one.
    ShiftLeft,
    /// `9XY_`: skip if `register[X] != register[Y]`.
    SkipRegistersDiffer,
    /// `ANNN`: `index = NNN`.
    SetIndex,
    /// `DXYN`: draw a sprite.
    Draw,
    /// `EX9E`: skip if the key in `register[X]` is down; has no behaviour.
    SkipKeyPressed,
    /// `EXA1`: skip if the key in `register[X]` is up; has no behaviour.
    SkipKeyReleased,
    /// `FX07`: read the delay timer; has no behaviour.
    GetDelay,
    /// `FX0A`: wait for a key; has no behaviour.
    WaitKey,
    /// `FX15`: set the delay timer; has no behaviour.
    SetDelay,
    /// `FX18`: set the sound timer; has no behaviour.
    SetSound,
    /// `FX1E`: `index += register[X]`.
    AddIndex,
    /// `FX29`: point `index` at the glyph for `register[X]`.
    FontAddress,
    /// `FX33`: store `register[X]` as decimal digits; has no behaviour.
    Bcd,
    /// `FX55`: store the registers up to `X` in memory.
    RegisterDump,
    /// `FX65`: load the registers up to `X` from memory.
    RegisterLoad,
}

/// An entry of the opcode table: it is chosen for the instruction words
/// `w` with `w & mask == value`.
#[derive(Clone, Copy, Debug, PartialEq, Eq, Structural)]
pub struct Opcode {
    pub mask: u16,
    pub value: u16,
    pub operation: Operation,
}

impl Opcode {
    /// Whether this entry is chosen for `word`.
    pub open spec fn matches(self, word: u16) -> bool {
        word & self.mask == self.value
    }
}

/// The bucket key of an instruction word: the word with all but its high
/// nibble cleared.
pub open spec fn bucket_key(word: u16) -> u16 {
    word & 0xF000
}

/// The model of an opcode table: the entries of each bucket, in the order
/// in which they are tried.
pub open spec fn table_model(table: &HashMap<u16, Vec<Opcode>>) -> Map<u16, Seq<Opcode>> {
    Map::new(|key: u16| table@.contains_key(key), |key: u16| table@[key]@)
}

/// The opcode table of this machine.
pub open spec fn opcode_table() -> Map<u16, Seq<Opcode>> {
    Map::empty().insert(
        0x0000u16,
        seq![
            Opcode { mask: 0xFF, value: 0xE0, operation: Operation::ClearDisplay },
            Opcode { mask: 0xFF, value: 0xEE, operation: Operation::Return },
            Opcode { mask: 0x000, value: 0x000, operation: Operation::MachineCall },
        ],
    ).insert(
        0x1000u16,
        seq![
            Opcode { mask: 0x0, value: 0x0, operation: Operation::Jump },
        ],
    ).insert(
        0x2000u16,
        seq![
            Opcode { mask: 0x0, value: 0x0, operation: Operation::Call },
        ],
    ).insert(
        0x3000u16,
        seq![
            Opcode { mask: 0x0, value: 0x0, operation: Operation::SkipEqual },
        ],
    ).insert(
        0x4000u16,
        seq![
            Opcode { mask: 0x0, value: 0x0, operation: Operation::SkipNotEqual },
        ],
    ).insert(
        0x5000u16,
        seq![
            Opcode { mask: 0x0, value: 0x0, operation: Operation::SkipRegistersEqual },
        ],
    ).insert(
        0x6000u16,
        seq![
            Opcode { mask: 0x0, value: 0x0, operation: Operation::SetRegister },
        ],
    ).insert(
        0x7000u16,
        seq![
            Opcode { mask: 0x0, value: 0x0, operation: Operation::AddImmediate },
        ],
    ).insert(
        0x8000u16,
        seq![
            Opcode { mask: 0xF, value: 0x0, operation: Operation::Copy },
            Opcode { mask: 0xF, value: 0x1, operation: Operation::Or },
            Opcode { mask: 0xF, value: 0x2, operation: Operation::And },
            Opcode { mask: 0xF, value: 0x3, operation: Operation::Xor },
            Opcode { mask: 0xF, value: 0x4, operation: Operation::Add },
            Opcode { mask: 0xF, value: 0x5, operation: Operation::Subtract },
            Opcode { mask: 0xF, value: 0x6, operation: Operation::ShiftRight },
            Opcode { mask: 0xF, value: 0x7, operation: Operation::SubtractFrom },
            Opcode { mask: 0xF, value: 0xE, operation: Operation::ShiftLeft },
        ],
    ).insert(
        0x9000u16,
        seq![
            Opcode { mask: 0x0, value: 0x0, operation: Operation::SkipRegistersDiffer },
        ],
    ).insert(
        0xA000u16,
        seq![
            Opcode { mask: 0x0, value: 0x0, operation: Operation::SetIndex },
        ],
    ).insert(
        0xD000u16,
        seq![
            Opcode { mask: 0x0, value: 0x0, operation: Operation::Draw },
        ],
    ).insert(
        0xE000u16,
        seq![
            Opcode { mask: 0xFF, value: 0x9E, operation: Operation::SkipKeyPressed },
            Opcode { mask: 0xFF, value: 0xA1, operation: Operation::SkipKeyReleased },
        ],
    ).insert(
        0xF000u16,
        seq![
            Opcode { mask: 0xFF, value: 0x07, operation: Operation::GetDelay },
            Opcode { mask: 0xFF, value: 0x0A, operation: Operation::WaitKey },
            Opcode { mask: 0xFF, value: 0x15, operation: Operation::SetDelay },
            Opcode { mask: 0xFF, value: 0x18, operation: Operation::SetSound },
            Opcode { mask: 0xFF, value: 0x1E, operation: Operation::AddIndex },
            Opcode { mask: 0xFF, value: 0x29, operation: Operation::FontAddress },
            Opcode { mask: 0xFF, value: 0x33, operation: Operation::Bcd },
            Opcode { mask: 0xFF, value: 0x55, operation: Operation::RegisterDump },
            Opcode { mask: 0xFF, value: 0x65, operation: Operation::RegisterLoad },
        ],
    )
}

/// A table is well formed if every key is a bucket key, every entry can
/// match (its value has no bit outside its mask, and its mask leaves the
/// high nibble alone), and an entry that matches every word is the last of
/// its bucket.
pub open spec fn table_wf(table: Map<u16, Seq<Opcode>>) -> bool {
    forall|key: u16|
        #![trigger table.contains_key(key)]
        table.contains_key(key) ==> {
            &&& key & 0x0FFF == 0
            &&& forall|i: int|
                #![trigger table[key][i]]
                0 <= i < table[key].len() ==> {
                    &&& table[key][i].value & table[key][i].mask == table[key][i].value
                    &&& table[key][i].mask & 0xF000 == 0
                    &&& table[key][i].mask == 0 ==> i == table[key].len() - 1
                }
        }
}

/// The first entry of `bucket` at or after position `start` that matches
/// `word`.
pub open spec fn first_match_from(bucket: Seq<Opcode>, word: u16, start: int) -> Option<Opcode>
    decreases bucket.len() - start,
{
    if start < 0 || start >= bucket.len() {
        None
    } else if bucket[start].matches(word) {
        Some(bucket[start])
    } else {
        first_match_from(bucket, word, start + 1)
    }
}

/// The entry that `table` selects for `word`: the first match in the
/// bucket of the word's high nibble, if that bucket exists and holds one.
pub open spec fn lookup(table: Map<u16, Seq<Opcode>>, word: u16) -> Option<Opcode> {
    if table.contains_key(bucket_key(word)) {
        first_match_from(table[bucket_key(word)], word, 0)
    } else {
        None
    }
}

/// The message for an instruction word that the table does not know.
pub open spec fn unknown_message(word: u16) -> Seq<char> {
    "Unknown sub instruction "@ + hex(word as nat)
}

/// Builds the opcode table.
pub fn create_opcodes() -> (opcodes: HashMap<u16, Vec<Opcode>>)
    ensures
        table_model(&opcodes) == opcode_table(),
{
    broadcast use vstd::std_specs::hash::group_hash_axioms;

    let mut opcodes: HashMap<u16, Vec<Opcode>> = HashMap::new();
    opcodes.insert(
        0x0000u16,
        vec![
            Opcode { mask: 0xFF, value: 0xE0, operation: Operation::ClearDisplay },
            Opcode { mask: 0xFF, value: 0xEE, operation: Operation::Return },
            Opcode { mask: 0x000, value: 0x000, operation: Operation::MachineCall },
        ],
    );
    opcodes.insert(
        0x1000u16,
        vec![
            Opcode { mask: 0x0, value: 0x0, operation: Operation::Jump },
        ],
    );
    opcodes.insert(
        0x2000u16,
        vec![
            Opcode { mask: 0x0, value: 0x0, operation: Operation::Call },
        ],
    );
    opcodes.insert(
        0x3000u16,
        vec![
            Opcode { mask: 0x0, value: 0x0, operation: Operation::SkipEqual },
        ],
    );
    opcodes.insert(
        0x4000u16,
        vec![
            Opcode { mask: 0x0, value: 0x0, operation: Operation::SkipNotEqual },
        ],
    );
    opcodes.insert(
        0x5000u16,
        vec![
            Opcode { mask: 0x0, value: 0x0, operation: Operation::SkipRegistersEqual },
        ],
    );
    opcodes.insert(
        0x6000u16,
        vec![
            Opcode { mask: 0x0, value: 0x0, operation: Operation::SetRegister },
        ],
    );
    opcodes.insert(
        0x7000u16,
        vec![
            Opcode { mask: 0x0, value: 0x0, operation: Operation::AddImmediate },
        ],
    );
    opcodes.insert(
        0x8000u16,
        vec![
            Opcode { mask: 0xF, value: 0x0, operation: Operation::Copy },
            Opcode { mask: 0xF, value: 0x1, operation: Operation::Or },
            Opcode { mask: 0xF, value: 0x2, operation: Operation::And },
            Opcode { mask: 0xF, value: 0x3, operation: Operation::Xor },
            Opcode { mask: 0xF, value: 0x4, operation: Operation::Add },
            Opcode { mask: 0xF, value: 0x5, operation: Operation::Subtract },
            Opcode { mask: 0xF, value: 0x6, operation: Operation::ShiftRight },
            Opcode { mask: 0xF, value: 0x7, operation: Operation::SubtractFrom },
            Opcode { mask: 0xF, value: 0xE, operation: Operation::ShiftLeft },
        ],
    );
    opcodes.insert(
        0x9000u16,
        vec![
            Opcode { mask: 0x0, value: 0x0, operation: Operation::SkipRegistersDiffer },
        ],
    );
    opcodes.insert(
        0xA000u16,
        vec![
            Opcode { mask: 0x0, value: 0x0, operation: Operation::SetIndex },
        ],
    );
    opcodes.insert(
        0xD000u16,
        vec![
            Opcode { mask: 0x0, value: 0x0, operation: Operation::Draw },
        ],
    );
    opcodes.insert(
        0xE000u16,
        vec![
            Opcode { mask: 0xFF, value: 0x9E, operation: Operation::SkipKeyPressed },
            Opcode { mask: 0xFF, value: 0xA1, operation: Operation::SkipKeyReleased },
        ],
    );
    opcodes.insert(
        0xF000u16,
        vec![
            Opcode { mask: 0xFF, value: 0x07, operation: Operation::GetDelay },
            Opcode { mask: 0xFF, value: 0x0A, operation: Operation::WaitKey },
            Opcode { mask: 0xFF, value: 0x15, operation: Operation::SetDelay },
            Opcode { mask: 0xFF, value: 0x18, operation: Operation::SetSound },
            Opcode { mask: 0xFF, value: 0x1E, operation: Operation::AddIndex },
            Opcode { mask: 0xFF, value: 0x29, operation: Operation::FontAddress },
            Opcode { mask: 0xFF, value: 0x33, operation: Operation::Bcd },
            Opcode { mask: 0xFF, value: 0x55, operation: Operation::RegisterDump },
            Opcode { mask: 0xFF, value: 0x65, operation: Operation::RegisterLoad },
        ],
    );
    assert(table_model(&opcodes) =~~= opcode_table());
    opcodes
}

/// Selects the table entry for an instruction word, or says that there is
/// none.
pub fn get_opcode(table: &HashMap<u16, Vec<Opcode>>, opcode: u16) -> (result: Result<
    Opcode,
    String,
>)
    ensures
        match lookup(table_model(table), opcode) {
            Some(entry) => result == Ok::<Opcode, String>(entry),
            None => result is Err && result->Err_0@ == unknown_message(opcode),
        },
{
    broadcast use vstd::std_specs::hash::group_hash_axioms;

    let key = opcode & 0xF000;
    match table.get(&key) {
        Some(bucket) => {
            let mut i: usize = 0;
            while i < bucket.len()
                invariant
                    i <= bucket@.len(),
                    key == bucket_key(opcode),
                    table@.contains_key(key),
                    table@[key] == *bucket,
                    first_match_from(bucket@, opcode, 0) == first_match_from(
                        bucket@,
                        opcode,
                        i as int,
                    ),
                decreases bucket@.len() - i,
            {
                let op = bucket[i];
                if opcode & op.mask == op.value {
                    return Ok(op);
                }
                i += 1;
            }
        },
        None => {},
    }
    let mut message = String::from_str("Unknown sub instruction ");
    append_hex(&mut message, opcode);
    Err(message)
}

/// The operation that `table` selects for `word`.
pub open spec fn dispatch(table: Map<u16, Seq<Opcode>>, word: u16) -> Option<Operation> {
    match lookup(table, word) {
        Some(entry) => Some(entry.operation),
        None => None,
    }
}

/// The operation that an instruction word stands for, read off its
/// nibbles; `None` for a word that is no instruction.
pub open spec fn decode(word: u16) -> Option<Operation> {
    let family = nibble(word, 3);
    let low = word & 0x00FF;
    let last = word & 0x000F;
    if family == 0x0 {
        if low == 0xE0 {
            Some(Operation::ClearDisplay)
        } else if low == 0xEE {
            Some(Operation::Return)
        } else {
            Some(Operation::MachineCall)
        }
    } else if family == 0x1 {
        Some(Operation::Jump)
    } else if family == 0x2 {
        Some(Operation::Call)
    } else if family == 0x3 {
        Some(Operation::SkipEqual)
    } else if family == 0x4 {
        Some(Operation::SkipNotEqual)
    } else if family == 0x5 {
        Some(Operation::SkipRegistersEqual)
    } else if family == 0x6 {
        Some(Operation::SetRegister)
    } else if family == 0x7 {
        Some(Operation::AddImmediate)
    } else if family == 0x8 {
        if last == 0x0 {
            Some(Operation::Copy)
        } else if last == 0x1 {
            Some(Operation::Or)
        } else if last == 0x2 {
            Some(Operation::And)
        } else if last == 0x3 {
            Some(Operation::Xor)
        } else if last == 0x4 {
            Some(Operation::Add)
        } else if last == 0x5 {
            Some(Operation::Subtract)
        } else if last == 0x6 {
            Some(Operation::ShiftRight)
        } else if last == 0x7 {
            Some(Operation::SubtractFrom)
        } else if last == 0xE {
            Some(Operation::ShiftLeft)
        } else {
            None
        }
    } else if family == 0x9 {
        Some(Operation::SkipRegistersDiffer)
    } else if family == 0xA {
        Some(Operation::SetIndex)
    } else if family == 0xD {
        Some(Operation::Draw)
    } else if family == 0xE {
        if low == 0x9E {
            Some(Operation::SkipKeyPressed)
        } else if low == 0xA1 {
            Some(Operation::SkipKeyReleased)
        } else {
            None
        }
    } else if family == 0xF {
        if low == 0x07 {
            Some(Operation::GetDelay)
        } else if low == 0x0A {
            Some(Operation::WaitKey)
        } else if low == 0x15 {
            Some(Operation::SetDelay)
        } else if low == 0x18 {
            Some(Operation::SetSound)
        } else if low == 0x1E {
            Some(Operation::AddIndex)
        } else if low == 0x29 {
            Some(Operation::FontAddress)
        } else if low == 0x33 {
            Some(Operation::Bcd)
        } else if low == 0x55 {
            Some(Operation::RegisterDump)
        } else if low == 0x65 {
            Some(Operation::RegisterLoad)
        } else {
            None
        }
    } else {
        None
    }
}

/// What the first match is: it stands in the bucket at or after `start`,
/// it matches, and no entry between `start` and it does; and where there is
/// no first match, no entry at or after `start` matches.
pub proof fn lemma_first_match(bucket: Seq<Opcode>, word: u16, start: int)
    requires
        0 <= start,
    ensures
        match first_match_from(bucket, word, start) {
            Some(entry) => exists|i: int|
                {
                    &&& start <= i < bucket.len()
                    &&& #[trigger] bucket[i] == entry
                    &&& entry.matches(word)
                    &&& forall|j: int| start <= j < i ==> !(#[trigger] bucket[j]).matches(word)
                },
            None => forall|j: int|
                start <= j < bucket.len() ==> !(#[trigger] bucket[j]).matches(word),
        },
    decreases bucket.len() - start,
{
    if start < bucket.len() && !bucket[start].matches(word) {
        lemma_first_match(bucket, word, start + 1);
    }
}

/// The opcode table is well formed.
pub proof fn lemma_opcode_table_wf()
    ensures
        table_wf(opcode_table()),
{
    assert(0x0000u16 & 0x0FFF == 0 && 0x1000u16 & 0x0FFF == 0 && 0x2000u16 & 0x0FFF == 0 && 0x3000u16
        & 0x0FFF == 0 && 0x4000u16 & 0x0FFF == 0 && 0x5000u16 & 0x0FFF == 0 && 0x6000u16 & 0x0FFF
        == 0 && 0x7000u16 & 0x0FFF == 0 && 0x8000u16 & 0x0FFF == 0 && 0x9000u16 & 0x0FFF == 0
        && 0xA000u16 & 0x0FFF == 0 && 0xD000u16 & 0x0FFF == 0 && 0xE000u16 & 0x0FFF == 0
        && 0xF000u16 & 0x0FFF == 0) by (bit_vector);
    assert(forall|value: u16, mask: u16|
        (mask == 0xFF || mask == 0xF) && value <= mask ==> #[trigger] (value & mask) == value
            && mask & 0xF000 == 0) by (bit_vector);
    assert(0u16 & 0 == 0 && 0u16 & 0xF000 == 0) by (bit_vector);
    let table = opcode_table();
    assert forall|key: u16| #![trigger table.contains_key(key)] table.contains_key(key) implies {
        &&& key & 0x0FFF == 0
        &&& forall|i: int|
            #![trigger table[key][i]]
            0 <= i < table[key].len() ==> {
                &&& table[key][i].value & table[key][i].mask == table[key][i].value
                &&& table[key][i].mask & 0xF000 == 0
                &&& table[key][i].mask == 0 ==> i == table[key].len() - 1
            }
    } by {
        let bucket = table[key];
        assert forall|i: int| #![trigger bucket[i]] 0 <= i < bucket.len() implies {
            &&& bucket[i].value & bucket[i].mask == bucket[i].value
            &&& bucket[i].mask & 0xF000 == 0
            &&& bucket[i].mask == 0 ==> i == bucket.len() - 1
        } by {}
    }
}

/// Looking an instruction word up in the opcode table gives the operation
/// that the word's nibbles stand for.
pub proof fn lemma_dispatch_is_decode(word: u16)
    ensures
        dispatch(opcode_table(), word) == decode(word),
{
    reveal_with_fuel(first_match_from, 10);
    assert({
        &&& word & 0 == 0
        &&& (word >> 12) & 0xF == 0x0 <==> word & 0xF000 == 0x0000
        &&& (word >> 12) & 0xF == 0x1 <==> word & 0xF000 == 0x1000
        &&& (word >> 12) & 0xF == 0x2 <==> word & 0xF000 == 0x2000
        &&& (word >> 12) & 0xF == 0x3 <==> word & 0xF000 == 0x3000
        &&& (word >> 12) & 0xF == 0x4 <==> word & 0xF000 == 0x4000
        &&& (word >> 12) & 0xF == 0x5 <==> word & 0xF000 == 0x5000
        &&& (word >> 12) & 0xF == 0x6 <==> word & 0xF000 == 0x6000
        &&& (word >> 12) & 0xF == 0x7 <==> word & 0xF000 == 0x7000
        &&& (word >> 12) & 0xF == 0x8 <==> word & 0xF000 == 0x8000
        &&& (word >> 12) & 0xF == 0x9 <==> word & 0xF000 == 0x9000
        &&& (word >> 12) & 0xF == 0xA <==> word & 0xF000 == 0xA000
        &&& (word >> 12) & 0xF == 0xB <==> word & 0xF000 == 0xB000
        &&& (word >> 12) & 0xF == 0xC <==> word & 0xF000 == 0xC000
        &&& (word >> 12) & 0xF == 0xD <==> word & 0xF000 == 0xD000
        &&& (word >> 12) & 0xF == 0xE <==> word & 0xF000 == 0xE000
        &&& (word >> 12) & 0xF == 0xF <==> word & 0xF000 == 0xF000
        &&& (word >> 12) & 0xF < 16
    }) by (bit_vector);
}

} // verus!
