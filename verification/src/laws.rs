//! What holds of every cycle: laws of the instruction set, stated over the
//! model and proved from the transitions.

use vstd::prelude::*;
use crate::bits::lemma_nibble_is_hex_digit;
use crate::cycle::{apply, can_fetch, fetch, step, step_with};
use crate::machine::{
    initial_memory, Fault, Machine, State, CHIP8_FONTSET, FLAG, FONT_SIZE, HEIGHT, PIXEL_ON,
    REGISTER_COUNT, WIDTH,
};
use crate::ops::after_font_address;
use crate::opcodes::{decode, dispatch, Opcode, Operation};

verus! {

impl Machine {
    /// The model of a machine is always well formed.
    pub proof fn lemma_view_wf(&self)
        ensures
            self@.wf(),
    {
    }
}

/// A cycle keeps the invariant of the machine, and keeps the size of the
/// loaded program.
pub proof fn law_step_preserves_valid(s: State)
    requires
        s.valid(),
    ensures
        step(s).valid(),
        step(s).program_size == s.program_size,
{
    if !s.stop && can_fetch(s) {
        let word = fetch(s);
        lemma_nibble_is_hex_digit(word, 2);
        lemma_nibble_is_hex_digit(word, 1);
        let after = step(s);
        assert forall|row: int, col: int| 0 <= row < HEIGHT && 0 <= col < WIDTH implies {
            ||| #[trigger] after.video_mem[row][col] == 0
            ||| after.video_mem[row][col] == PIXEL_ON
        } by {
            assert(0u8 ^ 0xFF == 0xFF && 0xFFu8 ^ 0xFF == 0) by (bit_vector);
        }
    }
}

/// The program counter stays even: if it is even, and so is every return
/// address on the stack, then after a cycle that is no jump or call to an
/// odd address both hold again.
pub proof fn law_step_keeps_alignment(s: State)
    requires
        s.valid(),
        s.aligned(),
        !s.stop && can_fetch(s) && (decode(fetch(s)) == Some(Operation::Jump) || decode(fetch(s))
            == Some(Operation::Call)) ==> (fetch(s) & 0x0FFF) % 2 == 0,
    ensures
        step(s).aligned(),
{
    if !s.stop && can_fetch(s) {
        let word = fetch(s);
    }
}

/// A halted machine executes nothing: a cycle leaves it as it is.
pub proof fn law_halted_stays(s: State)
    requires
        s.stop,
    ensures
        step(s) == s,
{
}

/// Register add sets the flag register to 1 exactly when the sum of the
/// two registers exceeds 255, and to 0 otherwise; and unless the target is
/// the flag register itself, the target holds the sum modulo 256.
pub proof fn law_add_wraps_and_carries(s: State)
    requires
        s.wf(),
    ensures
        ({
            let sum = s.register[s.x()] + s.register[s.y()];
            let after = apply(Operation::Add, s);
            &&& after.register[FLAG as int] == if sum > 255 {
                1u8
            } else {
                0u8
            }
            &&& s.x() != FLAG ==> after.register[s.x()] == sum % 256
            &&& forall|i: int|
                0 <= i < REGISTER_COUNT && i != s.x() && i != FLAG ==> after.register[i]
                    == s.register[i]
        }),
{
    lemma_nibble_is_hex_digit(s.opcode, 2);
    lemma_nibble_is_hex_digit(s.opcode, 1);
}

/// The font address of a hexadecimal digit is where its glyph starts: in
/// memory as a fresh machine has it, the five bytes from there on are the
/// rows of that glyph.
pub proof fn law_font_address_points_at_glyph(s: State, program: Seq<u8>, row: int)
    requires
        s.wf(),
        s.register[s.x()] < 16,
        s.memory == initial_memory(program),
        0 <= row < 5,
    ensures
        after_font_address(s).index == 5 * s.register[s.x()],
        after_font_address(s).index + 5 <= FONT_SIZE,
        s.memory[after_font_address(s).index + row] == CHIP8_FONTSET[5 * s.register[s.x()] + row],
{
}

/// A cycle that executes a jump to the address `NNN` leaves the program
/// counter at `NNN`: what the jump subtracts, the advance at the end of
/// the cycle adds.
pub proof fn law_jump_lands_on_target(s: State)
    requires
        !s.stop,
        can_fetch(s),
        decode(fetch(s)) == Some(Operation::Jump),
    ensures
        step(s).pc == fetch(s) & 0x0FFF,
        step(s) == (State { opcode: fetch(s), pc: fetch(s) & 0x0FFF, ..s }),
{
}

/// A cycle that executes a call, followed by a cycle that executes a
/// return, restores the stack pointer, and leaves the program counter at
/// the address that the call pushed, which is the address of the call
/// itself.
pub proof fn law_call_then_return(s: State)
    requires
        s.wf(),
        !s.stop,
        can_fetch(s),
        decode(fetch(s)) == Some(Operation::Call),
        s.sp < REGISTER_COUNT,
        can_fetch(step(s)),
        decode(fetch(step(s))) == Some(Operation::Return),
    ensures
        step(s).sp == s.sp + 1,
        step(s).pc == fetch(s) & 0x0FFF,
        step(step(s)).sp == s.sp,
        step(step(s)).pc == s.pc,
        !step(step(s)).stop,
{
}

/// A cycle on an instruction word that is no instruction halts the
/// machine and leaves registers, memory, framebuffer, stack and index as
/// they were.
pub proof fn law_unknown_instruction_halts(s: State)
    requires
        !s.stop,
        can_fetch(s),
        decode(fetch(s)) is None,
    ensures
        step(s).stop,
        step(s).fault == Some(Fault::UnknownInstruction),
        step(s).register == s.register,
        step(s).memory == s.memory,
        step(s).video_mem == s.video_mem,
        step(s).stack == s.stack,
        step(s).sp == s.sp,
        step(s).index == s.index,
{
}

/// The same under any table: a word for which the table has no bucket, or
/// no matching entry in its bucket, halts the machine and leaves
/// registers, memory and framebuffer as they were.
pub proof fn law_unmatched_instruction_halts(table: Map<u16, Seq<Opcode>>, s: State)
    requires
        !s.stop,
        can_fetch(s),
        dispatch(table, fetch(s)) is None,
    ensures
        step_with(table, s).stop,
        step_with(table, s).fault == Some(Fault::UnknownInstruction),
        step_with(table, s).register == s.register,
        step_with(table, s).memory == s.memory,
        step_with(table, s).video_mem == s.video_mem,
{
}

} // verus!
