//! Nibble and bit extraction from instruction words and sprite bytes.

use vstd::prelude::*;

verus! {

/// Nibble `index` of `word`, counted from the least significant nibble.
pub open spec fn nibble(word: u16, index: nat) -> u8 {
    ((word >> (4 * index)) & 0xF) as u8
}

/// Bit `index` of `byte`, counted from the least significant bit, as 0 or 1.
pub open spec fn bit(byte: u8, index: nat) -> u8 {
    (byte >> index) & 1
}

/// A nibble is the matching hexadecimal digit of the word.
pub proof fn lemma_nibble_is_hex_digit(word: u16, index: nat)
    requires
        index < 4,
    ensures
        nibble(word, index) < 16,
        index == 0 ==> nibble(word, index) == word % 16,
        index == 1 ==> nibble(word, index) == (word / 16) % 16,
        index == 2 ==> nibble(word, index) == (word / 256) % 16,
        index == 3 ==> nibble(word, index) == word / 4096,
{
    assert((word >> 0) & 0xF == word % 16) by (bit_vector);
    assert((word >> 4) & 0xF == (word / 16) % 16) by (bit_vector);
    assert((word >> 8) & 0xF == (word / 256) % 16) by (bit_vector);
    assert((word >> 12) & 0xF == word / 4096) by (bit_vector);
}

/// Extracts nibble `index` of an instruction word.
pub fn get_bit(opcode: u16, index: usize) -> (digit: u8)
    requires
        index < 4,
    ensures
        digit == nibble(opcode, index as nat),
        digit == (opcode >> (4 * index)) & 0xF,
        digit < 16,
{
    let shift: u16 = (index * 4) as u16;
    assert((opcode & (0x000Fu16 << shift)) >> shift == (opcode >> shift) & 0xF) by (bit_vector)
        requires
            shift < 16,
    ;
    assert((opcode >> shift) & 0xF < 16) by (bit_vector);
    ((opcode & (0x000Fu16 << shift)) >> shift) as u8
}

/// Extracts bit `index` of a byte as 0 or 1.
pub fn extract_bit(byte: u8, index: usize) -> (b: u8)
    requires
        index < 8,
    ensures
        b == bit(byte, index as nat),
        b <= 1,
{
    let shift: u8 = index as u8;
    assert(1 & (byte >> shift) == (byte >> shift) & 1 && (byte >> shift) & 1 <= 1) by (bit_vector);
    1 & (byte >> shift)
}

} // verus!
