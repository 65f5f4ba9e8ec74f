//! Rendering numbers as text, for mnemonics and diagnostics.

use vstd::prelude::*;

verus! {

/// The character of the digit `d`, in lower case above nine.
pub open spec fn digit_char(d: nat) -> char {
    if d == 0 {
        '0'
    } else if d == 1 {
        '1'
    } else if d == 2 {
        '2'
    } else if d == 3 {
        '3'
    } else if d == 4 {
        '4'
    } else if d == 5 {
        '5'
    } else if d == 6 {
        '6'
    } else if d == 7 {
        '7'
    } else if d == 8 {
        '8'
    } else if d == 9 {
        '9'
    } else if d == 10 {
        'a'
    } else if d == 11 {
        'b'
    } else if d == 12 {
        'c'
    } else if d == 13 {
        'd'
    } else if d == 14 {
        'e'
    } else {
        'f'
    }
}

/// `n` in decimal: most significant digit first, no leading zeros, a
/// single `0` for zero.
pub open spec fn decimal(n: nat) -> Seq<char>
    decreases n,
{
    if n < 10 {
        seq![digit_char(n)]
    } else {
        decimal(n / 10).push(digit_char(n % 10))
    }
}

/// The hexadecimal digits of `n` in lower case: most significant digit
/// first, no leading zeros, a single `0` for zero.
pub open spec fn hex_digits(n: nat) -> Seq<char>
    decreases n,
{
    if n < 16 {
        seq![digit_char(n)]
    } else {
        hex_digits(n / 16).push(digit_char(n % 16))
    }
}

/// `n` in lower-case hexadecimal behind the prefix `0x`.
pub open spec fn hex(n: nat) -> Seq<char> {
    seq!['0', 'x'] + hex_digits(n)
}

/// The one-character text of the digit `d`.
pub fn digit_str(d: u8) -> (text: &'static str)
    requires
        d < 16,
    ensures
        text@ == seq![digit_char(d as nat)],
{
    proof {
        reveal_strlit("0");
        reveal_strlit("1");
        reveal_strlit("2");
        reveal_strlit("3");
        reveal_strlit("4");
        reveal_strlit("5");
        reveal_strlit("6");
        reveal_strlit("7");
        reveal_strlit("8");
        reveal_strlit("9");
        reveal_strlit("a");
        reveal_strlit("b");
        reveal_strlit("c");
        reveal_strlit("d");
        reveal_strlit("e");
        reveal_strlit("f");
    }
    let text = match d {
        0 => "0",
        1 => "1",
        2 => "2",
        3 => "3",
        4 => "4",
        5 => "5",
        6 => "6",
        7 => "7",
        8 => "8",
        9 => "9",
        10 => "a",
        11 => "b",
        12 => "c",
        13 => "d",
        14 => "e",
        _ => "f",
    };
    text
}

/// Appends `n` in decimal to `text`.
pub fn append_decimal(text: &mut String, n: u16)
    ensures
        final(text)@ == old(text)@ + decimal(n as nat),
    decreases n,
{
    if n < 10 {
        text.append(digit_str(n as u8));
    } else {
        append_decimal(text, n / 10);
        text.append(digit_str((n % 10) as u8));
    }
}

/// Appends the hexadecimal digits of `n` to `text`.
pub fn append_hex_digits(text: &mut String, n: u16)
    ensures
        final(text)@ == old(text)@ + hex_digits(n as nat),
    decreases n,
{
    if n < 16 {
        text.append(digit_str(n as u8));
    } else {
        append_hex_digits(text, n / 16);
        text.append(digit_str((n % 16) as u8));
    }
}

/// Appends `n` in hexadecimal, behind the prefix `0x`, to `text`.
pub fn append_hex(text: &mut String, n: u16)
    ensures
        final(text)@ == old(text)@ + hex(n as nat),
{
    proof {
        reveal_strlit("0x");
    }
    text.append("0x");
    append_hex_digits(text, n);
}

/// `text` filled up on the left with `fill` to `width` characters; `text`
/// itself if it is that long already.
pub open spec fn padded(text: Seq<char>, width: nat, fill: char) -> Seq<char> {
    if text.len() >= width {
        text
    } else {
        Seq::new((width - text.len()) as nat, |i: int| fill) + text
    }
}

/// `n` in hexadecimal with at least two digits, behind the prefix `0x`.
pub open spec fn hex_padded(n: nat) -> Seq<char> {
    seq!['0', 'x'] + padded(hex_digits(n), 2, '0')
}

/// The number of decimal digits of `n`.
pub fn decimal_len(n: u16) -> (len: usize)
    ensures
        len == decimal(n as nat).len(),
        1 <= len <= 5,
{
    reveal_with_fuel(decimal, 5);
    if n < 10 {
        1
    } else if n < 100 {
        2
    } else if n < 1000 {
        3
    } else if n < 10000 {
        4
    } else {
        5
    }
}

/// Appends `n` in decimal, filled up on the left with spaces to `width`
/// characters.
pub fn append_padded_decimal(text: &mut String, n: u16, width: usize)
    ensures
        final(text)@ == old(text)@ + padded(decimal(n as nat), width as nat, ' '),
{
    let len = decimal_len(n);
    let mut filled: usize = len;
    while filled < width
        invariant
            len == decimal(n as nat).len(),
            len <= filled,
            filled <= width || filled == len,
            text@ == old(text)@ + Seq::new((filled - len) as nat, |i: int| ' '),
        decreases width - filled,
    {
        proof {
            reveal_strlit(" ");
        }
        text.append(" ");
        filled += 1;
    }
    append_decimal(text, n);
}

/// Appends `n` in hexadecimal with at least two digits, behind the prefix
/// `0x`.
pub fn append_padded_hex(text: &mut String, n: u16)
    ensures
        final(text)@ == old(text)@ + hex_padded(n as nat),
{
    proof {
        reveal_strlit("0x");
        reveal_strlit("0");
        reveal_with_fuel(hex_digits, 2);
    }
    text.append("0x");
    if n < 16 {
        text.append("0");
    }
    append_hex_digits(text, n);
}

} // verus!
