//! Bytes of escape sequences: decimal numbers and cursor keys.

use vstd::prelude::*;

verus! {

/// The escape character.
pub const ESC: u8 = 0x1b;

/// `0`, the first of the ten digits.
pub const DIGIT_ZERO: u8 = 0x30;

/// `-`.
pub const MINUS: u8 = 0x2d;

/// `;`, which parts the numbers of a sequence.
pub const SEMICOLON: u8 = 0x3b;

/// `[`, which follows the escape character in a control sequence.
pub const BRACKET: u8 = 0x5b;

/// `<`, which marks a mouse report in the SGR protocol.
pub const LESS_THAN: u8 = 0x3c;

/// `O`, which follows the escape character in the sequence of a cursor key.
pub const LETTER_O: u8 = 0x4f;

/// `A`, the letter of the cursor key that points up.
pub const KEY_UP: u8 = 0x41;

/// `B`, the letter of the cursor key that points down.
pub const KEY_DOWN: u8 = 0x42;

/// The ASCII digit of a value below ten.
pub open spec fn digit(value: nat) -> u8 {
    (DIGIT_ZERO + value) as u8
}

/// The decimal digits of `n`, most significant first; none for zero.
pub open spec fn digits(n: nat) -> Seq<u8>
    decreases n,
{
    if n == 0 {
        Seq::empty()
    } else {
        digits(n / 10).push(digit(n % 10))
    }
}

/// `n` written in decimal, without leading zeros.
pub open spec fn decimal(n: nat) -> Seq<u8> {
    if n == 0 {
        seq![DIGIT_ZERO]
    } else {
        digits(n)
    }
}

/// `n` written in decimal, with a minus sign before a negative number.
pub open spec fn signed_decimal(n: int) -> Seq<u8> {
    if n < 0 {
        seq![MINUS] + decimal((-n) as nat)
    } else {
        decimal(n as nat)
    }
}

/// `count` times the three bytes that a cursor key sends in application
/// mode: escape, `O`, and the key's letter.
pub open spec fn cursor_keys(count: nat, letter: u8) -> Seq<u8>
    decreases count,
{
    if count == 0 {
        Seq::empty()
    } else {
        cursor_keys((count - 1) as nat, letter) + seq![ESC, LETTER_O, letter]
    }
}

/// The letter of the cursor key that scrolls by `delta`: `A`, up, for a
/// positive one and `B`, down, for a negative one.
pub open spec fn scroll_letter(delta: int) -> u8 {
    if delta > 0 {
        KEY_UP
    } else {
        KEY_DOWN
    }
}

/// What a full-screen program is sent in place of a scroll by `delta` lines:
/// one cursor key for each line.
pub open spec fn scroll_keys(delta: int) -> Seq<u8> {
    cursor_keys(vstd::math::abs(delta), scroll_letter(delta))
}

/// A run of cursor keys is three bytes for each key.
pub proof fn cursor_keys_len(count: nat, letter: u8)
    ensures
        cursor_keys(count, letter).len() == 3 * count,
    decreases count,
{
    if count > 0 {
        cursor_keys_len((count - 1) as nat, letter);
    }
}

/// Appends the digits of `n`.
fn push_digits(out: &mut Vec<u8>, n: u128)
    ensures
        final(out)@ == old(out)@ + digits(n as nat),
    decreases n,
{
    if n > 0 {
        push_digits(out, n / 10);
        let low: u8 = (n % 10) as u8;
        out.push(DIGIT_ZERO + low);
        assert(final(out)@ == old(out)@ + digits(n as nat)) by {
            assert(final(out)@ =~= old(out)@ + digits((n / 10) as nat).push(digit((n % 10) as nat)));
        }
    } else {
        assert(final(out)@ =~= old(out)@ + digits(0));
    }
}

/// Appends `n` in decimal.
pub fn push_decimal(out: &mut Vec<u8>, n: u128)
    ensures
        final(out)@ == old(out)@ + decimal(n as nat),
{
    if n == 0 {
        out.push(DIGIT_ZERO);
        assert(final(out)@ =~= old(out)@ + decimal(0));
    } else {
        push_digits(out, n);
    }
}

/// Appends `n` in decimal, with its sign if it is negative.
pub fn push_signed_decimal(out: &mut Vec<u8>, n: i64)
    ensures
        final(out)@ == old(out)@ + signed_decimal(n as int),
{
    if n < 0 {
        out.push(MINUS);
        let wide: i128 = n as i128;
        let magnitude: u128 = (-wide) as u128;
        push_decimal(out, magnitude);
        assert(final(out)@ =~= old(out)@ + signed_decimal(n as int));
    } else {
        push_decimal(out, n as u128);
    }
}

/// The cursor keys that stand for a scroll by `delta` lines.
pub fn scroll_sequence(delta: i32) -> (bytes: Vec<u8>)
    ensures
        bytes@ == scroll_keys(delta as int),
{
    let letter: u8 = if delta > 0 {
        KEY_UP
    } else {
        KEY_DOWN
    };
    let count: u32 = if delta < 0 {
        (-(delta as i64)) as u32
    } else {
        delta as u32
    };
    let mut bytes: Vec<u8> = Vec::new();
    let mut sent: u32 = 0;
    while sent < count
        invariant
            sent <= count,
            bytes@ == cursor_keys(sent as nat, letter),
        decreases count - sent,
    {
        bytes.push(ESC);
        bytes.push(LETTER_O);
        bytes.push(letter);
        sent = sent + 1;
        assert(bytes@ =~= cursor_keys((sent - 1) as nat, letter) + seq![ESC, LETTER_O, letter]);
    }
    bytes
}

} // verus!
