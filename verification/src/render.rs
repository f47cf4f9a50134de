//! The bytes that show a reading: a line of text for a terminal, or a text
//! command for the attached display.
//!
//! A reading is the frequency in decimal, right-aligned in seven columns,
//! followed by " Hz".

use vstd::prelude::*;
use crate::consumer::DisplayMode;

verus! {

/// Columns that the number is right-aligned in.
pub const READING_WIDTH: usize = 7;

/// The decimal digits of `n` in ASCII, most significant first.
pub open spec fn digits(n: nat) -> Seq<u8>
    decreases n,
{
    if n < 10 {
        seq![(48 + n) as u8]
    } else {
        digits(n / 10).push((48 + n % 10) as u8)
    }
}

/// `text` with spaces in front, as many as it takes to fill `width`
/// columns. A longer text is left as it is.
pub open spec fn right_aligned(text: Seq<u8>, width: nat) -> Seq<u8> {
    if text.len() >= width {
        text
    } else {
        Seq::new((width - text.len()) as nat, |i: int| 32u8) + text
    }
}

/// The reading: the number in seven columns, a space, and "Hz".
pub open spec fn reading(frequency: u64) -> Seq<u8> {
    right_aligned(digits(frequency as nat), READING_WIDTH as nat) + seq![32u8, 72u8, 122u8]
}

/// What precedes the reading: a carriage return on the terminal, so that
/// each reading overwrites the last; on the display the text command with
/// the length of a seven-column reading.
pub open spec fn line_prefix(mode: DisplayMode) -> Seq<u8> {
    match mode {
        DisplayMode::Text => seq![13u8],
        DisplayMode::Graphic => seq![0x1bu8, 0x1bu8, 0x0bu8, 0x44u8],
    }
}

/// The bytes that show `frequency` in the given mode.
pub open spec fn line(frequency: u64, mode: DisplayMode) -> Seq<u8> {
    line_prefix(mode) + reading(frequency)
}

/// The bytes sent once at boot. The display is cleared to black, its
/// cursor, font and colours are set, and it is switched to graphics mode;
/// a terminal needs nothing.
pub open spec fn setup(mode: DisplayMode) -> Seq<u8> {
    match mode {
        DisplayMode::Text => Seq::empty(),
        DisplayMode::Graphic => seq![
            0x1bu8, 0x1bu8, 0x02u8, 0x40u8, 0x00u8,
            0x1bu8, 0x1bu8, 0x03u8, 0x30u8, 0x30u8, 0x30u8,
            0x1bu8, 0x1bu8, 0x02u8, 0x31u8, 0x02u8,
            0x1bu8, 0x1bu8, 0x05u8, 0x33u8, 0x00u8, 0x08u8, 0x07u8, 0x0fu8,
            0x1bu8, 0x1bu8, 0x01u8, 0x20u8,
        ],
    }
}

/// The digits of `n`, or nothing where `n` is zero: what is left to write
/// in front of the digits already taken off a number.
pub open spec fn leading_digits(n: nat) -> Seq<u8> {
    if n == 0 {
        Seq::empty()
    } else {
        digits(n)
    }
}

/// Taking the last digit off a number leaves the digits in front of it.
pub proof fn lemma_digits_step(n: nat)
    ensures
        digits(n) == leading_digits(n / 10).push((48 + n % 10) as u8),
{
    if n < 10 {
        assert(digits(n) =~= Seq::<u8>::empty().push((48 + n % 10) as u8));
    }
}

/// A number below two to the sixty-fourth has at most twenty digits.
pub proof fn lemma_digits_len(n: nat)
    ensures
        1 <= digits(n).len(),
        n <= u64::MAX ==> digits(n).len() <= 20,
{
    reveal_with_fuel(digits, 21);
}

/// The decimal digits of `frequency`, least significant first.
fn digits_reversed(frequency: u64) -> (rev: Vec<u8>)
    ensures
        rev@.reverse() == digits(frequency as nat),
        1 <= rev@.len() <= 20,
{
    let mut rev: Vec<u8> = Vec::new();
    let last: u8 = (frequency % 10) as u8;
    rev.push(48 + last);
    let mut rest: u64 = frequency / 10;
    proof {
        lemma_digits_step(frequency as nat);
        assert(rev@.reverse() =~= seq![(48 + frequency % 10) as u8]);
        assert(leading_digits(rest as nat) + rev@.reverse() =~= digits(frequency as nat));
    }
    while rest > 0
        invariant
            leading_digits(rest as nat) + rev@.reverse() == digits(frequency as nat),
            rev@.len() >= 1,
        decreases rest,
    {
        let ghost before = rev@;
        let digit: u8 = (rest % 10) as u8;
        rev.push(48 + digit);
        proof {
            lemma_digits_step(rest as nat);
            assert(rev@.reverse() =~= seq![(48 + rest % 10) as u8] + before.reverse());
            assert(leading_digits((rest / 10) as nat) + rev@.reverse() =~= leading_digits(
                rest as nat,
            ) + before.reverse());
        }
        rest = rest / 10;
    }
    proof {
        assert(leading_digits(0) + rev@.reverse() =~= rev@.reverse());
        lemma_digits_len(frequency as nat);
    }
    rev
}

/// Renders one reading.
pub fn render_line(frequency: u64, mode: DisplayMode) -> (bytes: Vec<u8>)
    ensures
        bytes@ == line(frequency, mode),
{
    let mut bytes: Vec<u8> = Vec::new();
    match mode {
        DisplayMode::Text => {
            bytes.push(13);
        },
        DisplayMode::Graphic => {
            bytes.push(0x1b);
            bytes.push(0x1b);
            bytes.push(0x0b);
            bytes.push(0x44);
        },
    }
    assert(bytes@ =~= line_prefix(mode));
    let rev = digits_reversed(frequency);
    let ghost number = digits(frequency as nat);
    let ghost aligned = right_aligned(number, READING_WIDTH as nat);
    assert(number.len() == rev@.len()) by {
        assert(rev@.reverse().len() == rev@.len());
    }
    let mut columns: usize = rev.len();
    while columns < READING_WIDTH
        invariant
            rev@.len() <= columns <= 20,
            number.len() == rev@.len(),
            columns == rev@.len() || columns <= READING_WIDTH,
            bytes@ == line_prefix(mode) + Seq::new((columns - rev@.len()) as nat, |i: int| 32u8),
        decreases READING_WIDTH - columns,
    {
        bytes.push(32);
        columns = columns + 1;
        assert(bytes@ =~= line_prefix(mode) + Seq::new(
            (columns - rev@.len()) as nat,
            |i: int| 32u8,
        ));
    }
    assert(bytes@ + number =~= line_prefix(mode) + aligned);
    let ghost head = bytes@;
    let mut left: usize = rev.len();
    while left > 0
        invariant
            left <= rev@.len(),
            rev@.reverse() == number,
            bytes@ == head + number.take(rev@.len() - left),
        decreases left,
    {
        left = left - 1;
        bytes.push(rev[left]);
        assert(bytes@ =~= head + number.take(rev@.len() - left));
    }
    assert(number.take(rev@.len() as int) =~= number);
    bytes.push(32);
    bytes.push(72);
    bytes.push(122);
    assert(bytes@ =~= line(frequency, mode));
    bytes
}

/// The bytes to send once at boot, before the first reading.
pub fn render_setup(mode: DisplayMode) -> (bytes: Vec<u8>)
    ensures
        bytes@ == setup(mode),
{
    let mut bytes: Vec<u8> = Vec::new();
    match mode {
        DisplayMode::Text => {},
        DisplayMode::Graphic => {
            // clear to black
            bytes.push(0x1b);
            bytes.push(0x1b);
            bytes.push(0x02);
            bytes.push(0x40);
            bytes.push(0x00);
            // set position
            bytes.push(0x1b);
            bytes.push(0x1b);
            bytes.push(0x03);
            bytes.push(0x30);
            bytes.push(0x30);
            bytes.push(0x30);
            // set font
            bytes.push(0x1b);
            bytes.push(0x1b);
            bytes.push(0x02);
            bytes.push(0x31);
            bytes.push(0x02);
            // set colours
            bytes.push(0x1b);
            bytes.push(0x1b);
            bytes.push(0x05);
            bytes.push(0x33);
            bytes.push(0x00);
            bytes.push(0x08);
            bytes.push(0x07);
            bytes.push(0x0f);
            // switch to graphics mode
            bytes.push(0x1b);
            bytes.push(0x1b);
            bytes.push(0x01);
            bytes.push(0x20);
        },
    }
    assert(bytes@ =~= setup(mode));
    bytes
}

} // verus!
