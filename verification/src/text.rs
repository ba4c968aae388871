//! Text building blocks: decimal notation and fixed-width alignment.

use vstd::prelude::*;

verus! {

/// The character that writes the decimal digit `d`.
pub open spec fn digit_char(d: nat) -> char
    recommends
        d < 10,
{
    if d == 0 {
        '0'
    } else if d == 1 {
        '1'
    } else if d == 2 {
        '2'
    } else if d == 3 {
        '3'
    } else if d == 4 {
        '4'
    } else if d == 5 {
        '5'
    } else if d == 6 {
        '6'
    } else if d == 7 {
        '7'
    } else if d == 8 {
        '8'
    } else {
        '9'
    }
}

/// Decimal notation of `n`: most significant digit first, no leading zero.
pub open spec fn decimal(n: nat) -> Seq<char>
    decreases n,
{
    if n < 10 {
        seq![digit_char(n)]
    } else {
        decimal(n / 10).push(digit_char(n % 10))
    }
}

/// `count` copies of `fill`.
pub open spec fn repeated(fill: char, count: nat) -> Seq<char> {
    Seq::new(count, |i: int| fill)
}

/// `text` moved to the right end of a field of `width` characters; the room
/// on the left holds `fill`. A text that is already as wide stays as it is.
pub open spec fn pad_left(text: Seq<char>, width: nat, fill: char) -> Seq<char> {
    if text.len() >= width {
        text
    } else {
        repeated(fill, (width - text.len()) as nat) + text
    }
}

/// Decimal notation of `n` with zeros in front up to `width` digits.
pub open spec fn zero_padded(n: nat, width: nat) -> Seq<char> {
    pad_left(decimal(n), width, '0')
}

fn digit_text(d: u64) -> (text: &'static str)
    requires
        d < 10,
    ensures
        text@ == seq![digit_char(d as nat)],
{
    proof {
        reveal_strlit("0");
        reveal_strlit("1");
        reveal_strlit("2");
        reveal_strlit("3");
        reveal_strlit("4");
        reveal_strlit("5");
        reveal_strlit("6");
        reveal_strlit("7");
        reveal_strlit("8");
        reveal_strlit("9");
    }
    let text: &'static str = if d == 0 {
        "0"
    } else if d == 1 {
        "1"
    } else if d == 2 {
        "2"
    } else if d == 3 {
        "3"
    } else if d == 4 {
        "4"
    } else if d == 5 {
        "5"
    } else if d == 6 {
        "6"
    } else if d == 7 {
        "7"
    } else if d == 8 {
        "8"
    } else {
        "9"
    };
    assert(text@ =~= seq![digit_char(d as nat)]);
    text
}

/// Writes `n` in decimal notation.
pub fn decimal_text(n: u64) -> (text: String)
    ensures
        text@ == decimal(n as nat),
    decreases n,
{
    if n < 10 {
        String::from_str(digit_text(n))
    } else {
        let mut text = decimal_text(n / 10);
        text.append(digit_text(n % 10));
        assert(text@ =~= decimal(n as nat));
        text
    }
}

/// Right-aligns `text` in a field of `width` characters, filling with
/// spaces (`zeros == false`) or with zeros (`zeros == true`).
pub fn right_aligned(text: &str, width: usize, zeros: bool) -> (field: String)
    ensures
        field@ == pad_left(text@, width as nat, if zeros { '0' } else { ' ' }),
{
    proof {
        reveal_strlit("0");
        reveal_strlit(" ");
    }
    let fill: &'static str = if zeros { "0" } else { " " };
    let ghost fill_char: char = if zeros { '0' } else { ' ' };
    let len: usize = text.unicode_len();
    let mut field = String::new();
    let mut room: usize = if len >= width { 0 } else { width - len };
    let ghost missing: nat = room as nat;
    while room > 0
        invariant
            room <= missing,
            fill@ == seq![fill_char],
            field@ == repeated(fill_char, (missing - room) as nat),
        decreases room,
    {
        field.append(fill);
        room = room - 1;
        assert(field@ =~= repeated(fill_char, (missing - room) as nat));
    }
    field.append(text);
    assert(field@ =~= pad_left(text@, width as nat, fill_char));
    field
}

/// Writes `n` in decimal notation with zeros in front up to `width` digits.
pub fn zero_padded_text(n: u64, width: usize) -> (text: String)
    ensures
        text@ == zero_padded(n as nat, width as nat),
{
    let digits = decimal_text(n);
    right_aligned(digits.as_str(), width, true)
}

} // verus!
