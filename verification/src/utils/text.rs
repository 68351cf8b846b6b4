use vstd::prelude::*;
use vstd::string::{StrSliceExecFns, StringExecFns};

verus! {

/// The character of a decimal digit.
pub open spec fn digit_char(digit: int) -> char {
    if digit == 0 {
        '0'
    } else if digit == 1 {
        '1'
    } else if digit == 2 {
        '2'
    } else if digit == 3 {
        '3'
    } else if digit == 4 {
        '4'
    } else if digit == 5 {
        '5'
    } else if digit == 6 {
        '6'
    } else if digit == 7 {
        '7'
    } else if digit == 8 {
        '8'
    } else {
        '9'
    }
}

/// A natural number in decimal digits, without leading zeros.
pub open spec fn digits(number: nat) -> Seq<char>
    decreases number,
{
    if number < 10 {
        seq![digit_char(number as int)]
    } else {
        digits(number / 10).push(digit_char((number % 10) as int))
    }
}

/// An integer in decimal digits, with a minus sign where it is negative.
pub open spec fn decimal(number: int) -> Seq<char> {
    if number < 0 {
        seq!['-'] + digits((-number) as nat)
    } else {
        digits(number as nat)
    }
}

/// `count` spaces.
pub open spec fn spaces(count: int) -> Seq<char> {
    Seq::new(count as nat, |i: int| ' ')
}

/// A text with spaces after it, as many as bring it to `width` characters;
/// a text that is as long or longer stays as it is.
pub open spec fn padded(text: Seq<char>, width: int) -> Seq<char> {
    if text.len() >= width {
        text
    } else {
        text + spaces(width - text.len())
    }
}

fn digit_text(digit: u64) -> (text: &'static str)
    requires
        digit < 10,
    ensures
        text@ == seq![digit_char(digit as int)],
{
    proof {
        reveal_strlit("0");
        reveal_strlit("1");
        reveal_strlit("2");
        reveal_strlit("3");
        reveal_strlit("4");
        reveal_strlit("5");
        reveal_strlit("6");
        reveal_strlit("7");
        reveal_strlit("8");
        reveal_strlit("9");
    }
    let text = if digit == 0 {
        "0"
    } else if digit == 1 {
        "1"
    } else if digit == 2 {
        "2"
    } else if digit == 3 {
        "3"
    } else if digit == 4 {
        "4"
    } else if digit == 5 {
        "5"
    } else if digit == 6 {
        "6"
    } else if digit == 7 {
        "7"
    } else if digit == 8 {
        "8"
    } else {
        "9"
    };
    assert(text@ =~= seq![digit_char(digit as int)]);
    text
}

/// Appends the decimal digits of `number`.
pub fn append_digits(text: &mut String, number: u64)
    ensures
        final(text)@ == old(text)@ + digits(number as nat),
    decreases number,
{
    if number >= 10 {
        append_digits(text, number / 10);
    }
    text.append(digit_text(number % 10));
    assert(text@ =~= old(text)@ + digits(number as nat));
}

/// Appends `number` in decimal.
pub fn append_decimal(text: &mut String, number: i64)
    ensures
        final(text)@ == old(text)@ + decimal(number as int),
{
    if number < 0 {
        proof {
            reveal_strlit("-");
        }
        text.append("-");
        let magnitude: u64 = if number == i64::MIN {
            0x8000_0000_0000_0000u64
        } else {
            (-number) as u64
        };
        append_digits(text, magnitude);
        assert(text@ =~= old(text)@ + decimal(number as int));
    } else {
        append_digits(text, number as u64);
    }
}

/// Appends `piece`, and after it the spaces that bring it to `width`
/// characters.
pub fn append_padded(text: &mut String, piece: &str, width: usize)
    ensures
        final(text)@ == old(text)@ + padded(piece@, width as int),
{
    text.append(piece);
    let mut held = piece.unicode_len();
    while held < width
        invariant
            held >= piece@.len(),
            held == piece@.len() || held <= width,
            text@ == old(text)@ + piece@ + spaces(held - piece@.len()),
        decreases width - held,
    {
        proof {
            reveal_strlit(" ");
        }
        text.append(" ");
        held = held + 1;
        assert(text@ =~= old(text)@ + piece@ + spaces(held - piece@.len()));
    }
    assert(spaces(0) =~= Seq::<char>::empty());
    assert(text@ =~= old(text)@ + padded(piece@, width as int));
}

} // verus!
