//! Decimal notation of port numbers.

use vstd::prelude::*;

verus! {

/// The character that stands for `digit`, which is below ten.
pub open spec fn digit_char(digit: nat) -> char {
    ('0' as nat + digit) as char
}

/// `number` in decimal notation, without leading zeros.
pub open spec fn decimal_text(number: nat) -> Seq<char>
    decreases number,
{
    if number < 10 {
        seq![digit_char(number)]
    } else {
        decimal_text(number / 10).push(digit_char(number % 10))
    }
}

/// The text of one digit.
fn digit_text(digit: u16) -> (text: &'static str)
    requires
        digit < 10,
    ensures
        text@ == seq![digit_char(digit as nat)],
{
    proof {
        reveal_strlit("0");
        reveal_strlit("1");
        reveal_strlit("2");
        reveal_strlit("3");
        reveal_strlit("4");
        reveal_strlit("5");
        reveal_strlit("6");
        reveal_strlit("7");
        reveal_strlit("8");
        reveal_strlit("9");
    }
    match digit {
        0 => "0",
        1 => "1",
        2 => "2",
        3 => "3",
        4 => "4",
        5 => "5",
        6 => "6",
        7 => "7",
        8 => "8",
        _ => "9",
    }
}

/// Writes `number` in decimal notation.
pub fn decimal(number: u16) -> (text: String)
    ensures
        text@ == decimal_text(number as nat),
    decreases number,
{
    if number < 10 {
        digit_text(number).to_owned()
    } else {
        let mut text = decimal(number / 10);
        text.append(digit_text(number % 10));
        text
    }
}

/// The number that a text of decimal digits stands for.
pub open spec fn value_of(text: Seq<char>) -> int
    decreases text.len(),
{
    if text.len() == 0 {
        0
    } else {
        10 * value_of(text.drop_last()) + (text.last() as int - '0' as int)
    }
}

/// The text of a number is made of digits, starts with a zero only where it is zero, and stands for
/// that number.
pub proof fn decimal_text_has_value(number: nat)
    ensures
        value_of(decimal_text(number)) == number,
        decimal_text(number).len() > 0,
        forall|i: int|
            0 <= i < decimal_text(number).len() ==> '0' <= #[trigger] decimal_text(number)[i]
                <= '9',
        number > 0 ==> decimal_text(number)[0] != '0',
    decreases number,
{
    let text = decimal_text(number);
    if number >= 10 {
        decimal_text_has_value(number / 10);
        assert(text.drop_last() =~= decimal_text(number / 10));
    } else {
        assert(text.drop_last() =~= Seq::<char>::empty());
        assert(value_of(text.drop_last()) == 0);
    }
}

/// What `decimal` gives: digits that stand for the number.
pub proof fn decimal_has_value(number: u16, text: String)
    requires
        call_ensures(decimal, (number,), text),
    ensures
        value_of(text@) == number,
        text@.len() > 0,
        forall|i: int| 0 <= i < text@.len() ==> '0' <= #[trigger] text@[i] <= '9',
        number > 0 ==> text@[0] != '0',
        number == 0 ==> text@.len() == 1,
{
    decimal_text_has_value(number as nat);
}

} // verus!
