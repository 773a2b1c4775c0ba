//! The name under which a mutex appears in diagnostics.

use vstd::prelude::*;
use vstd::string::StringExecFns;

verus! {

/// The character that stands for a digit below ten.
pub open spec fn digit_char(digit: nat) -> char {
    if digit == 0 {
        '0'
    } else if digit == 1 {
        '1'
    } else if digit == 2 {
        '2'
    } else if digit == 3 {
        '3'
    } else if digit == 4 {
        '4'
    } else if digit == 5 {
        '5'
    } else if digit == 6 {
        '6'
    } else if digit == 7 {
        '7'
    } else if digit == 8 {
        '8'
    } else {
        '9'
    }
}

/// `number` in decimal, most significant digit first and without leading zeros.
pub open spec fn spec_decimal(number: nat) -> Seq<char>
    decreases number,
{
    if number < 10 {
        seq![digit_char(number)]
    } else {
        spec_decimal(number / 10).push(digit_char(number % 10))
    }
}

/// The name of the mutex with identifier `id`: the words `Mutex id: `, then
/// the identifier in decimal.
pub open spec fn spec_print_id(id: usize) -> Seq<char> {
    "Mutex id: "@ + spec_decimal(id as nat)
}

/// The one-character string of a digit below ten.
fn digit_str(digit: usize) -> (text: &'static str)
    requires
        digit < 10,
    ensures
        text@ == seq![digit_char(digit as nat)],
{
    proof {
        reveal_strlit("0");
        reveal_strlit("1");
        reveal_strlit("2");
        reveal_strlit("3");
        reveal_strlit("4");
        reveal_strlit("5");
        reveal_strlit("6");
        reveal_strlit("7");
        reveal_strlit("8");
        reveal_strlit("9");
    }
    let text = if digit == 0 {
        "0"
    } else if digit == 1 {
        "1"
    } else if digit == 2 {
        "2"
    } else if digit == 3 {
        "3"
    } else if digit == 4 {
        "4"
    } else if digit == 5 {
        "5"
    } else if digit == 6 {
        "6"
    } else if digit == 7 {
        "7"
    } else if digit == 8 {
        "8"
    } else {
        "9"
    };
    assert(text@ =~= seq![digit_char(digit as nat)]);
    text
}

/// Appends `number` in decimal to `out`.
fn push_decimal(out: &mut String, number: usize)
    ensures
        final(out)@ == old(out)@ + spec_decimal(number as nat),
    decreases number,
{
    if number >= 10 {
        push_decimal(out, number / 10);
    }
    out.append(digit_str(number % 10));
    assert(out@ =~= old(out)@ + spec_decimal(number as nat));
}

/// Names the mutex with identifier `id` for a line of diagnostics.
pub fn print_id(id: usize) -> (name: String)
    ensures
        name@ == spec_print_id(id),
{
    let mut name = String::from_str("Mutex id: ");
    push_decimal(&mut name, id);
    name
}

} // verus!
