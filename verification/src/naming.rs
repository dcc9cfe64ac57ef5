//! The name of the file that a game is written to: `game_`, the game's
//! number in decimal, and `.gz`.

use vstd::prelude::*;
use vstd::string::StringExecFns;

verus! {

/// The character of a decimal digit.
pub open spec fn digit_char(digit: int) -> char
    recommends
        0 <= digit < 10,
{
    if digit == 0 {
        '0'
    } else if digit == 1 {
        '1'
    } else if digit == 2 {
        '2'
    } else if digit == 3 {
        '3'
    } else if digit == 4 {
        '4'
    } else if digit == 5 {
        '5'
    } else if digit == 6 {
        '6'
    } else if digit == 7 {
        '7'
    } else if digit == 8 {
        '8'
    } else {
        '9'
    }
}

/// A natural number in decimal, without leading zeros.
pub open spec fn decimal(n: nat) -> Seq<char>
    decreases n,
{
    if n < 10 {
        seq![digit_char(n as int)]
    } else {
        decimal(n / 10).push(digit_char((n % 10) as int))
    }
}

/// An integer in decimal, with a minus sign if it is negative.
pub open spec fn signed_decimal(n: int) -> Seq<char> {
    if n < 0 {
        seq!['-'] + decimal((-n) as nat)
    } else {
        decimal(n as nat)
    }
}

/// The file name of the game with the given number.
pub open spec fn game_file_name(game_id: int) -> Seq<char> {
    seq!['g', 'a', 'm', 'e', '_'] + signed_decimal(game_id) + seq!['.', 'g', 'z']
}

/// The text of one decimal digit.
fn digit_text(digit: u32) -> (text: &'static str)
    requires
        digit < 10,
    ensures
        text@ == seq![digit_char(digit as int)],
{
    proof {
        reveal_strlit("0");
        reveal_strlit("1");
        reveal_strlit("2");
        reveal_strlit("3");
        reveal_strlit("4");
        reveal_strlit("5");
        reveal_strlit("6");
        reveal_strlit("7");
        reveal_strlit("8");
        reveal_strlit("9");
    }
    let text = match digit {
        0 => "0",
        1 => "1",
        2 => "2",
        3 => "3",
        4 => "4",
        5 => "5",
        6 => "6",
        7 => "7",
        8 => "8",
        _ => "9",
    };
    text
}

/// Appends a number in decimal to a text.
fn append_decimal(text: &mut String, n: u32)
    ensures
        final(text)@ == old(text)@ + decimal(n as nat),
    decreases n,
{
    if n >= 10 {
        append_decimal(text, n / 10);
    }
    text.append(digit_text(n % 10));
}

/// The name of the file that the game with the given number is written to.
pub fn file_name(game_id: i32) -> (name: String)
    ensures
        name@ == game_file_name(game_id as int),
{
    proof {
        reveal_strlit("game_");
        reveal_strlit("-");
        reveal_strlit(".gz");
    }
    let mut name = String::from_str("game_");
    if game_id < 0 {
        name.append("-");
        let magnitude: u32 = if game_id == i32::MIN {
            2147483648
        } else {
            (-game_id) as u32
        };
        append_decimal(&mut name, magnitude);
    } else {
        append_decimal(&mut name, game_id as u32);
    }
    name.append(".gz");
    name
}

} // verus!
