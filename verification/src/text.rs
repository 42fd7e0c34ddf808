//! Texts as sequences of characters, and the decimal form of a number.

use vstd::prelude::*;
use vstd::string::StringExecFns;

verus! {

/// The texts that a list of strings holds, in the order of the list.
pub open spec fn texts(list: Vec<String>) -> Seq<Seq<char>> {
    Seq::new(list@.len(), |i: int| list@[i]@)
}

/// The text of an optional string.
pub open spec fn optional_text(value: Option<String>) -> Option<Seq<char>> {
    match value {
        Some(text) => Some(text@),
        None => None,
    }
}

/// The character that stands for a digit below ten.
pub open spec fn digit(value: nat) -> char {
    if value == 0 {
        '0'
    } else if value == 1 {
        '1'
    } else if value == 2 {
        '2'
    } else if value == 3 {
        '3'
    } else if value == 4 {
        '4'
    } else if value == 5 {
        '5'
    } else if value == 6 {
        '6'
    } else if value == 7 {
        '7'
    } else if value == 8 {
        '8'
    } else {
        '9'
    }
}

/// The decimal digits of a number, most significant first, without leading
/// zeros; zero is written as one digit.
pub open spec fn decimal(value: nat) -> Seq<char>
    decreases value,
{
    if value < 10 {
        seq![digit(value)]
    } else {
        decimal(value / 10) + seq![digit(value % 10)]
    }
}

/// The digit that a character stands for.
pub open spec fn digit_value(character: char) -> nat {
    if character == '0' {
        0
    } else if character == '1' {
        1
    } else if character == '2' {
        2
    } else if character == '3' {
        3
    } else if character == '4' {
        4
    } else if character == '5' {
        5
    } else if character == '6' {
        6
    } else if character == '7' {
        7
    } else if character == '8' {
        8
    } else {
        9
    }
}

/// The number that a sequence of decimal digits spells.
pub open spec fn decimal_value(digits: Seq<char>) -> nat
    decreases digits.len(),
{
    if digits.len() == 0 {
        0
    } else {
        decimal_value(digits.drop_last()) * 10 + digit_value(digits.last())
    }
}

/// The decimal form of a number spells that number, and it begins with a
/// zero only where the number is zero.
pub proof fn decimal_reads_back(value: nat)
    ensures
        decimal(value).len() >= 1,
        decimal_value(decimal(value)) == value,
        decimal(value)[0] == '0' <==> value == 0,
    decreases value,
{
    if value < 10 {
        assert(decimal(value).drop_last() =~= Seq::<char>::empty());
        assert(decimal_value(decimal(value).drop_last()) == 0);
    } else {
        decimal_reads_back(value / 10);
        assert(decimal(value).drop_last() =~= decimal(value / 10));
        assert(decimal(value).last() == digit(value % 10));
        assert(decimal(value)[0] == decimal(value / 10)[0]);
    }
}

/// One digit as a string.
fn digit_text(value: u32) -> (text: &'static str)
    requires
        value < 10,
    ensures
        text@ == seq![digit(value as nat)],
{
    proof {
        reveal_strlit("0");
        reveal_strlit("1");
        reveal_strlit("2");
        reveal_strlit("3");
        reveal_strlit("4");
        reveal_strlit("5");
        reveal_strlit("6");
        reveal_strlit("7");
        reveal_strlit("8");
        reveal_strlit("9");
    }
    if value == 0 {
        "0"
    } else if value == 1 {
        "1"
    } else if value == 2 {
        "2"
    } else if value == 3 {
        "3"
    } else if value == 4 {
        "4"
    } else if value == 5 {
        "5"
    } else if value == 6 {
        "6"
    } else if value == 7 {
        "7"
    } else if value == 8 {
        "8"
    } else {
        "9"
    }
}

/// Writes a number in decimal.
pub fn decimal_text(value: u32) -> (text: String)
    ensures
        text@ == decimal(value as nat),
    decreases value,
{
    if value < 10 {
        String::from_str(digit_text(value))
    } else {
        let mut text = decimal_text(value / 10);
        text.append(digit_text(value % 10));
        text
    }
}

/// Copies a list of strings.
pub fn copy_texts(list: &Vec<String>) -> (copy: Vec<String>)
    ensures
        texts(copy) == texts(*list),
{
    let mut copy: Vec<String> = Vec::new();
    let mut index: usize = 0;
    while index < list.len()
        invariant
            index <= list.len(),
            copy@.len() == index,
            forall|i: int| 0 <= i < index ==> copy@[i]@ == list@[i]@,
        decreases list.len() - index,
    {
        copy.push(list[index].clone());
        index = index + 1;
    }
    assert(texts(copy) =~= texts(*list));
    copy
}

} // verus!
