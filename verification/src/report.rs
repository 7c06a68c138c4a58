//! How a new user is written out.

use crate::helper::{texts_of, NewUserData, NewUserDataView};
use vstd::prelude::*;

verus! {

/// How many units of 0.000000001 token make one token.
pub const UNITS_PER_TOKEN: u64 = 1_000_000_000;

/// How many digits stand after the point at most.
pub const FRACTION_DIGITS: u32 = 9;

/// The character for a digit from 0 to 9.
pub open spec fn digit_char(digit: int) -> char {
    (digit + '0' as int) as u8 as char
}

/// The decimal digits of `number`, without leading zeros.
pub open spec fn decimal_text(number: nat) -> Seq<char>
    decreases number,
{
    if number < 10 {
        seq![digit_char(number as int)]
    } else {
        decimal_text(number / 10).push(digit_char((number % 10) as int))
    }
}

/// The last `width` decimal digits of `number`, with leading zeros.
pub open spec fn padded_text(number: nat, width: nat) -> Seq<char>
    decreases width,
{
    if width == 0 {
        Seq::empty()
    } else {
        padded_text(number / 10, (width - 1) as nat).push(digit_char((number % 10) as int))
    }
}

/// The last `width` decimal digits of `number`, with leading zeros and
/// without the zeros at the end.
pub open spec fn fraction_text(number: nat, width: nat) -> Seq<char>
    decreases width,
{
    if width == 0 {
        Seq::empty()
    } else if number % 10 == 0 {
        fraction_text(number / 10, (width - 1) as nat)
    } else {
        padded_text(number, width)
    }
}

/// A balance of `units` times 0.000000001 token, written as a decimal number
/// of tokens: `0`, `0.000000001`, `1.5`.
pub open spec fn amount_text(units: nat) -> Seq<char> {
    let whole = units / (UNITS_PER_TOKEN as nat);
    let part = units % (UNITS_PER_TOKEN as nat);
    if part == 0 {
        decimal_text(whole)
    } else {
        decimal_text(whole) + seq!['.'] + fraction_text(part, FRACTION_DIGITS as nat)
    }
}

fn digit_str(digit: u64) -> (text: &'static str)
    requires
        digit < 10,
    ensures
        text@ == seq![digit_char(digit as int)],
{
    proof {
        reveal_strlit("0");
        reveal_strlit("1");
        reveal_strlit("2");
        reveal_strlit("3");
        reveal_strlit("4");
        reveal_strlit("5");
        reveal_strlit("6");
        reveal_strlit("7");
        reveal_strlit("8");
        reveal_strlit("9");
    }
    let text = if digit == 0 {
        "0"
    } else if digit == 1 {
        "1"
    } else if digit == 2 {
        "2"
    } else if digit == 3 {
        "3"
    } else if digit == 4 {
        "4"
    } else if digit == 5 {
        "5"
    } else if digit == 6 {
        "6"
    } else if digit == 7 {
        "7"
    } else if digit == 8 {
        "8"
    } else {
        "9"
    };
    assert(text@ =~= seq![digit_char(digit as int)]);
    text
}

fn decimal_string(number: u64) -> (text: String)
    ensures
        text@ == decimal_text(number as nat),
    decreases number,
{
    if number < 10 {
        String::from_str(digit_str(number))
    } else {
        let mut text = decimal_string(number / 10);
        text.append(digit_str(number % 10));
        text
    }
}

fn padded_string(number: u64, width: u32) -> (text: String)
    ensures
        text@ == padded_text(number as nat, width as nat),
    decreases width,
{
    if width == 0 {
        String::new()
    } else {
        let mut text = padded_string(number / 10, width - 1);
        text.append(digit_str(number % 10));
        text
    }
}

fn fraction_string(number: u64, width: u32) -> (text: String)
    ensures
        text@ == fraction_text(number as nat, width as nat),
    decreases width,
{
    if width == 0 {
        String::new()
    } else if number % 10 == 0 {
        fraction_string(number / 10, width - 1)
    } else {
        padded_string(number, width)
    }
}

/// Writes a balance as a decimal number of tokens.
pub fn amount_string(units: u64) -> (text: String)
    ensures
        text@ == amount_text(units as nat),
{
    let whole = units / UNITS_PER_TOKEN;
    let part = units % UNITS_PER_TOKEN;
    let mut text = decimal_string(whole);
    if part != 0 {
        proof {
            reveal_strlit(".");
            assert("."@ =~= seq!['.']);
        }
        text.append(".");
        let fraction = fraction_string(part, FRACTION_DIGITS);
        text.append(fraction.as_str());
    }
    text
}

/// The items with `, ` between them.
pub open spec fn joined_text(items: Seq<Seq<char>>) -> Seq<char>
    decreases items.len(),
{
    if items.len() == 0 {
        Seq::empty()
    } else if items.len() == 1 {
        items[0]
    } else {
        joined_text(items.drop_last()) + seq![',', ' '] + items.last()
    }
}

/// The items between square brackets, with `, ` between them: `[a, b]`.
pub open spec fn bracketed_text(items: Seq<Seq<char>>) -> Seq<char> {
    seq!['['] + joined_text(items) + seq![']']
}

/// The block of six lines that reports one new user. The signatures and
/// the owner stand as they are, without quotes.
pub open spec fn report_text(user: NewUserDataView) -> Seq<char> {
    "New User -\n"@ + "\tSignature(s) - "@ + bracketed_text(user.signatures) + "\n"@ + "\tOwner - "@
        + user.owner + "\n"@ + "\tPre Token Balance - "@ + amount_text(user.pre_token_balance)
        + "\n"@ + "\tPost Token Balance - "@ + amount_text(user.post_token_balance) + "\n"@
        + "-----------\n"@
}

/// Writes the items between square brackets, with `, ` between them.
pub fn bracketed(items: &Vec<String>) -> (text: String)
    ensures
        text@ == bracketed_text(texts_of(items@)),
{
    let ghost texts = texts_of(items@);
    proof {
        reveal_strlit("[");
        reveal_strlit("]");
        reveal_strlit(", ");
        assert("["@ =~= seq!['[']);
        assert("]"@ =~= seq![']']);
        assert(", "@ =~= seq![',', ' ']);
    }
    let mut text = String::from_str("[");
    let mut index: usize = 0;
    while index < items.len()
        invariant
            index <= items.len(),
            texts == texts_of(items@),
            ", "@ == seq![',', ' '],
            text@ == seq!['['] + joined_text(texts.take(index as int)),
        decreases items.len() - index,
    {
        proof {
            let before = texts.take(index as int);
            let after = texts.take(index + 1);
            assert(after.drop_last() =~= before);
            assert(after.last() == items@[index as int]@);
        }
        if index > 0 {
            text.append(", ");
        }
        text.append(items[index].as_str());
        assert(text@ =~= seq!['['] + joined_text(texts.take(index + 1)));
        index += 1;
    }
    assert(texts.take(items.len() as int) =~= texts);
    text.append("]");
    text
}

/// Writes the report of one new user, each of its six lines with its line
/// feed.
pub fn report(user_data: &NewUserData) -> (text: String)
    ensures
        text@ == report_text(user_data@),
{
    let mut text = String::from_str("New User -\n");
    text.append("\tSignature(s) - ");
    let signatures = bracketed(&user_data.signatures);
    text.append(signatures.as_str());
    text.append("\n");
    text.append("\tOwner - ");
    text.append(user_data.owner.as_str());
    text.append("\n");
    text.append("\tPre Token Balance - ");
    let before = amount_string(user_data.pre_token_balance);
    text.append(before.as_str());
    text.append("\n");
    text.append("\tPost Token Balance - ");
    let after = amount_string(user_data.post_token_balance);
    text.append(after.as_str());
    text.append("\n");
    text.append("-----------\n");
    text
}

} // verus!
