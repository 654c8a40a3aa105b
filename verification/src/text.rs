//! Comparing and folding text.

use vstd::prelude::*;
use vstd::string::StringExecFns;

verus! {

/// The upper-case form of a text, as the standard library folds it.
pub uninterp spec fn uppercase(text: Seq<char>) -> Seq<char>;

/// `str::eq` holds exactly when the two texts have the same characters.
pub assume_specification[ <str as PartialEq>::eq ](a: &str, b: &str) -> (same: bool)
    ensures
        same == (a@ == b@),
;

/// `str::to_uppercase` gives the upper-case form of its argument, which
/// depends on the characters alone.
pub assume_specification[ str::to_uppercase ](text: &str) -> (upper: String)
    ensures
        upper@ == uppercase(text@),
;

/// Whether two texts are the same, character by character.
pub fn same_text(a: &str, b: &str) -> (same: bool)
    ensures
        same == (a@ == b@),
{
    *a == *b
}

/// The character of a decimal digit.
pub open spec fn digit_char(digit: int) -> char {
    if digit == 0 {
        '0'
    } else if digit == 1 {
        '1'
    } else if digit == 2 {
        '2'
    } else if digit == 3 {
        '3'
    } else if digit == 4 {
        '4'
    } else if digit == 5 {
        '5'
    } else if digit == 6 {
        '6'
    } else if digit == 7 {
        '7'
    } else if digit == 8 {
        '8'
    } else {
        '9'
    }
}

/// A number written in decimal, without leading zeros.
pub open spec fn decimal_digits(n: nat) -> Seq<char>
    decreases n,
{
    if n < 10 {
        seq![digit_char(n as int)]
    } else {
        decimal_digits(n / 10).push(digit_char((n % 10) as int))
    }
}

/// A decimal digit as a text of one character.
pub fn digit_text(digit: u8) -> (text: &'static str)
    requires
        digit < 10,
    ensures
        text@ == seq![digit_char(digit as int)],
{
    proof {
        reveal_strlit("0");
        reveal_strlit("1");
        reveal_strlit("2");
        reveal_strlit("3");
        reveal_strlit("4");
        reveal_strlit("5");
        reveal_strlit("6");
        reveal_strlit("7");
        reveal_strlit("8");
        reveal_strlit("9");
    }
    let text = if digit == 0 {
        "0"
    } else if digit == 1 {
        "1"
    } else if digit == 2 {
        "2"
    } else if digit == 3 {
        "3"
    } else if digit == 4 {
        "4"
    } else if digit == 5 {
        "5"
    } else if digit == 6 {
        "6"
    } else if digit == 7 {
        "7"
    } else if digit == 8 {
        "8"
    } else {
        "9"
    };
    assert(text@ =~= seq![digit_char(digit as int)]);
    text
}

/// Writes a number in decimal, without leading zeros.
pub fn decimal_text(n: u64) -> (text: String)
    ensures
        text@ == decimal_digits(n as nat),
{
    let mut rest: u64 = n / 10;
    let mut text = String::from_str(digit_text((n % 10) as u8));
    assert(decimal_digits(n as nat) =~= (if rest > 0 {
        decimal_digits(rest as nat)
    } else {
        Seq::<char>::empty()
    }) + text@);
    while rest > 0
        invariant
            decimal_digits(n as nat) == (if rest > 0 {
                decimal_digits(rest as nat)
            } else {
                Seq::<char>::empty()
            }) + text@,
        decreases rest,
    {
        let ghost before = text@;
        let head = String::from_str(digit_text((rest % 10) as u8));
        text = head.concat(text.as_str());
        assert(decimal_digits(rest as nat) + before =~= (if rest / 10 > 0 {
            decimal_digits((rest / 10) as nat)
        } else {
            Seq::<char>::empty()
        }) + text@);
        rest = rest / 10;
    }
    assert(Seq::<char>::empty() + text@ =~= text@);
    text
}

} // verus!
