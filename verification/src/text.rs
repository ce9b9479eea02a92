//! Small text helpers: comparing texts and writing numbers in decimal.

use vstd::prelude::*;

verus! {

/// The decimal digit `d` (below ten) as a character.
pub open spec fn digit_char(d: nat) -> char {
    (48 + d) as char
}

/// The decimal writing of `n`, without sign or leading zeros.
pub open spec fn decimal(n: nat) -> Seq<char>
    decreases n,
{
    if n < 10 {
        seq![digit_char(n)]
    } else {
        decimal(n / 10).push(digit_char(n % 10))
    }
}

/// Whether two texts are the same sequence of characters.
pub fn same_text(a: &str, b: &str) -> (r: bool)
    ensures
        r == (a@ == b@),
{
    let x = String::from_str(a);
    let y = String::from_str(b);
    x == y
}

/// The one-character text of the decimal digit `d`.
fn digit_text(d: u32) -> (s: &'static str)
    requires
        d < 10,
    ensures
        s@ == seq![digit_char(d as nat)],
{
    match d {
        0 => {
            proof { reveal_strlit("0"); }
            assert("0"@ =~= seq![digit_char(0)]);
            "0"
        },
        1 => {
            proof { reveal_strlit("1"); }
            assert("1"@ =~= seq![digit_char(1)]);
            "1"
        },
        2 => {
            proof { reveal_strlit("2"); }
            assert("2"@ =~= seq![digit_char(2)]);
            "2"
        },
        3 => {
            proof { reveal_strlit("3"); }
            assert("3"@ =~= seq![digit_char(3)]);
            "3"
        },
        4 => {
            proof { reveal_strlit("4"); }
            assert("4"@ =~= seq![digit_char(4)]);
            "4"
        },
        5 => {
            proof { reveal_strlit("5"); }
            assert("5"@ =~= seq![digit_char(5)]);
            "5"
        },
        6 => {
            proof { reveal_strlit("6"); }
            assert("6"@ =~= seq![digit_char(6)]);
            "6"
        },
        7 => {
            proof { reveal_strlit("7"); }
            assert("7"@ =~= seq![digit_char(7)]);
            "7"
        },
        8 => {
            proof { reveal_strlit("8"); }
            assert("8"@ =~= seq![digit_char(8)]);
            "8"
        },
        _ => {
            proof { reveal_strlit("9"); }
            assert("9"@ =~= seq![digit_char(9)]);
            "9"
        },
    }
}

/// `n` written in decimal.
pub fn decimal_text(n: u32) -> (s: String)
    ensures
        s@ == decimal(n as nat),
    decreases n,
{
    if n < 10 {
        String::from_str(digit_text(n))
    } else {
        let mut s = decimal_text(n / 10);
        s.append(digit_text(n % 10));
        s
    }
}

} // verus!
