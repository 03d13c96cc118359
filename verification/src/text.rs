//! Decimal rendering of unsigned numbers.

use vstd::prelude::*;
use vstd::string::*;

verus! {

/// The character of one decimal digit.
pub open spec fn digit_char(d: nat) -> char {
    if d == 0 {
        '0'
    } else if d == 1 {
        '1'
    } else if d == 2 {
        '2'
    } else if d == 3 {
        '3'
    } else if d == 4 {
        '4'
    } else if d == 5 {
        '5'
    } else if d == 6 {
        '6'
    } else if d == 7 {
        '7'
    } else if d == 8 {
        '8'
    } else {
        '9'
    }
}

/// The decimal digits of `n`, most significant first; no digit at all for 0.
pub open spec fn digits(n: nat) -> Seq<char>
    decreases n,
{
    if n == 0 {
        Seq::empty()
    } else {
        digits(n / 10).push(digit_char(n % 10))
    }
}

/// The usual decimal notation of `n`: no sign, no leading zero, `"0"` for 0.
pub open spec fn decimal(n: nat) -> Seq<char> {
    if n == 0 {
        seq!['0']
    } else {
        digits(n)
    }
}

fn digit_text(d: u64) -> (text: &'static str)
    requires
        d < 10,
    ensures
        text@ == seq![digit_char(d as nat)],
{
    proof {
        reveal_strlit("0");
        reveal_strlit("1");
        reveal_strlit("2");
        reveal_strlit("3");
        reveal_strlit("4");
        reveal_strlit("5");
        reveal_strlit("6");
        reveal_strlit("7");
        reveal_strlit("8");
        reveal_strlit("9");
    }
    let text = if d == 0 {
        "0"
    } else if d == 1 {
        "1"
    } else if d == 2 {
        "2"
    } else if d == 3 {
        "3"
    } else if d == 4 {
        "4"
    } else if d == 5 {
        "5"
    } else if d == 6 {
        "6"
    } else if d == 7 {
        "7"
    } else if d == 8 {
        "8"
    } else {
        "9"
    };
    assert(text@ =~= seq![digit_char(d as nat)]);
    text
}

/// Writes `n` in decimal.
pub fn decimal_text(n: u64) -> (text: String)
    ensures
        text@ == decimal(n as nat),
{
    if n == 0 {
        proof {
            reveal_strlit("0");
            assert("0"@ =~= seq!['0']);
        }
        return String::from_str("0");
    }
    let mut text = String::new();
    let mut rest: u64 = n;
    while rest > 0
        invariant
            digits(n as nat) == digits(rest as nat) + text@,
        decreases rest,
    {
        let digit = digit_text(rest % 10);
        let ghost before = text@;
        text = String::from_str(digit).concat(text.as_str());
        proof {
            let r = rest as nat;
            assert(digits(r) == digits(r / 10).push(digit_char(r % 10)));
            assert(digits(r / 10).push(digit_char(r % 10)) + before =~= digits(r / 10) + (
            seq![digit_char(r % 10)] + before));
        }
        rest = rest / 10;
    }
    assert(digits(0) + text@ =~= text@);
    text
}

/// Different numbers have different digits.
pub proof fn lemma_digits_injective(a: nat, b: nat)
    requires
        digits(a) == digits(b),
    ensures
        a == b,
    decreases a,
{
    if a == 0 {
        if b != 0 {
            assert(digits(b).len() == digits(b / 10).len() + 1);
        }
    } else {
        assert(digits(a).len() == digits(a / 10).len() + 1);
        assert(b != 0);
        let da = digits(a / 10);
        let db = digits(b / 10);
        assert(digits(a).last() == digit_char(a % 10));
        assert(digits(b).last() == digit_char(b % 10));
        assert(digits(a).drop_last() =~= da);
        assert(digits(b).drop_last() =~= db);
        lemma_digits_injective(a / 10, b / 10);
    }
}

/// Different numbers are written differently.
pub proof fn lemma_decimal_injective(a: nat, b: nat)
    requires
        decimal(a) == decimal(b),
    ensures
        a == b,
{
    if a == 0 && b != 0 {
        lemma_single_digit(b);
    } else if a != 0 && b == 0 {
        lemma_single_digit(a);
    } else if a != 0 && b != 0 {
        lemma_digits_injective(a, b);
    }
}

/// A positive number is not written as `"0"`.
proof fn lemma_single_digit(n: nat)
    requires
        n > 0,
    ensures
        digits(n) != seq!['0'],
{
    if digits(n) == seq!['0'] {
        assert(digits(n).len() == digits(n / 10).len() + 1);
        assert(seq!['0'].len() == 1);
        if n / 10 != 0 {
            assert(digits(n / 10).len() == digits(n / 10 / 10).len() + 1);
        }
        assert(n / 10 == 0);
        assert(digits(n).last() == digit_char(n % 10));
        assert(seq!['0'].last() == '0');
    }
}

} // verus!
