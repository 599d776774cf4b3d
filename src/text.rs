//! Decimal rendering of counters, for directory and entry names.

use vstd::prelude::*;

verus! {

/// The character of decimal digit `d`.
pub open spec fn digit_char(d: nat) -> char {
    if d == 0 {
        '0'
    } else if d == 1 {
        '1'
    } else if d == 2 {
        '2'
    } else if d == 3 {
        '3'
    } else if d == 4 {
        '4'
    } else if d == 5 {
        '5'
    } else if d == 6 {
        '6'
    } else if d == 7 {
        '7'
    } else if d == 8 {
        '8'
    } else {
        '9'
    }
}

/// `n` written in decimal, without leading zeros.
pub open spec fn decimal(n: nat) -> Seq<char>
    decreases n,
{
    if n < 10 {
        seq![digit_char(n)]
    } else {
        decimal(n / 10).push(digit_char(n % 10))
    }
}

/// `n` written with exactly four decimal digits, zeros in front.
pub open spec fn four_digits(n: nat) -> Seq<char> {
    seq![
        digit_char((n / 1000) % 10),
        digit_char((n / 100) % 10),
        digit_char((n / 10) % 10),
        digit_char(n % 10),
    ]
}

proof fn lemma_digit_char_injective(a: nat, b: nat)
    requires
        a < 10,
        b < 10,
        digit_char(a) == digit_char(b),
    ensures
        a == b,
{
}

/// Distinct numbers have distinct decimal forms.
pub proof fn lemma_decimal_injective(a: nat, b: nat)
    requires
        decimal(a) == decimal(b),
    ensures
        a == b,
    decreases a + b,
{
    lemma_decimal_len(a);
    lemma_decimal_len(b);
    if a < 10 && b < 10 {
        assert(decimal(a) == seq![digit_char(a)]);
        assert(decimal(b) == seq![digit_char(b)]);
        assert(decimal(a)[0] == digit_char(a));
        assert(decimal(b)[0] == digit_char(b));
        lemma_digit_char_injective(a, b);
    } else if a >= 10 && b >= 10 {
        let da = decimal(a);
        let db = decimal(b);
        assert(da.last() == db.last());
        lemma_digit_char_injective(a % 10, b % 10);
        assert(da.drop_last() == decimal(a / 10));
        assert(db.drop_last() == decimal(b / 10));
        lemma_decimal_injective(a / 10, b / 10);
    }
}

/// A decimal form has at least one digit, and more than one from 10 on.
pub proof fn lemma_decimal_len(n: nat)
    ensures
        decimal(n).len() >= 1,
        n >= 10 ==> decimal(n).len() >= 2,
    decreases n,
{
    if n >= 10 {
        lemma_decimal_len(n / 10);
    }
}

/// The text of one decimal digit.
fn digit_text(d: u64) -> (r: &'static str)
    requires
        d < 10,
    ensures
        r@ == seq![digit_char(d as nat)],
{
    proof {
        reveal_strlit("0");
        reveal_strlit("1");
        reveal_strlit("2");
        reveal_strlit("3");
        reveal_strlit("4");
        reveal_strlit("5");
        reveal_strlit("6");
        reveal_strlit("7");
        reveal_strlit("8");
        reveal_strlit("9");
    }
    match d {
        0 => "0",
        1 => "1",
        2 => "2",
        3 => "3",
        4 => "4",
        5 => "5",
        6 => "6",
        7 => "7",
        8 => "8",
        _ => "9",
    }
}

/// `n` in decimal.
pub fn decimal_string(n: u64) -> (r: String)
    ensures
        r@ == decimal(n as nat),
{
    let mut rest: u64 = n / 10;
    let mut acc = String::from_str(digit_text(n % 10));
    proof {
        if n >= 10 {
            assert(decimal(n as nat) =~= decimal(rest as nat) + acc@);
        }
    }
    while rest > 0
        invariant
            rest > 0 ==> decimal(n as nat) =~= decimal(rest as nat) + acc@,
            rest == 0 ==> acc@ == decimal(n as nat),
        decreases rest,
    {
        let d = rest % 10;
        let next = String::from_str(digit_text(d)).concat(acc.as_str());
        proof {
            if rest >= 10 {
                assert(decimal(rest as nat) =~= decimal((rest / 10) as nat) + seq![
                    digit_char(d as nat),
                ]);
                assert(decimal(n as nat) =~= decimal((rest / 10) as nat) + next@);
            } else {
                assert(decimal(n as nat) =~= next@);
            }
        }
        acc = next;
        rest = rest / 10;
    }
    acc
}

/// `n` with four digits, zeros in front.
pub fn four_digit_string(n: u64) -> (r: String)
    requires
        n < 10000,
    ensures
        r@ == four_digits(n as nat),
{
    let mut acc = String::from_str(digit_text((n / 1000) % 10));
    acc.append(digit_text((n / 100) % 10));
    acc.append(digit_text((n / 10) % 10));
    acc.append(digit_text(n % 10));
    assert(acc@ =~= four_digits(n as nat));
    acc
}

} // verus!
