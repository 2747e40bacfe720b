//! Text building: decimal numerals and concatenation with exact contracts.

use vstd::prelude::*;

verus! {

/// The character of one decimal digit.
pub open spec fn digit_char(d: nat) -> char
    recommends
        d < 10,
{
    if d == 0 {
        '0'
    } else if d == 1 {
        '1'
    } else if d == 2 {
        '2'
    } else if d == 3 {
        '3'
    } else if d == 4 {
        '4'
    } else if d == 5 {
        '5'
    } else if d == 6 {
        '6'
    } else if d == 7 {
        '7'
    } else if d == 8 {
        '8'
    } else {
        '9'
    }
}

/// The decimal numeral of `n`: most significant digit first, no leading
/// zero, and `"0"` for zero.
pub open spec fn decimal(n: nat) -> Seq<char>
    decreases n,
{
    if n < 10 {
        seq![digit_char(n)]
    } else {
        decimal(n / 10).push(digit_char(n % 10))
    }
}

/// The decimal numeral of a signed number: a minus sign before the numeral
/// of the magnitude when the number is negative.
pub open spec fn signed_decimal(i: int) -> Seq<char> {
    if i < 0 {
        seq!['-'] + decimal((-i) as nat)
    } else {
        decimal(i as nat)
    }
}

/// A numeral is never empty.
pub proof fn lemma_decimal_nonempty(n: nat)
    ensures
        decimal(n).len() >= 1,
    decreases n,
{
    if n >= 10 {
        lemma_decimal_nonempty(n / 10);
    }
}

/// Numbers are told apart by their numerals: two numbers with the same
/// numeral are the same number.
pub proof fn lemma_decimal_injective(a: nat, b: nat)
    requires
        decimal(a) == decimal(b),
    ensures
        a == b,
    decreases a,
{
    lemma_decimal_nonempty(a / 10);
    lemma_decimal_nonempty(b / 10);
    if a < 10 && b < 10 {
        assert(decimal(a)[0] == digit_char(a));
        assert(decimal(b)[0] == digit_char(b));
    } else if a >= 10 && b >= 10 {
        let head_a = decimal(a / 10);
        let head_b = decimal(b / 10);
        let last_a = digit_char(a % 10);
        let last_b = digit_char(b % 10);
        assert(head_a.push(last_a).drop_last() =~= head_a);
        assert(head_b.push(last_b).drop_last() =~= head_b);
        assert(head_a.push(last_a).last() == last_a);
        assert(head_b.push(last_b).last() == last_b);
        assert(head_a == head_b);
        assert(last_a == last_b);
        lemma_decimal_injective(a / 10, b / 10);
        assert(a % 10 == b % 10);
        assert(a == 10 * (a / 10) + a % 10);
        assert(b == 10 * (b / 10) + b % 10);
    } else if a < 10 {
        assert(decimal(a).len() == 1);
        assert(decimal(b).len() == decimal(b / 10).len() + 1);
    } else {
        assert(decimal(b).len() == 1);
        assert(decimal(a).len() == decimal(a / 10).len() + 1);
    }
}

fn digit_text(d: u64) -> (text: &'static str)
    requires
        d < 10,
    ensures
        text@ == seq![digit_char(d as nat)],
{
    proof {
        reveal_strlit("0");
        reveal_strlit("1");
        reveal_strlit("2");
        reveal_strlit("3");
        reveal_strlit("4");
        reveal_strlit("5");
        reveal_strlit("6");
        reveal_strlit("7");
        reveal_strlit("8");
        reveal_strlit("9");
    }
    let text = if d == 0 {
        "0"
    } else if d == 1 {
        "1"
    } else if d == 2 {
        "2"
    } else if d == 3 {
        "3"
    } else if d == 4 {
        "4"
    } else if d == 5 {
        "5"
    } else if d == 6 {
        "6"
    } else if d == 7 {
        "7"
    } else if d == 8 {
        "8"
    } else {
        "9"
    };
    assert(text@ =~= seq![digit_char(d as nat)]);
    text
}

/// Writes `n` as a decimal numeral.
pub fn decimal_string(n: u64) -> (text: String)
    ensures
        text@ == decimal(n as nat),
    decreases n,
{
    if n < 10 {
        String::from_str(digit_text(n))
    } else {
        let head = decimal_string(n / 10);
        let text = head.concat(digit_text(n % 10));
        assert(text@ =~= decimal((n / 10) as nat).push(digit_char((n % 10) as nat)));
        text
    }
}

/// Writes a signed number as a decimal numeral.
pub fn signed_decimal_string(i: i64) -> (text: String)
    ensures
        text@ == signed_decimal(i as int),
{
    if i < 0 {
        let magnitude: u64 = ((-(i + 1)) as u64) + 1;
        proof {
            reveal_strlit("-");
        }
        let digits = decimal_string(magnitude);
        let text = String::from_str("-").concat(digits.as_str());
        assert(text@ =~= seq!['-'] + decimal((-(i as int)) as nat));
        text
    } else {
        decimal_string(i as u64)
    }
}

/// Joins two texts.
pub fn join(left: &str, right: &str) -> (text: String)
    ensures
        text@ == left@ + right@,
{
    String::from_str(left).concat(right)
}

/// Joins three texts.
pub fn join3(left: &str, middle: &str, right: &str) -> (text: String)
    ensures
        text@ == left@ + middle@ + right@,
{
    String::from_str(left).concat(middle).concat(right)
}

} // verus!
