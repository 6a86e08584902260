//! Decimal notation of numbers.
use vstd::prelude::*;
use vstd::string::StringExecFns;

verus! {

/// The character of the decimal digit `d`.
pub open spec fn digit_char(d: int) -> char {
    if d == 0 {
        '0'
    } else if d == 1 {
        '1'
    } else if d == 2 {
        '2'
    } else if d == 3 {
        '3'
    } else if d == 4 {
        '4'
    } else if d == 5 {
        '5'
    } else if d == 6 {
        '6'
    } else if d == 7 {
        '7'
    } else if d == 8 {
        '8'
    } else {
        '9'
    }
}

/// `n` in decimal notation, without leading zeros.
pub open spec fn decimal(n: nat) -> Seq<char>
    decreases n,
{
    if n < 10 {
        seq![digit_char(n as int)]
    } else {
        decimal(n / 10).push(digit_char((n % 10) as int))
    }
}

/// Returns the decimal digit `d` as a string.
fn digit_str(d: u64) -> (digit: &'static str)
    requires
        d < 10,
    ensures
        digit@ == seq![digit_char(d as int)],
{
    proof {
        reveal_strlit("0");
        reveal_strlit("1");
        reveal_strlit("2");
        reveal_strlit("3");
        reveal_strlit("4");
        reveal_strlit("5");
        reveal_strlit("6");
        reveal_strlit("7");
        reveal_strlit("8");
        reveal_strlit("9");
    }
    let digit = match d {
        0 => "0",
        1 => "1",
        2 => "2",
        3 => "3",
        4 => "4",
        5 => "5",
        6 => "6",
        7 => "7",
        8 => "8",
        _ => "9",
    };
    assert(digit@ =~= seq![digit_char(d as int)]);
    digit
}

/// Appends `n` in decimal notation to `text`.
pub fn append_decimal(text: &mut String, n: u64)
    ensures
        final(text)@ == old(text)@ + decimal(n as nat),
    decreases n,
{
    if n >= 10 {
        append_decimal(text, n / 10);
    }
    text.append(digit_str(n % 10));
    assert(text@ =~= old(text)@ + decimal(n as nat));
}

/// The notation of a number below ten is one character, which stands as far after `0` as the number
/// says.
pub proof fn lemma_decimal_of_digit(d: nat)
    requires
        d < 10,
    ensures
        decimal(d).len() == 1,
        decimal(d)[0] as int == '0' as int + d,
{
}

/// To append a digit to the notation of a positive number is to multiply by ten and to add the
/// digit.
pub proof fn lemma_decimal_by_digits(n: nat, d: nat)
    requires
        0 < n,
        d < 10,
    ensures
        decimal(10 * n + d) == decimal(n) + decimal(d),
{
    assert(decimal(10 * n + d) =~= decimal(n) + decimal(d));
}

/// Different numbers have different notations.
pub proof fn lemma_decimal_is_injective(m: nat, n: nat)
    requires
        decimal(m) == decimal(n),
    ensures
        m == n,
    decreases m,
{
    lemma_decimal_is_not_empty(m / 10);
    lemma_decimal_is_not_empty(n / 10);
    assert(decimal(m).last() == digit_char((m % 10) as int));
    assert(decimal(n).last() == digit_char((n % 10) as int));
    assert(m % 10 == n % 10);
    if m >= 10 && n >= 10 {
        assert(decimal(m).drop_last() =~= decimal(m / 10));
        assert(decimal(n).drop_last() =~= decimal(n / 10));
        lemma_decimal_is_injective(m / 10, n / 10);
    } else {
        assert(decimal(m).len() == decimal(n).len());
    }
}

/// There is no empty notation.
proof fn lemma_decimal_is_not_empty(n: nat)
    ensures
        decimal(n).len() > 0,
{
}

/// Of two texts that differ in a number between the same words, the number can be told.
pub proof fn lemma_number_can_be_told(before: Seq<char>, after: Seq<char>, m: nat, n: nat)
    requires
        before + decimal(m) + after == before + decimal(n) + after,
    ensures
        m == n,
{
    let text = before + decimal(m) + after;
    let from = before.len() as int;
    let to = text.len() - after.len();
    assert(text.subrange(from, to) =~= decimal(m));
    assert(text.subrange(from, to) =~= decimal(n));
    lemma_decimal_is_injective(m, n);
}

} // verus!
