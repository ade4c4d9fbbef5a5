//! Decimal text for integers, used by the textual forms of points and
//! rectangles.

use vstd::prelude::*;

verus! {

/// The character for a decimal digit.
pub open spec fn digit_char(d: nat) -> char {
    if d == 0 { '0' }
    else if d == 1 { '1' }
    else if d == 2 { '2' }
    else if d == 3 { '3' }
    else if d == 4 { '4' }
    else if d == 5 { '5' }
    else if d == 6 { '6' }
    else if d == 7 { '7' }
    else if d == 8 { '8' }
    else { '9' }
}

/// The decimal digits of `n`, most significant first, without leading zeros
/// (zero itself is `"0"`).
pub open spec fn decimal_digits(n: nat) -> Seq<char>
    decreases n,
{
    if n < 10 {
        seq![digit_char(n)]
    } else {
        decimal_digits(n / 10).push(digit_char(n % 10))
    }
}

/// The decimal text of an integer: a minus sign for negative numbers, then
/// the digits of its magnitude.
pub open spec fn decimal_text(i: int) -> Seq<char> {
    if i < 0 {
        seq!['-'] + decimal_digits((-i) as nat)
    } else {
        decimal_digits(i as nat)
    }
}

/// The number a decimal digit character stands for.
pub open spec fn digit_value(c: char) -> int {
    (c as int) - ('0' as int)
}

/// The number a string of decimal digits stands for, most significant
/// digit first; the empty string stands for zero.
pub open spec fn decimal_value(s: Seq<char>) -> int
    decreases s.len(),
{
    if s.len() == 0 {
        0
    } else {
        decimal_value(s.drop_last()) * 10 + digit_value(s.last())
    }
}

/// The character written for the digit `d` is the ASCII digit `'0' + d`.
pub proof fn lemma_digit_char_is_ascii_digit(d: nat)
    requires
        d < 10,
    ensures
        digit_char(d) as int == '0' as int + d,
        '0' <= digit_char(d) <= '9',
{
}

/// The decimal digits of `n` are ASCII digits, start with a nonzero digit
/// unless `n` is zero, and read back as `n`.
pub proof fn lemma_decimal_digits_read_back(n: nat)
    ensures
        decimal_value(decimal_digits(n)) == n,
        forall|i: int| 0 <= i < decimal_digits(n).len() ==> '0' <= #[trigger] decimal_digits(n)[i] <= '9',
        decimal_digits(n).len() >= 1,
        n > 0 ==> decimal_digits(n)[0] != '0',
    decreases n,
{
    if n < 10 {
        lemma_digit_char_is_ascii_digit(n);
        let s = decimal_digits(n);
        assert(s.drop_last() =~= Seq::<char>::empty());
        assert(decimal_value(s.drop_last()) == 0);
        assert(s.last() == digit_char(n));
        assert(decimal_value(s) == decimal_value(s.drop_last()) * 10 + digit_value(s.last()));
    } else {
        let q = n / 10;
        let r = n % 10;
        lemma_decimal_digits_read_back(q);
        lemma_digit_char_is_ascii_digit(r);
        let s = decimal_digits(n);
        assert(s.drop_last() =~= decimal_digits(q));
        assert(s.last() == digit_char(r));
        assert(n == q * 10 + r);
        assert(decimal_value(s) == decimal_value(s.drop_last()) * 10 + digit_value(s.last()));
        assert forall|i: int| 0 <= i < s.len() implies '0' <= #[trigger] s[i] <= '9' by {
            if i < s.len() - 1 {
                assert(s[i] == decimal_digits(q)[i]);
            }
        }
        assert(s[0] == decimal_digits(q)[0]);
    }
}

/// The decimal text of an integer reads back as that integer: a minus sign
/// exactly when it is negative, then the digits of its magnitude.
pub proof fn lemma_decimal_text_reads_back(i: int)
    ensures
        (decimal_text(i)[0] == '-') == (i < 0),
        i < 0 ==> -decimal_value(decimal_text(i).drop_first()) == i,
        i >= 0 ==> decimal_value(decimal_text(i)) == i,
{
    if i < 0 {
        lemma_decimal_digits_read_back((-i) as nat);
        assert(decimal_text(i).drop_first() =~= decimal_digits((-i) as nat));
    } else {
        lemma_decimal_digits_read_back(i as nat);
        assert('0' <= decimal_text(i)[0] <= '9');
    }
}

/// Append the character of the digit `d`.
fn push_digit(s: &mut String, d: u64)
    requires
        d < 10,
    ensures
        final(s)@ == old(s)@.push(digit_char(d as nat)),
{
    let t: &str = if d == 0 {
        proof { reveal_strlit("0"); }
        "0"
    } else if d == 1 {
        proof { reveal_strlit("1"); }
        "1"
    } else if d == 2 {
        proof { reveal_strlit("2"); }
        "2"
    } else if d == 3 {
        proof { reveal_strlit("3"); }
        "3"
    } else if d == 4 {
        proof { reveal_strlit("4"); }
        "4"
    } else if d == 5 {
        proof { reveal_strlit("5"); }
        "5"
    } else if d == 6 {
        proof { reveal_strlit("6"); }
        "6"
    } else if d == 7 {
        proof { reveal_strlit("7"); }
        "7"
    } else if d == 8 {
        proof { reveal_strlit("8"); }
        "8"
    } else {
        proof { reveal_strlit("9"); }
        "9"
    };
    assert(t@ =~= seq![digit_char(d as nat)]);
    s.append(t);
}

/// Append the decimal digits of `n`.
fn push_digits(s: &mut String, n: u64)
    ensures
        final(s)@ == old(s)@ + decimal_digits(n as nat),
    decreases n,
{
    if n >= 10 {
        push_digits(s, n / 10);
    }
    push_digit(s, n % 10);
    assert(s@ =~= old(s)@ + decimal_digits(n as nat));
}

/// Append the decimal text of `v`.
pub(crate) fn push_i32(s: &mut String, v: i32)
    ensures
        final(s)@ == old(s)@ + decimal_text(v as int),
{
    if v < 0 {
        proof { reveal_strlit("-"); }
        s.append("-");
        let wide: i64 = v as i64;
        let mag: u64 = (-wide) as u64;
        push_digits(s, mag);
        assert(s@ =~= old(s)@ + decimal_text(v as int));
    } else {
        push_digits(s, v as u64);
    }
}

} // verus!
