//! Decimal text of integers, as Rust's `Display` writes it: the digits
//! without leading zeros, after a `-` for a negative number.
use vstd::prelude::*;

verus! {

/// The character of a decimal digit.
pub open spec fn digit_char(d: int) -> char
    recommends
        0 <= d < 10,
{
    (d + 48) as char
}

/// The decimal digits of a natural number, most significant first.
pub open spec fn decimal_digits(n: nat) -> Seq<char>
    decreases n,
{
    if n < 10 {
        seq![digit_char(n as int)]
    } else {
        decimal_digits(n / 10).push(digit_char((n % 10) as int))
    }
}

/// The decimal text of an integer.
pub open spec fn decimal_text(v: int) -> Seq<char> {
    if v < 0 {
        seq!['-'] + decimal_digits((-v) as nat)
    } else {
        decimal_digits(v as nat)
    }
}

/// Appends one decimal digit.
fn append_digit(text: &mut String, d: u64)
    requires
        d < 10,
    ensures
        final(text)@ == old(text)@.push(digit_char(d as int)),
{
    proof {
        reveal_strlit("0");
        reveal_strlit("1");
        reveal_strlit("2");
        reveal_strlit("3");
        reveal_strlit("4");
        reveal_strlit("5");
        reveal_strlit("6");
        reveal_strlit("7");
        reveal_strlit("8");
        reveal_strlit("9");
    }
    let ghost before = text@;
    if d == 0 {
        text.append("0");
    } else if d == 1 {
        text.append("1");
    } else if d == 2 {
        text.append("2");
    } else if d == 3 {
        text.append("3");
    } else if d == 4 {
        text.append("4");
    } else if d == 5 {
        text.append("5");
    } else if d == 6 {
        text.append("6");
    } else if d == 7 {
        text.append("7");
    } else if d == 8 {
        text.append("8");
    } else {
        text.append("9");
    }
    assert(text@ =~= before.push(digit_char(d as int)));
}

/// Appends the decimal digits of `n`.
fn append_digits(text: &mut String, n: u64)
    ensures
        final(text)@ == old(text)@ + decimal_digits(n as nat),
    decreases n,
{
    let ghost before = text@;
    if n >= 10 {
        append_digits(text, n / 10);
        append_digit(text, n % 10);
        assert(text@ =~= before + decimal_digits(n as nat));
    } else {
        append_digit(text, n);
        assert(text@ =~= before + decimal_digits(n as nat));
    }
}

/// The decimal text of a signed integer.
pub fn decimal_string(v: i64) -> (text: String)
    ensures
        text@ == decimal_text(v as int),
{
    let mut text = String::new();
    if v < 0 {
        proof {
            reveal_strlit("-");
        }
        text.append("-");
        let magnitude: u64 = (0i128 - v as i128) as u64;
        append_digits(&mut text, magnitude);
    } else {
        append_digits(&mut text, v as u64);
    }
    assert(text@ =~= decimal_text(v as int));
    text
}

/// Whether a character is one of the decimal digits `0` to `9`.
pub open spec fn is_decimal_digit(c: char) -> bool {
    48 <= c as int <= 57
}

/// The number that a string of decimal digits denotes, most significant
/// digit first.
pub open spec fn digits_value(s: Seq<char>) -> int
    decreases s.len(),
{
    if s.len() == 0 {
        0
    } else {
        digits_value(s.drop_last()) * 10 + (s.last() as int - 48)
    }
}

/// The number that decimal text denotes: digits, after a `-` for a
/// negative number.
pub open spec fn signed_decimal_value(s: Seq<char>) -> int {
    if s.len() > 0 && s[0] == '-' {
        -digits_value(s.drop_first())
    } else {
        digits_value(s)
    }
}

/// The digits of a natural number are digits, there is at least one, there
/// is no leading zero, and they denote the number.
pub proof fn lemma_decimal_digits_denote(n: nat)
    ensures
        decimal_digits(n).len() > 0,
        forall|i: int| 0 <= i < decimal_digits(n).len() ==> is_decimal_digit(#[trigger] decimal_digits(n)[i]),
        n > 0 ==> decimal_digits(n)[0] != '0',
        digits_value(decimal_digits(n)) == n,
    decreases n,
{
    if n >= 10 {
        lemma_decimal_digits_denote(n / 10);
        let prefix = decimal_digits(n / 10);
        let d: int = (n % 10) as int;
        assert(decimal_digits(n) == prefix.push(digit_char(d)));
        assert(decimal_digits(n).drop_last() =~= prefix);
        assert(decimal_digits(n)[0] == prefix[0]);
        assert(digit_char(d) as int == d + 48);
        assert((n / 10) as int * 10 + d == n);
        assert(decimal_digits(n).last() == digit_char(d));
        assert(digits_value(decimal_digits(n)) == digits_value(prefix) * 10 + d);
    } else {
        assert(digit_char(n as int) as int == n + 48);
        assert(decimal_digits(n).drop_last() =~= Seq::<char>::empty());
        assert(digits_value(Seq::<char>::empty()) == 0);
        assert(decimal_digits(n).last() == digit_char(n as int));
        assert(digits_value(decimal_digits(n)) == 0 * 10 + n);
    }
}

/// The decimal text of any integer reads back as that integer; it starts
/// with `-` exactly when the integer is negative, and every other character
/// is a digit.
pub proof fn lemma_decimal_text_denotes(v: int)
    ensures
        signed_decimal_value(decimal_text(v)) == v,
        decimal_text(v).len() > 0,
        (decimal_text(v)[0] == '-') == (v < 0),
        forall|i: int|
            (if v < 0 {
                1int
            } else {
                0int
            }) <= i < decimal_text(v).len() ==> is_decimal_digit(#[trigger] decimal_text(v)[i]),
{
    if v < 0 {
        let digits = decimal_digits((-v) as nat);
        lemma_decimal_digits_denote((-v) as nat);
        assert(decimal_text(v).drop_first() =~= digits);
        assert forall|i: int| 1 <= i < decimal_text(v).len() implies is_decimal_digit(
            #[trigger] decimal_text(v)[i],
        ) by {
            assert(decimal_text(v)[i] == digits[i - 1]);
        }
    } else {
        lemma_decimal_digits_denote(v as nat);
        assert(is_decimal_digit(decimal_text(v)[0]));
    }
}

/// Two integers with the same decimal text are equal.
pub proof fn lemma_decimal_text_injective(a: int, b: int)
    requires
        decimal_text(a) == decimal_text(b),
    ensures
        a == b,
{
    lemma_decimal_text_denotes(a);
    lemma_decimal_text_denotes(b);
}

} // verus!
