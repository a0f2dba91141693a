//! Decimal rendering of integers, as it appears in query strings.

use vstd::prelude::*;
use vstd::string::*;

verus! {

/// The character that stands for the digit `d`, for `0 <= d <= 9`.
pub open spec fn digit_char(d: int) -> char {
    if d == 0 {
        '0'
    } else if d == 1 {
        '1'
    } else if d == 2 {
        '2'
    } else if d == 3 {
        '3'
    } else if d == 4 {
        '4'
    } else if d == 5 {
        '5'
    } else if d == 6 {
        '6'
    } else if d == 7 {
        '7'
    } else if d == 8 {
        '8'
    } else {
        '9'
    }
}

/// The decimal digits of `n`, most significant first, without leading zeros.
pub open spec fn decimal_nat(n: nat) -> Seq<char>
    decreases n,
{
    if n < 10 {
        seq![digit_char(n as int)]
    } else {
        decimal_nat(n / 10).push(digit_char((n % 10) as int))
    }
}

/// The decimal text of `n`: a minus sign for negative numbers, then the
/// digits of the magnitude.
pub open spec fn decimal(n: int) -> Seq<char> {
    if n < 0 {
        seq!['-'] + decimal_nat((-n) as nat)
    } else {
        decimal_nat(n as nat)
    }
}

/// Whether `c` is one of the ten digit characters.
pub open spec fn is_digit_char(c: char) -> bool {
    exists|d: int| 0 <= d <= 9 && c == #[trigger] digit_char(d)
}

/// Different digits have different characters.
pub proof fn lemma_digit_char_injective(a: int, b: int)
    requires
        0 <= a <= 9,
        0 <= b <= 9,
        digit_char(a) == digit_char(b),
    ensures
        a == b,
{
}

/// The digits of a number are at least one, all of them digit characters,
/// and more than one from ten on.
pub proof fn lemma_decimal_nat_shape(n: nat)
    ensures
        decimal_nat(n).len() >= 1,
        n >= 10 ==> decimal_nat(n).len() >= 2,
        forall|i: int| 0 <= i < decimal_nat(n).len() ==> is_digit_char(#[trigger] decimal_nat(n)[i]),
    decreases n,
{
    if n < 10 {
        assert(is_digit_char(digit_char(n as int)));
    } else {
        lemma_decimal_nat_shape(n / 10);
        assert(is_digit_char(digit_char((n % 10) as int)));
    }
}

/// Different numbers have different digits.
pub proof fn lemma_decimal_nat_injective(a: nat, b: nat)
    requires
        decimal_nat(a) == decimal_nat(b),
    ensures
        a == b,
    decreases a,
{
    lemma_decimal_nat_shape(a);
    lemma_decimal_nat_shape(b);
    if a < 10 {
        assert(decimal_nat(a).len() == 1);
        assert(b < 10);
        assert(decimal_nat(a)[0] == digit_char(a as int));
        assert(decimal_nat(b)[0] == digit_char(b as int));
        lemma_digit_char_injective(a as int, b as int);
    } else {
        lemma_decimal_nat_shape(a / 10);
        assert(decimal_nat(a).len() >= 2);
        assert(b >= 10);
        let high_a = decimal_nat(a / 10);
        let high_b = decimal_nat(b / 10);
        assert(decimal_nat(a).drop_last() =~= high_a);
        assert(decimal_nat(b).drop_last() =~= high_b);
        assert(decimal_nat(a).last() == digit_char((a % 10) as int));
        assert(decimal_nat(b).last() == digit_char((b % 10) as int));
        lemma_decimal_nat_injective(a / 10, b / 10);
        lemma_digit_char_injective((a % 10) as int, (b % 10) as int);
    }
}

/// The text of a number is not empty and holds digit characters only, but
/// for a minus sign in front of a negative number.
pub proof fn lemma_decimal_shape(n: int)
    ensures
        decimal(n).len() >= 1,
        forall|i: int|
            0 <= i < decimal(n).len() ==> is_digit_char(#[trigger] decimal(n)[i]) || (i == 0
                && n < 0 && decimal(n)[i] == '-'),
        n >= 0 ==> is_digit_char(decimal(n)[0]),
{
    if n < 0 {
        lemma_decimal_nat_shape((-n) as nat);
        let digits = decimal_nat((-n) as nat);
        assert forall|i: int| 0 <= i < decimal(n).len() implies is_digit_char(
            #[trigger] decimal(n)[i],
        ) || (i == 0 && n < 0 && decimal(n)[i] == '-') by {
            if i > 0 {
                assert(decimal(n)[i] == digits[i - 1]);
            }
        }
    } else {
        lemma_decimal_nat_shape(n as nat);
    }
}

/// Different numbers have different texts.
pub proof fn lemma_decimal_injective(a: int, b: int)
    requires
        decimal(a) == decimal(b),
    ensures
        a == b,
{
    lemma_decimal_shape(a);
    lemma_decimal_shape(b);
    assert(!is_digit_char('-'));
    if a < 0 {
        assert(decimal(a)[0] == '-');
        assert(b < 0);
        let digits_a = decimal_nat((-a) as nat);
        let digits_b = decimal_nat((-b) as nat);
        assert(decimal(a).subrange(1, decimal(a).len() as int) =~= digits_a);
        assert(decimal(b).subrange(1, decimal(b).len() as int) =~= digits_b);
        lemma_decimal_nat_injective((-a) as nat, (-b) as nat);
    } else {
        assert(is_digit_char(decimal(a)[0]));
        assert(b >= 0);
        lemma_decimal_nat_injective(a as nat, b as nat);
    }
}

/// The one-character text of a single digit.
fn digit_str(d: u64) -> (s: &'static str)
    requires
        d < 10,
    ensures
        s@ == seq![digit_char(d as int)],
{
    proof {
        reveal_strlit("0");
        reveal_strlit("1");
        reveal_strlit("2");
        reveal_strlit("3");
        reveal_strlit("4");
        reveal_strlit("5");
        reveal_strlit("6");
        reveal_strlit("7");
        reveal_strlit("8");
        reveal_strlit("9");
    }
    let s = if d == 0 {
        "0"
    } else if d == 1 {
        "1"
    } else if d == 2 {
        "2"
    } else if d == 3 {
        "3"
    } else if d == 4 {
        "4"
    } else if d == 5 {
        "5"
    } else if d == 6 {
        "6"
    } else if d == 7 {
        "7"
    } else if d == 8 {
        "8"
    } else {
        "9"
    };
    assert(s@ =~= seq![digit_char(d as int)]);
    s
}

/// Appends the decimal digits of `n` to `out`.
pub fn push_decimal_nat(out: &mut String, n: u64)
    ensures
        final(out)@ == old(out)@ + decimal_nat(n as nat),
    decreases n,
{
    if n >= 10 {
        push_decimal_nat(out, n / 10);
    }
    out.append(digit_str(n % 10));
    assert(out@ =~= old(out)@ + decimal_nat(n as nat));
}

/// Appends the decimal text of `n` to `out`.
pub fn push_decimal(out: &mut String, n: i64)
    ensures
        final(out)@ == old(out)@ + decimal(n as int),
{
    if n < 0 {
        proof {
            reveal_strlit("-");
        }
        out.append("-");
        let magnitude: u64 = if n == i64::MIN {
            0x8000_0000_0000_0000u64
        } else {
            (-n) as u64
        };
        push_decimal_nat(out, magnitude);
        assert(out@ =~= old(out)@ + decimal(n as int));
    } else {
        push_decimal_nat(out, n as u64);
    }
}

} // verus!
