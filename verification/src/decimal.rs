//! Decimal rendering of integers, as `{}` formatting writes them.

use vstd::prelude::*;

verus! {

/// The character that stands for a decimal digit.
pub open spec fn digit_char(d: nat) -> char {
    if d == 0 {
        '0'
    } else if d == 1 {
        '1'
    } else if d == 2 {
        '2'
    } else if d == 3 {
        '3'
    } else if d == 4 {
        '4'
    } else if d == 5 {
        '5'
    } else if d == 6 {
        '6'
    } else if d == 7 {
        '7'
    } else if d == 8 {
        '8'
    } else {
        '9'
    }
}

/// The decimal text of a natural number: no sign, no leading zeros, "0" for zero.
pub open spec fn nat_text(n: nat) -> Seq<char>
    decreases n,
{
    if n < 10 {
        seq![digit_char(n)]
    } else {
        nat_text(n / 10).push(digit_char(n % 10))
    }
}

/// The decimal text of an integer: a leading '-' for negative values.
pub open spec fn int_text(i: int) -> Seq<char> {
    if i < 0 {
        seq!['-'] + nat_text((-i) as nat)
    } else {
        nat_text(i as nat)
    }
}

/// The one-character string of a decimal digit.
fn digit_str(d: u128) -> (s: &'static str)
    requires
        d < 10,
    ensures
        s@ == seq![digit_char(d as nat)],
{
    if d == 0 {
        proof {
            reveal_strlit("0");
        }
        "0"
    } else if d == 1 {
        proof {
            reveal_strlit("1");
        }
        "1"
    } else if d == 2 {
        proof {
            reveal_strlit("2");
        }
        "2"
    } else if d == 3 {
        proof {
            reveal_strlit("3");
        }
        "3"
    } else if d == 4 {
        proof {
            reveal_strlit("4");
        }
        "4"
    } else if d == 5 {
        proof {
            reveal_strlit("5");
        }
        "5"
    } else if d == 6 {
        proof {
            reveal_strlit("6");
        }
        "6"
    } else if d == 7 {
        proof {
            reveal_strlit("7");
        }
        "7"
    } else if d == 8 {
        proof {
            reveal_strlit("8");
        }
        "8"
    } else {
        proof {
            reveal_strlit("9");
        }
        "9"
    }
}

/// Appends the decimal text of `n` to `s`.
pub fn push_decimal(s: &mut String, n: u128)
    ensures
        final(s)@ == old(s)@ + nat_text(n as nat),
    decreases n,
{
    if n >= 10 {
        push_decimal(s, n / 10);
    }
    s.append(digit_str(n % 10));
}

/// Appends the decimal text of a signed value to `s`.
pub fn push_signed(s: &mut String, i: i64)
    ensures
        final(s)@ == old(s)@ + int_text(i as int),
{
    if i < 0 {
        proof {
            reveal_strlit("-");
        }
        s.append("-");
        let magnitude: u128 = if i == i64::MIN {
            9223372036854775808u128
        } else {
            (-i) as u128
        };
        push_decimal(s, magnitude);
        assert(s@ =~= old(s)@ + int_text(i as int));
    } else {
        push_decimal(s, i as u128);
    }
}

/// The decimal text of `n`.
pub fn decimal(n: u128) -> (s: String)
    ensures
        s@ == nat_text(n as nat),
{
    let mut s = String::new();
    push_decimal(&mut s, n);
    assert(s@ =~= nat_text(n as nat));
    s
}

} // verus!

verus! {

/// Whether a character is one of the decimal digits `0` to `9`.
pub open spec fn is_digit(c: char) -> bool {
    '0' <= c && c <= '9'
}

/// The value of a decimal digit character.
pub open spec fn digit_value(c: char) -> int {
    c as int - '0' as int
}

/// A sequence of characters read as a base-10 numeral, the last digit the least significant.
pub open spec fn numeral_value(s: Seq<char>) -> int
    decreases s.len(),
{
    if s.len() == 0 {
        0
    } else {
        numeral_value(s.drop_last()) * 10 + digit_value(s.last())
    }
}

/// Whether a sequence is a numeral without superfluous leading zeros: one or
/// more digits, the first of them not `0` unless it is the only one.
pub open spec fn is_numeral(s: Seq<char>) -> bool {
    &&& s.len() >= 1
    &&& forall|i: int| 0 <= i < s.len() ==> is_digit(#[trigger] s[i])
    &&& (s.len() > 1 ==> s[0] != '0')
}

/// A sequence read as a signed numeral: a leading `-` negates the numeral after it.
pub open spec fn signed_numeral_value(s: Seq<char>) -> int {
    if s.len() > 0 && s[0] == '-' {
        -numeral_value(s.drop_first())
    } else {
        numeral_value(s)
    }
}

/// The digit characters stand for their values.
pub proof fn lemma_digit_char(d: nat)
    requires
        d < 10,
    ensures
        is_digit(digit_char(d)),
        digit_value(digit_char(d)) == d,
        digit_char(d) == '0' <==> d == 0,
{
}

/// The decimal text of `n` is a numeral without leading zeros whose base-10
/// value is `n`: it drops no digit and adds none.
pub proof fn lemma_nat_text_value(n: nat)
    ensures
        is_numeral(nat_text(n)),
        numeral_value(nat_text(n)) == n,
        n > 0 ==> nat_text(n)[0] != '0',
    decreases n,
{
    lemma_digit_char(n % 10);
    if n < 10 {
        assert(nat_text(n).drop_last() =~= Seq::<char>::empty());
        assert(numeral_value(Seq::<char>::empty()) == 0);
        assert(numeral_value(nat_text(n)) == numeral_value(Seq::<char>::empty()) * 10 + digit_value(
            digit_char(n),
        ));
    } else {
        lemma_nat_text_value(n / 10);
        let t = nat_text(n / 10);
        assert(nat_text(n).drop_last() =~= t);
        assert(nat_text(n)[0] == t[0]);
        assert forall|i: int| 0 <= i < nat_text(n).len() implies is_digit(#[trigger] nat_text(n)[i]) by {
            if i < t.len() {
                assert(nat_text(n)[i] == t[i]);
            }
        }
        vstd::arithmetic::div_mod::lemma_fundamental_div_mod(n as int, 10);
        assert(numeral_value(nat_text(n)) == numeral_value(t) * 10 + digit_value(digit_char(n % 10)));
        assert((n / 10) as int * 10 + (n % 10) as int == n);
    }
}

/// The decimal text of an integer read back as a signed numeral gives the
/// integer; for a negative one it is `-` followed by the numeral of its magnitude.
pub proof fn lemma_int_text_value(i: int)
    ensures
        signed_numeral_value(int_text(i)) == i,
        i < 0 ==> int_text(i) == seq!['-'] + nat_text((-i) as nat),
        i < 0 ==> is_numeral(int_text(i).drop_first()),
        i >= 0 ==> is_numeral(int_text(i)),
{
    if i < 0 {
        lemma_nat_text_value((-i) as nat);
        assert(int_text(i).drop_first() =~= nat_text((-i) as nat));
    } else {
        lemma_nat_text_value(i as nat);
        lemma_digit_char((i % 10) as nat);
        if i >= 10 {
            lemma_nat_text_value((i / 10) as nat);
        }
        assert(is_digit(int_text(i)[0]));
    }
}

} // verus!
