//! Decimal rendering of integers.

use vstd::prelude::*;
use vstd::string::StringExecFns;

verus! {

/// The character of the decimal digit `d`.
pub open spec fn digit(d: int) -> char {
    (48 + d) as char
}

/// The decimal digits of `n`, most significant first, without leading zeros.
pub open spec fn decimal_nat(n: nat) -> Seq<char>
    decreases n,
{
    if n < 10 {
        seq![digit(n as int)]
    } else {
        decimal_nat(n / 10).push(digit((n % 10) as int))
    }
}

/// The decimal notation of `i`: its digits, after a minus sign where it is negative.
pub open spec fn decimal(i: int) -> Seq<char> {
    if i < 0 {
        seq!['-'] + decimal_nat((-i) as nat)
    } else {
        decimal_nat(i as nat)
    }
}

/// The one-character string of a digit.
fn digit_str(d: u64) -> (s: &'static str)
    requires
        d < 10,
    ensures
        s@ == seq![digit(d as int)],
{
    proof {
        reveal_strlit("0");
        reveal_strlit("1");
        reveal_strlit("2");
        reveal_strlit("3");
        reveal_strlit("4");
        reveal_strlit("5");
        reveal_strlit("6");
        reveal_strlit("7");
        reveal_strlit("8");
        reveal_strlit("9");
    }
    match d {
        0 => "0",
        1 => "1",
        2 => "2",
        3 => "3",
        4 => "4",
        5 => "5",
        6 => "6",
        7 => "7",
        8 => "8",
        _ => "9",
    }
}

/// Appends the digits of `n` to `out`.
fn push_digits(out: &mut String, n: u64)
    ensures
        final(out)@ == old(out)@ + decimal_nat(n as nat),
    decreases n,
{
    if n >= 10 {
        push_digits(out, n / 10);
    }
    out.append(digit_str(n % 10));
}

/// The decimal notation of `i`.
pub fn to_decimal(i: i64) -> (s: String)
    ensures
        s@ == decimal(i as int),
        reads_as(s@, i as int),
{
    proof {
        law_decimal_reads_back(i as int);
    }
    let mut out = String::new();
    if i < 0 {
        out.append("-");
        proof {
            reveal_strlit("-");
        }
        let magnitude: u64 = (-(i as i128)) as u64;
        push_digits(&mut out, magnitude);
    } else {
        push_digits(&mut out, i as u64);
    }
    out
}

/// Different numbers have different digits.
pub proof fn lemma_decimal_nat_injective(m: nat, n: nat)
    requires
        decimal_nat(m) == decimal_nat(n),
    ensures
        m == n,
    decreases m,
{
    let a = decimal_nat(m);
    let b = decimal_nat(n);
    assert(a.len() == b.len());
    assert(a.last() as int == 48 + m % 10);
    assert(b.last() as int == 48 + n % 10);
    if m >= 10 {
        lemma_decimal_nat_not_empty(m / 10);
    }
    if n >= 10 {
        lemma_decimal_nat_not_empty(n / 10);
    }
    if m >= 10 && n >= 10 {
        assert(a.drop_last() == decimal_nat(m / 10));
        assert(b.drop_last() == decimal_nat(n / 10));
        lemma_decimal_nat_injective(m / 10, n / 10);
    }
}

proof fn lemma_decimal_nat_not_empty(n: nat)
    ensures
        decimal_nat(n).len() > 0,
        48 <= decimal_nat(n)[0] as int <= 57,
    decreases n,
{
    if n >= 10 {
        lemma_decimal_nat_not_empty(n / 10);
    }
}

/// Different integers have different decimal notations.
pub proof fn lemma_decimal_injective(i: int, j: int)
    requires
        decimal(i) == decimal(j),
    ensures
        i == j,
{
    lemma_decimal_nat_not_empty((if i < 0 { -i } else { i }) as nat);
    lemma_decimal_nat_not_empty((if j < 0 { -j } else { j }) as nat);
    assert(decimal(i)[0] == decimal(j)[0]);
    if i < 0 {
        assert(decimal(i).skip(1) == decimal_nat((-i) as nat));
        assert(decimal(j).skip(1) == decimal_nat((-j) as nat));
        lemma_decimal_nat_injective((-i) as nat, (-j) as nat);
    } else {
        lemma_decimal_nat_injective(i as nat, j as nat);
    }
}

/// The number that a row of decimal digits stands for.
pub open spec fn number_read(digits: Seq<char>) -> int
    decreases digits.len(),
{
    if digits.len() == 0 {
        0
    } else {
        10 * number_read(digits.drop_last()) + (digits.last() as int - '0' as int)
    }
}

/// Whether `c` is one of the characters from 0 to 9.
pub open spec fn is_digit(c: char) -> bool {
    '0' as int <= c as int && c as int <= '9' as int
}

/// Whether `digits` are digits only, without a needless leading zero, that read as `amount`.
pub open spec fn digits_of(digits: Seq<char>, amount: int) -> bool {
    &&& digits.len() > 0
    &&& forall|at: int| 0 <= at < digits.len() ==> is_digit(#[trigger] digits[at])
    &&& digits.len() > 1 ==> digits[0] != '0'
    &&& number_read(digits) == amount
}

/// Whether `text` is how `i` is written: a minus sign exactly if `i` is negative, then the
/// digits of its amount.
pub open spec fn reads_as(text: Seq<char>, i: int) -> bool {
    if i < 0 {
        text.len() > 0 && text[0] == '-' && digits_of(text.skip(1), -i)
    } else {
        digits_of(text, i)
    }
}

proof fn lemma_decimal_nat_reads_back(n: nat)
    ensures
        digits_of(decimal_nat(n), n as int),
        n > 0 ==> decimal_nat(n)[0] != '0',
    decreases n,
{
    let digits = decimal_nat(n);
    assert(digits.len() > 0);
    assert(digits.last() as int == 48 + n % 10);
    if n >= 10 {
        let front = decimal_nat(n / 10);
        lemma_decimal_nat_reads_back(n / 10);
        assert(digits.drop_last() == front);
        assert(digits[0] == front[0]);
        assert forall|at: int| 0 <= at < digits.len() implies is_digit(#[trigger] digits[at]) by {
            if at < front.len() {
                assert(is_digit(front[at]));
                assert(digits[at] == front[at]);
            } else {
                assert(digits[at] == digits.last());
            }
        }
    } else {
        assert(digits.drop_last() == Seq::<char>::empty());
        assert(number_read(digits.drop_last()) == 0);
        assert(digits[0] as int == 48 + n);
    }
}

/// The decimal notation of a number reads back as that number.
pub proof fn law_decimal_reads_back(i: int)
    ensures
        reads_as(decimal(i), i),
{
    if i < 0 {
        lemma_decimal_nat_reads_back((-i) as nat);
        assert(decimal(i).skip(1) == decimal_nat((-i) as nat));
        assert(decimal(i)[0] == '-');
    } else {
        lemma_decimal_nat_reads_back(i as nat);
    }
}

} // verus!
