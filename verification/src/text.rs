//! Decimal numbers in text: how an id is written and read back.

use vstd::prelude::*;
use vstd::string::*;

verus! {

/// The character that stands for the digit `d`.
pub open spec fn digit_char(d: nat) -> char {
    if d == 0 {
        '0'
    } else if d == 1 {
        '1'
    } else if d == 2 {
        '2'
    } else if d == 3 {
        '3'
    } else if d == 4 {
        '4'
    } else if d == 5 {
        '5'
    } else if d == 6 {
        '6'
    } else if d == 7 {
        '7'
    } else if d == 8 {
        '8'
    } else {
        '9'
    }
}

/// Whether `c` is one of the ten decimal digits.
pub open spec fn is_digit(c: char) -> bool {
    c == '0' || c == '1' || c == '2' || c == '3' || c == '4' || c == '5' || c == '6' || c == '7'
        || c == '8' || c == '9'
}

/// The digit that `c` stands for; 0 where `c` is no digit.
pub open spec fn digit_value(c: char) -> nat {
    if c == '1' {
        1
    } else if c == '2' {
        2
    } else if c == '3' {
        3
    } else if c == '4' {
        4
    } else if c == '5' {
        5
    } else if c == '6' {
        6
    } else if c == '7' {
        7
    } else if c == '8' {
        8
    } else if c == '9' {
        9
    } else {
        0
    }
}

/// The decimal notation of `n`, without sign or leading zeros.
pub open spec fn decimal(n: nat) -> Seq<char>
    decreases n,
{
    if n < 10 {
        seq![digit_char(n)]
    } else {
        decimal(n / 10).push(digit_char(n % 10))
    }
}

/// Whether every character of `s` is a decimal digit.
pub open spec fn all_digits(s: Seq<char>) -> bool {
    forall|i: int| 0 <= i < s.len() ==> is_digit(#[trigger] s[i])
}

/// The number that a run of digits denotes, read as decimal.
pub open spec fn digits_value(s: Seq<char>) -> nat
    decreases s.len(),
{
    if s.len() == 0 {
        0
    } else {
        digits_value(s.drop_last()) * 10 + digit_value(s.last())
    }
}

/// What is left of `s` once an optional leading `+` is taken off.
pub open spec fn unsigned_part(s: Seq<char>) -> Seq<char> {
    if s.len() > 0 && s[0] == '+' {
        s.skip(1)
    } else {
        s
    }
}

/// The number that `s` denotes where it is an optional `+` followed by
/// one or more decimal digits whose value is at most `max`; `None` for
/// any other text.
pub open spec fn parse_decimal(s: Seq<char>, max: nat) -> Option<nat> {
    let digits = unsigned_part(s);
    if digits.len() > 0 && all_digits(digits) && digits_value(digits) <= max {
        Some(digits_value(digits))
    } else {
        None
    }
}

/// The decimal notation of a number is never empty, and has one
/// character exactly when the number is below ten.
pub proof fn lemma_decimal_len(n: nat)
    ensures
        decimal(n).len() >= 1,
        decimal(n).len() == 1 <==> n < 10,
    decreases n,
{
    if n >= 10 {
        lemma_decimal_len(n / 10);
    }
}

/// The decimal notation of a number holds digits only, and these denote
/// the number.
pub proof fn lemma_decimal_value(n: nat)
    ensures
        all_digits(decimal(n)),
        digits_value(decimal(n)) == n,
    decreases n,
{
    if n < 10 {
        let s = decimal(n);
        assert(s.drop_last() =~= Seq::<char>::empty());
        assert(digits_value(s.drop_last()) == 0);
        assert(s.last() == digit_char(n));
    } else {
        lemma_decimal_value(n / 10);
        let s = decimal(n);
        assert(s.drop_last() =~= decimal(n / 10));
        assert(s.last() == digit_char(n % 10));
        assert forall|i: int| 0 <= i < s.len() implies is_digit(#[trigger] s[i]) by {
            if i < s.len() - 1 {
                assert(s[i] == decimal(n / 10)[i]);
            }
        }
    }
}

/// Two numbers with the same decimal notation are the same number.
pub proof fn lemma_decimal_injective(a: nat, b: nat)
    requires
        decimal(a) == decimal(b),
    ensures
        a == b,
{
    lemma_decimal_value(a);
    lemma_decimal_value(b);
}

/// The decimal notation of a number does not start with a sign.
pub proof fn lemma_decimal_unsigned(n: nat)
    ensures
        unsigned_part(decimal(n)) == decimal(n),
{
    lemma_decimal_value(n);
    lemma_decimal_len(n);
    assert(is_digit(decimal(n)[0]));
}

/// Reading back the decimal notation of a number gives that number.
pub proof fn lemma_parse_decimal_of_decimal(n: nat, max: nat)
    requires
        n <= max,
    ensures
        parse_decimal(decimal(n), max) == Some(n),
{
    lemma_decimal_value(n);
    lemma_decimal_len(n);
    lemma_decimal_unsigned(n);
}

/// A run of digits denotes at least what any shorter run at its start denotes.
pub proof fn lemma_digits_value_prefix(s: Seq<char>, k: int)
    requires
        0 <= k <= s.len(),
    ensures
        digits_value(s.take(k)) <= digits_value(s),
    decreases s.len() - k,
{
    if k < s.len() {
        lemma_digits_value_prefix(s, k + 1);
        assert(s.take(k + 1).drop_last() =~= s.take(k));
    } else {
        assert(s.take(k) =~= s);
    }
}

/// The one-character text of the digit `d`.
fn digit_str(d: usize) -> (r: &'static str)
    requires
        d < 10,
    ensures
        r@ == seq![digit_char(d as nat)],
{
    proof {
        reveal_strlit("0");
        reveal_strlit("1");
        reveal_strlit("2");
        reveal_strlit("3");
        reveal_strlit("4");
        reveal_strlit("5");
        reveal_strlit("6");
        reveal_strlit("7");
        reveal_strlit("8");
        reveal_strlit("9");
    }
    let r = if d == 0 {
        "0"
    } else if d == 1 {
        "1"
    } else if d == 2 {
        "2"
    } else if d == 3 {
        "3"
    } else if d == 4 {
        "4"
    } else if d == 5 {
        "5"
    } else if d == 6 {
        "6"
    } else if d == 7 {
        "7"
    } else if d == 8 {
        "8"
    } else {
        "9"
    };
    assert(r@ =~= seq![digit_char(d as nat)]);
    r
}

/// Writes `n` in decimal.
pub fn decimal_string(n: usize) -> (s: String)
    ensures
        s@ == decimal(n as nat),
    decreases n,
{
    if n < 10 {
        String::from_str(digit_str(n))
    } else {
        let mut s = decimal_string(n / 10);
        s.append(digit_str(n % 10));
        assert(s@ =~= decimal((n / 10) as nat).push(digit_char((n % 10) as nat)));
        s
    }
}

/// The digit that `c` stands for, if it is one.
fn digit_of(c: char) -> (r: Option<usize>)
    ensures
        r is Some <==> is_digit(c),
        r matches Some(d) ==> d == digit_value(c) && d < 10,
{
    if c == '0' {
        Some(0)
    } else if c == '1' {
        Some(1)
    } else if c == '2' {
        Some(2)
    } else if c == '3' {
        Some(3)
    } else if c == '4' {
        Some(4)
    } else if c == '5' {
        Some(5)
    } else if c == '6' {
        Some(6)
    } else if c == '7' {
        Some(7)
    } else if c == '8' {
        Some(8)
    } else if c == '9' {
        Some(9)
    } else {
        None
    }
}

/// Reads `s` as a decimal number: an optional `+`, then one or more
/// digits. Text of any other shape, and a number that does not fit in
/// `usize`, give `None`.
pub fn parse_usize(s: &str) -> (r: Option<usize>)
    ensures
        r matches Some(n) ==> parse_decimal(s@, usize::MAX as nat) == Some(n as nat),
        r is None ==> parse_decimal(s@, usize::MAX as nat) is None,
{
    let len = s.unicode_len();
    if len == 0 {
        return None;
    }
    let start: usize = if s.get_char(0) == '+' { 1 } else { 0 };
    if start == len {
        assert(unsigned_part(s@).len() == 0);
        return None;
    }
    let ghost digits = unsigned_part(s@);
    assert(digits =~= s@.skip(start as int));
    let mut acc: usize = 0;
    let mut i: usize = start;
    assert(digits.take(0) =~= Seq::<char>::empty());
    while i < len
        invariant
            start <= i <= len,
            len == s@.len(),
            start <= 1,
            digits == s@.skip(start as int),
            digits == unsigned_part(s@),
            all_digits(digits.take(i - start)),
            acc == digits_value(digits.take(i - start)),
        decreases len - i,
    {
        let c = s.get_char(i);
        let ghost k = i - start;
        assert(digits[k] == c);
        match digit_of(c) {
            None => {
                assert(!is_digit(digits[k]));
                assert(!all_digits(digits));
                return None;
            },
            Some(d) => {
                proof {
                    assert(digits.take(k + 1).drop_last() =~= digits.take(k));
                    assert(digits.take(k + 1).last() == c);
                    assert(digits_value(digits.take(k + 1)) == acc * 10 + d);
                    assert forall|j: int| 0 <= j < k + 1 implies is_digit(
                        #[trigger] digits.take(k + 1)[j],
                    ) by {
                        if j < k {
                            assert(digits.take(k + 1)[j] == digits.take(k)[j]);
                        }
                    }
                }
                if acc > (usize::MAX - d) / 10 {
                    proof {
                        lemma_digits_value_prefix(digits, k + 1);
                        assert(digits_value(digits) > usize::MAX);
                    }
                    return None;
                }
                acc = acc * 10 + d;
                i = i + 1;
            },
        }
    }
    assert(digits.take(i - start) =~= digits);
    Some(acc)
}

} // verus!
