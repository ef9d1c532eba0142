//! Decimal text of integers, written and read the way `Display` and
//! `FromStr` of the primitive integers do it.
use vstd::prelude::*;

verus! {

/// The ASCII digit of a value below ten.
pub open spec fn digit_char(d: int) -> char {
    ((d + 48) as u32) as char
}

/// The value of an ASCII digit.
pub open spec fn digit_value(c: char) -> int {
    (c as u32) - 48
}

pub open spec fn is_digit(c: char) -> bool {
    '0' <= c <= '9'
}

/// Decimal digits of `n` without leading zeros (`"0"` for zero).
pub open spec fn decimal(n: nat) -> Seq<char>
    decreases n,
{
    if n < 10 {
        seq![digit_char(n as int)]
    } else {
        decimal(n / 10).push(digit_char((n % 10) as int))
    }
}

/// Decimal text of a signed integer: a minus sign before negative values.
pub open spec fn signed_decimal(n: int) -> Seq<char> {
    if n < 0 {
        seq!['-'] + decimal((-n) as nat)
    } else {
        decimal(n as nat)
    }
}

/// `decimal(n)` for positive `n`, empty for zero: what remains to be written
/// before the digits already produced.
spec fn leading_digits(n: nat) -> Seq<char> {
    if n == 0 {
        Seq::empty()
    } else {
        decimal(n)
    }
}

pub open spec fn all_digits(s: Seq<char>) -> bool {
    forall|i: int| 0 <= i < s.len() ==> is_digit(#[trigger] s[i])
}

/// The value of a string of ASCII digits.
pub open spec fn digits_value(s: Seq<char>) -> nat
    decreases s.len(),
{
    if s.len() == 0 {
        0
    } else {
        (10 * digits_value(s.drop_last()) + digit_value(s.last())) as nat
    }
}

/// What `str::parse::<i128>` gives: an optional sign, then at least one
/// ASCII digit and nothing else, the value in range.
pub open spec fn parsed_i128(s: Seq<char>) -> Option<i128> {
    let negative = s.len() > 0 && s[0] == '-';
    let signed = s.len() > 0 && (s[0] == '-' || s[0] == '+');
    let body = if signed {
        s.drop_first()
    } else {
        s
    };
    let value: int = if negative {
        -(digits_value(body) as int)
    } else {
        digits_value(body) as int
    };
    if body.len() == 0 || !all_digits(body) || value < i128::MIN || value > i128::MAX {
        None
    } else {
        Some(value as i128)
    }
}

proof fn lemma_leading_digits_step(n: nat)
    requires
        n > 0,
    ensures
        leading_digits(n) == leading_digits(n / 10).push(digit_char((n % 10) as int)),
{
}

proof fn lemma_digits_value_prefix_bound(s: Seq<char>, i: int)
    requires
        0 <= i <= s.len(),
        all_digits(s),
    ensures
        digits_value(s.take(i)) <= digits_value(s),
    decreases s.len() - i,
{
    if i < s.len() {
        lemma_digits_value_prefix_bound(s, i + 1);
        assert(s.take(i + 1).drop_last() == s.take(i));
        assert(is_digit(s[i]));
    } else {
        assert(s.take(i) == s);
    }
}

/// The ASCII digit of `d`.
pub fn digit_of(d: u32) -> (c: char)
    requires
        d < 10,
    ensures
        c == digit_char(d as int),
        is_digit(c),
{
    match d {
        0 => '0',
        1 => '1',
        2 => '2',
        3 => '3',
        4 => '4',
        5 => '5',
        6 => '6',
        7 => '7',
        8 => '8',
        _ => '9',
    }
}

/// Decimal digits of `n`.
pub fn decimal_digits(n: u128) -> (text: Vec<char>)
    ensures
        text@ == decimal(n as nat),
{
    if n == 0 {
        let text = vec!['0'];
        assert(text@ == decimal(0));
        return text;
    }
    let mut rest: u128 = n;
    let mut text: Vec<char> = Vec::new();
    while rest > 0
        invariant
            decimal(n as nat) == leading_digits(rest as nat) + text@,
        decreases rest,
    {
        let c = digit_of((rest % 10) as u32);
        let ghost before = text@;
        proof {
            lemma_leading_digits_step(rest as nat);
        }
        text.insert(0, c);
        assert(leading_digits(rest as nat) + before == leading_digits((rest / 10) as nat) + text@);
        rest = rest / 10;
    }
    assert(leading_digits(0) + text@ == text@);
    text
}

/// Decimal text of a signed value, as `i128`'s `Display` writes it.
pub fn signed_decimal_digits(n: i128) -> (text: Vec<char>)
    ensures
        text@ == signed_decimal(n as int),
{
    if n < 0 {
        let magnitude: u128 = ((-(n + 1)) as u128) + 1;
        let digits = decimal_digits(magnitude);
        let mut text = vec!['-'];
        let mut more = digits;
        text.append(&mut more);
        assert(text@ == seq!['-'] + decimal((-n) as nat));
        text
    } else {
        decimal_digits(n as u128)
    }
}

/// The value of an ASCII digit character.
pub fn value_of_digit(c: char) -> (d: u32)
    requires
        is_digit(c),
    ensures
        d as int == digit_value(c),
        d < 10,
{
    (c as u32) - 48
}

/// Reads a signed decimal integer as `str::parse::<i128>` does.
pub fn parse_i128(text: &[char]) -> (value: Option<i128>)
    ensures
        value == parsed_i128(text@),
{
    let s = text;
    let negative = s.len() > 0 && s[0] == '-';
    let signed = s.len() > 0 && (s[0] == '-' || s[0] == '+');
    let start: usize = if signed { 1 } else { 0 };
    let ghost body = if signed { s@.drop_first() } else { s@ };
    assert(body == s@.subrange(start as int, s@.len() as int));
    if start == s.len() {
        return None;
    }
    let mut acc: i128 = 0;
    let mut i: usize = start;
    while i < s.len()
        invariant
            start <= i <= s.len(),
            s@ == text@,
            body == s@.subrange(start as int, s@.len() as int),
            all_digits(body.take(i - start)),
            negative ==> acc == -(digits_value(body.take(i - start)) as int),
            !negative ==> acc == digits_value(body.take(i - start)) as int,
            negative == (s@.len() > 0 && s@[0] == '-'),
            signed == (s@.len() > 0 && (s@[0] == '-' || s@[0] == '+')),
            body == (if signed { s@.drop_first() } else { s@ }),
        decreases s.len() - i,
    {
        let c = s[i];
        assert(body[i - start] == c);
        assert(body.take(i - start + 1).drop_last() == body.take(i - start));
        if !('0' <= c && c <= '9') {
            assert(!is_digit(body[i - start]));
            assert(!all_digits(body));
            assert(parsed_i128(s@) is None);
            return None;
        }
        let d = value_of_digit(c) as i128;
        let next = if negative {
            match acc.checked_mul(10) {
                Some(m) => m.checked_sub(d),
                None => None,
            }
        } else {
            match acc.checked_mul(10) {
                Some(m) => m.checked_add(d),
                None => None,
            }
        };
        match next {
            Some(v) => {
                acc = v;
            },
            None => {
                proof {
                    let k = (i - start + 1) as int;
                    assert(body.take(k).last() == c);
                    assert(digits_value(body.take(k)) == 10 * digits_value(body.take(k - 1))
                        + digit_value(c));
                    if all_digits(body) {
                        lemma_digits_value_prefix_bound(body, k);
                    }
                    assert(parsed_i128(s@) is None);
                }
                return None;
            },
        }
        i = i + 1;
    }
    assert(body.take(s@.len() - start) == body);
    Some(acc)
}

proof fn lemma_digit_round_trip(d: int)
    requires
        0 <= d < 10,
    ensures
        digit_value(digit_char(d)) == d,
        is_digit(digit_char(d)),
{
    if d == 0 {
        assert(digit_char(0) == '0');
    } else if d == 1 {
        assert(digit_char(1) == '1');
    } else if d == 2 {
        assert(digit_char(2) == '2');
    } else if d == 3 {
        assert(digit_char(3) == '3');
    } else if d == 4 {
        assert(digit_char(4) == '4');
    } else if d == 5 {
        assert(digit_char(5) == '5');
    } else if d == 6 {
        assert(digit_char(6) == '6');
    } else if d == 7 {
        assert(digit_char(7) == '7');
    } else if d == 8 {
        assert(digit_char(8) == '8');
    } else if d == 9 {
        assert(digit_char(9) == '9');
    }
}

proof fn lemma_decimal_digits(n: nat)
    ensures
        decimal(n).len() > 0,
        all_digits(decimal(n)),
        digits_value(decimal(n)) == n,
    decreases n,
{
    lemma_digit_round_trip((n % 10) as int);
    if n >= 10 {
        lemma_decimal_digits(n / 10);
        let s = decimal(n);
        assert(s.drop_last() == decimal(n / 10));
        assert(s.last() == digit_char((n % 10) as int));
        assert(digits_value(s) == 10 * digits_value(decimal(n / 10)) + digit_value(s.last()));
        assert(n == 10 * (n / 10) + n % 10);
        assert forall|i: int| 0 <= i < s.len() implies is_digit(#[trigger] s[i]) by {
            if i < s.len() - 1 {
                assert(s[i] == decimal(n / 10)[i]);
            }
        }
    } else {
        let s = decimal(n);
        assert(s.drop_last() =~= Seq::<char>::empty());
        assert(digits_value(s) == 10 * digits_value(s.drop_last()) + digit_value(s.last()));
    }
}

/// Decimal text reads back as the value that wrote it.
pub proof fn signed_decimal_reads_back(n: i128)
    ensures
        parsed_i128(signed_decimal(n as int)) == Some(n),
        !signed_decimal(n as int).contains('~'),
{
    if n < 0 {
        lemma_decimal_digits((-n) as nat);
        let s = signed_decimal(n as int);
        assert(s.drop_first() == decimal((-n) as nat));
        assert forall|i: int| 0 <= i < s.len() implies s[i] != '~' by {
            if i > 0 {
                assert(s[i] == decimal((-n) as nat)[i - 1]);
                assert(is_digit(decimal((-n) as nat)[i - 1]));
            }
        }
    } else {
        lemma_decimal_digits(n as nat);
        let s = signed_decimal(n as int);
        assert(is_digit(s[0]));
        assert forall|i: int| 0 <= i < s.len() implies s[i] != '~' by {
            assert(is_digit(s[i]));
        }
    }
}

} // verus!
