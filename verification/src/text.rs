//! Text and sharing helpers.

use std::rc::Rc;
use vstd::prelude::*;

verus! {

/// Whether the two strings hold the same characters.
pub(crate) fn str_eq(a: &str, b: &str) -> (r: bool)
    ensures
        r == (a@ == b@),
{
    a.to_owned() == b.to_owned()
}

/// `Rc::clone`: a second handle to the same allocation, and so to the same
/// value.
#[verifier::external_body]
pub(crate) fn share<T>(r: &Rc<T>) -> (res: Rc<T>)
    ensures
        res == *r,
{
    Rc::clone(r)
}

/// `String::from_iter` over characters: the string made of `chars`, in
/// order.
#[verifier::external_body]
pub(crate) fn string_of_chars(chars: &Vec<char>) -> (r: String)
    ensures
        r@ == chars@,
{
    chars.iter().collect()
}

/// `str::chars`, collected: the characters of `text`, in order.
#[verifier::external_body]
pub(crate) fn chars_of(text: &str) -> (r: Vec<char>)
    ensures
        r@ == text@,
{
    text.chars().collect()
}

/// The value of the decimal digit `c`, if it is one.
pub open spec fn digit_value(c: char) -> Option<nat> {
    if c == '0' {
        Some(0nat)
    } else if c == '1' {
        Some(1nat)
    } else if c == '2' {
        Some(2nat)
    } else if c == '3' {
        Some(3nat)
    } else if c == '4' {
        Some(4nat)
    } else if c == '5' {
        Some(5nat)
    } else if c == '6' {
        Some(6nat)
    } else if c == '7' {
        Some(7nat)
    } else if c == '8' {
        Some(8nat)
    } else if c == '9' {
        Some(9nat)
    } else {
        None
    }
}

/// Whether every character of `text` is a decimal digit.
pub open spec fn all_digits(text: Seq<char>) -> bool {
    forall|i: int| 0 <= i < text.len() ==> digit_value(#[trigger] text[i]) is Some
}

/// The number that the decimal digits of `text` denote.
pub open spec fn digits_value(text: Seq<char>) -> nat
    recommends
        all_digits(text),
    decreases text.len(),
{
    if text.len() == 0 {
        0
    } else {
        digits_value(text.drop_last()) * 10 + digit_value(text.last()).unwrap()
    }
}

/// The integer that `text` denotes in decimal: an optional sign and then
/// one digit or more, and a value that can be held. Any other text denotes
/// none.
pub open spec fn parsed_int(text: Seq<char>) -> Option<i64> {
    let negative = text.len() > 0 && text[0] == '-';
    let signed = text.len() > 0 && (text[0] == '-' || text[0] == '+');
    let body = if signed {
        text.skip(1)
    } else {
        text
    };
    if body.len() == 0 || !all_digits(body) {
        None
    } else {
        let value = if negative {
            -(digits_value(body) as int)
        } else {
            digits_value(body) as int
        };
        if i64::MIN <= value <= i64::MAX {
            Some(value as i64)
        } else {
            None
        }
    }
}

fn value_of_digit(c: char) -> (r: Option<u8>)
    ensures
        match r {
            Some(d) => digit_value(c) == Some(d as nat),
            None => digit_value(c) is None,
        },
{
    if c == '0' {
        Some(0)
    } else if c == '1' {
        Some(1)
    } else if c == '2' {
        Some(2)
    } else if c == '3' {
        Some(3)
    } else if c == '4' {
        Some(4)
    } else if c == '5' {
        Some(5)
    } else if c == '6' {
        Some(6)
    } else if c == '7' {
        Some(7)
    } else if c == '8' {
        Some(8)
    } else if c == '9' {
        Some(9)
    } else {
        None
    }
}

/// The integer that `text` denotes in decimal, if it denotes one that can
/// be held.
pub fn parse_int(text: &str) -> (r: Option<i64>)
    ensures
        r == parsed_int(text@),
{
    let chars = chars_of(text);
    let n = chars.len();
    if n == 0 {
        return None;
    }
    let negative = chars[0] == '-';
    let start: usize = if chars[0] == '-' || chars[0] == '+' {
        1
    } else {
        0
    };
    if start == n {
        return None;
    }
    let ghost body = text@.skip(start as int);
    assert(text@.skip(0) =~= text@);
    let mut acc: u128 = 0;
    let mut too_big = false;
    let mut i: usize = start;
    assert(body.take(0).len() == 0);
    while i < n
        invariant
            start <= i <= n,
            n == chars.len(),
            chars@ == text@,
            n > 0,
            negative == (text@[0] == '-'),
            start == (if text@[0] == '-' || text@[0] == '+' { 1usize } else { 0usize }),
            body == text@.skip(start as int),
            all_digits(body.take(i - start)),
            !too_big ==> acc == digits_value(body.take(i - start)) && acc <= 9223372036854775808,
            too_big ==> digits_value(body.take(i - start)) > 9223372036854775808,
        decreases n - i,
    {
        let ghost seen = body.take(i - start);
        let ghost more = body.take(i + 1 - start);
        proof {
            assert(more.drop_last() =~= seen);
            assert(more.last() == chars@[i as int]);
        }
        let d = match value_of_digit(chars[i]) {
            Some(d) => d,
            None => {
                proof {
                    assert(body[i - start] == chars@[i as int]);
                    assert(!all_digits(body));
                    assert(text@.skip(0) =~= text@);
                }
                return None;
            },
        };
        proof {
            assert forall|j: int| 0 <= j < more.len() implies digit_value(#[trigger] more[j]) is Some by {
                if j < seen.len() {
                    assert(more[j] == seen[j]);
                }
            }
        }
        if !too_big {
            let next = acc * 10 + d as u128;
            if next > 9223372036854775808 {
                too_big = true;
            } else {
                acc = next;
            }
        }
        i += 1;
    }
    assert(body.take(n - start) =~= body);
    assert(text@.skip(0) =~= text@);
    if too_big {
        return None;
    }
    if negative {
        if acc == 9223372036854775808 {
            Some(i64::MIN)
        } else {
            Some(-(acc as i64))
        }
    } else if acc > 9223372036854775807 {
        None
    } else {
        Some(acc as i64)
    }
}

/// The character of the decimal digit `d`.
pub open spec fn digit_char(d: nat) -> char {
    if d == 0 {
        '0'
    } else if d == 1 {
        '1'
    } else if d == 2 {
        '2'
    } else if d == 3 {
        '3'
    } else if d == 4 {
        '4'
    } else if d == 5 {
        '5'
    } else if d == 6 {
        '6'
    } else if d == 7 {
        '7'
    } else if d == 8 {
        '8'
    } else {
        '9'
    }
}

/// The decimal digits of `n`, most significant first, without leading
/// zeros.
pub open spec fn digits(n: nat) -> Seq<char>
    decreases n,
{
    if n < 10 {
        seq![digit_char(n)]
    } else {
        digits(n / 10).push(digit_char(n % 10))
    }
}

/// `n` in decimal, with a minus sign where it is negative.
pub open spec fn decimal(n: int) -> Seq<char> {
    if n < 0 {
        seq!['-'] + digits((-n) as nat)
    } else {
        digits(n as nat)
    }
}

fn digit_of(d: u64) -> (c: char)
    requires
        d < 10,
    ensures
        c == digit_char(d as nat),
{
    if d == 0 {
        '0'
    } else if d == 1 {
        '1'
    } else if d == 2 {
        '2'
    } else if d == 3 {
        '3'
    } else if d == 4 {
        '4'
    } else if d == 5 {
        '5'
    } else if d == 6 {
        '6'
    } else if d == 7 {
        '7'
    } else if d == 8 {
        '8'
    } else {
        '9'
    }
}

fn push_digits(value: u64, out: &mut Vec<char>)
    ensures
        final(out)@ == old(out)@ + digits(value as nat),
    decreases value,
{
    if value >= 10 {
        push_digits(value / 10, out);
    }
    out.push(digit_of(value % 10));
    assert(out@ =~= old(out)@ + digits(value as nat));
}

/// `value` in decimal.
pub fn int_to_string(value: i64) -> (r: String)
    ensures
        r@ == decimal(value as int),
{
    let mut chars: Vec<char> = Vec::new();
    if value < 0 {
        chars.push('-');
        let magnitude: u64 = if value == i64::MIN {
            9223372036854775808u64
        } else {
            (-value) as u64
        };
        push_digits(magnitude, &mut chars);
        assert(chars@ =~= seq!['-'] + digits((-value) as nat));
    } else {
        push_digits(value as u64, &mut chars);
        assert(chars@ =~= digits(value as nat));
    }
    string_of_chars(&chars)
}

/// `value` in decimal.
pub fn usize_to_string(value: usize) -> (r: String)
    ensures
        r@ == digits(value as nat),
{
    let mut chars: Vec<char> = Vec::new();
    push_digits(value as u64, &mut chars);
    assert(chars@ =~= digits(value as nat));
    string_of_chars(&chars)
}

} // verus!
