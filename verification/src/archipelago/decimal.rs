//! Integers as decimal text, as the keys of JSON objects carry them.

use vstd::prelude::*;
use vstd::string::StringExecFns;
use vstd::string::StrSliceExecFns;

verus! {

/// The character of the digit `d`.
pub open spec fn spec_digit(d: int) -> char {
    if d == 0 {
        '0'
    } else if d == 1 {
        '1'
    } else if d == 2 {
        '2'
    } else if d == 3 {
        '3'
    } else if d == 4 {
        '4'
    } else if d == 5 {
        '5'
    } else if d == 6 {
        '6'
    } else if d == 7 {
        '7'
    } else if d == 8 {
        '8'
    } else {
        '9'
    }
}

/// The digit that `c` is, if it is one.
pub open spec fn spec_digit_value(c: char) -> Option<int> {
    if c == '0' {
        Some(0)
    } else if c == '1' {
        Some(1)
    } else if c == '2' {
        Some(2)
    } else if c == '3' {
        Some(3)
    } else if c == '4' {
        Some(4)
    } else if c == '5' {
        Some(5)
    } else if c == '6' {
        Some(6)
    } else if c == '7' {
        Some(7)
    } else if c == '8' {
        Some(8)
    } else if c == '9' {
        Some(9)
    } else {
        None
    }
}

/// The digits of `n`, the first of them not `0` unless `n` is.
pub open spec fn spec_digits(n: nat) -> Seq<char>
    decreases n,
{
    if n < 10 {
        seq![spec_digit(n as int)]
    } else {
        spec_digits(n / 10).push(spec_digit((n % 10) as int))
    }
}

/// The decimal text of `x`: a minus sign where `x` is negative, then the
/// digits of its magnitude.
pub open spec fn spec_decimal(x: int) -> Seq<char> {
    if x < 0 {
        seq!['-'] + spec_digits((-x) as nat)
    } else {
        spec_digits(x as nat)
    }
}

/// The number that a text of digits alone stands for; `None` where another
/// character occurs. The empty text stands for 0.
pub open spec fn spec_digits_value(s: Seq<char>) -> Option<int>
    decreases s.len(),
{
    if s.len() == 0 {
        Some(0)
    } else {
        match (spec_digits_value(s.drop_last()), spec_digit_value(s.last())) {
            (Some(v), Some(d)) => Some(10 * v + d),
            _ => None,
        }
    }
}

/// The number that a decimal text stands for: at least one digit, with or
/// without a minus sign before them, and nothing else.
pub open spec fn spec_decimal_value(s: Seq<char>) -> Option<int> {
    if s.len() > 0 && s[0] == '-' {
        if s.len() > 1 {
            match spec_digits_value(s.skip(1)) {
                Some(v) => Some(-v),
                None => None,
            }
        } else {
            None
        }
    } else if s.len() > 0 {
        spec_digits_value(s)
    } else {
        None
    }
}

fn digit_text(d: u64) -> (t: &'static str)
    requires
        d < 10,
    ensures
        t@ == seq![spec_digit(d as int)],
{
    proof {
        reveal_strlit("0");
        reveal_strlit("1");
        reveal_strlit("2");
        reveal_strlit("3");
        reveal_strlit("4");
        reveal_strlit("5");
        reveal_strlit("6");
        reveal_strlit("7");
        reveal_strlit("8");
        reveal_strlit("9");
    }
    let t = if d == 0 {
        "0"
    } else if d == 1 {
        "1"
    } else if d == 2 {
        "2"
    } else if d == 3 {
        "3"
    } else if d == 4 {
        "4"
    } else if d == 5 {
        "5"
    } else if d == 6 {
        "6"
    } else if d == 7 {
        "7"
    } else if d == 8 {
        "8"
    } else {
        "9"
    };
    assert(t@ =~= seq![spec_digit(d as int)]);
    t
}

/// The digits of `n`.
pub fn digits_text(n: u64) -> (t: String)
    ensures
        t@ == spec_digits(n as nat),
    decreases n,
{
    if n < 10 {
        digit_text(n).to_string()
    } else {
        let mut t = digits_text(n / 10);
        t.append(digit_text(n % 10));
        t
    }
}

/// The decimal text of `x`.
pub fn decimal_text(x: isize) -> (t: String)
    ensures
        t@ == spec_decimal(x as int),
{
    if x < 0 {
        let magnitude: u64 = (-(x as i128)) as u64;
        proof {
            reveal_strlit("-");
        }
        let mut t = "-".to_string();
        t.append(digits_text(magnitude).as_str());
        t
    } else {
        digits_text(x as u64)
    }
}

fn digit_of(c: char) -> (d: Option<u8>)
    ensures
        match d {
            Some(v) => spec_digit_value(c) == Some(v as int),
            None => spec_digit_value(c) is None,
        },
{
    if c == '0' {
        Some(0)
    } else if c == '1' {
        Some(1)
    } else if c == '2' {
        Some(2)
    } else if c == '3' {
        Some(3)
    } else if c == '4' {
        Some(4)
    } else if c == '5' {
        Some(5)
    } else if c == '6' {
        Some(6)
    } else if c == '7' {
        Some(7)
    } else if c == '8' {
        Some(8)
    } else if c == '9' {
        Some(9)
    } else {
        None
    }
}

/// A text with a digit more stands for no smaller a number.
proof fn lemma_digits_value_grows(s: Seq<char>, k: int)
    requires
        0 <= k <= s.len(),
        spec_digits_value(s) is Some,
    ensures
        spec_digits_value(s.take(k)) is Some,
        0 <= spec_digits_value(s.take(k))->0 <= spec_digits_value(s)->0,
    decreases s.len(),
{
    if k == s.len() {
        assert(s.take(k) == s);
        if s.len() > 0 {
            lemma_digits_value_grows(s.drop_last(), s.len() - 1);
        }
    } else {
        lemma_digits_value_grows(s.drop_last(), k);
        assert(s.drop_last().take(k) == s.take(k));
    }
}

/// The number that the digits of `s` from `from` on stand for, where it is
/// at most `limit`.
fn digits_value(s: &str, from: usize, limit: u64) -> (r: Option<u64>)
    requires
        from <= s@.len(),
    ensures
        match r {
            Some(v) => spec_digits_value(s@.skip(from as int)) == Some(v as int) && v <= limit,
            None => match spec_digits_value(s@.skip(from as int)) {
                Some(v) => v > limit,
                None => true,
            },
        },
{
    let n = s.unicode_len();
    let ghost body = s@.skip(from as int);
    let mut acc: u64 = 0;
    let mut i: usize = from;
    while i < n
        invariant
            from <= i <= n,
            n == s@.len(),
            body == s@.skip(from as int),
            spec_digits_value(body.take(i - from)) == Some(acc as int),
            acc <= limit,
        decreases n - i,
    {
        let c = s.get_char(i);
        assert(body.take(i - from + 1).drop_last() =~= body.take(i - from));
        match digit_of(c) {
            None => {
                proof {
                    if spec_digits_value(body) is Some {
                        lemma_digits_value_grows(body, i - from + 1);
                    }
                }
                return None;
            },
            Some(d) => {
                if limit < d as u64 || acc > (limit - d as u64) / 10 {
                    proof {
                        if spec_digits_value(body) is Some {
                            lemma_digits_value_grows(body, i - from + 1);
                        }
                    }
                    return None;
                }
                acc = acc * 10 + d as u64;
            },
        }
        i += 1;
    }
    assert(body.take(n - from) =~= body);
    Some(acc)
}

/// The number that a decimal text stands for, where an `isize` holds it.
pub fn parse_isize(s: &str) -> (r: Option<isize>)
    ensures
        match r {
            Some(x) => spec_decimal_value(s@) == Some(x as int),
            None => match spec_decimal_value(s@) {
                Some(v) => v < isize::MIN || v > isize::MAX,
                None => true,
            },
        },
{
    let n = s.unicode_len();
    if n == 0 {
        return None;
    }
    if s.get_char(0) == '-' {
        if n == 1 {
            return None;
        }
        match digits_value(s, 1, (isize::MAX as u64) + 1) {
            Some(v) => Some((-(v as i128)) as isize),
            None => None,
        }
    } else {
        match digits_value(s, 0, isize::MAX as u64) {
            Some(v) => {
                assert(s@.skip(0) =~= s@);
                Some(v as isize)
            },
            None => {
                None
            },
        }
    }
}

/// The number that a text of digits stands for, where a `usize` holds it.
pub fn parse_usize(s: &str) -> (r: Option<usize>)
    ensures
        match r {
            Some(x) => s@.len() > 0 && spec_digits_value(s@) == Some(x as int),
            None => s@.len() == 0 || match spec_digits_value(s@) {
                Some(v) => v > usize::MAX,
                None => true,
            },
        },
{
    let n = s.unicode_len();
    if n == 0 {
        return None;
    }
    assert(s@.skip(0) =~= s@);
    match digits_value(s, 0, usize::MAX as u64) {
        Some(v) => Some(v as usize),
        None => None,
    }
}

/// The digits of a number stand for that number, and none of them is a
/// minus sign.
pub proof fn lemma_digits_round_trip(n: nat)
    ensures
        spec_digits(n).len() > 0,
        spec_digits(n)[0] != '-',
        spec_digits_value(spec_digits(n)) == Some(n as int),
    decreases n,
{
    if n < 10 {
        let s = spec_digits(n);
        assert(spec_digits_value(s.drop_last()) == Some(0int));
    } else {
        lemma_digits_round_trip(n / 10);
        let s = spec_digits(n);
        assert(s.drop_last() =~= spec_digits(n / 10));
    }
}

/// Reading the decimal text of a number gives the number back.
pub proof fn lemma_decimal_round_trip(x: int)
    ensures
        spec_decimal_value(spec_decimal(x)) == Some(x),
{
    if x < 0 {
        lemma_digits_round_trip((-x) as nat);
        let s = spec_decimal(x);
        assert(s.skip(1) =~= spec_digits((-x) as nat));
    } else {
        lemma_digits_round_trip(x as nat);
    }
}

} // verus!
