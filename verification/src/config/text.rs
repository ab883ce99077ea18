//! Texts of the command line: finding separators, comparing, and turning
//! digits into numbers and numbers into digits.

use vstd::prelude::*;
use vstd::string::StrSliceExecFns;
use vstd::string::StringExecFns;

verus! {

/// Length of a text in bytes.
pub open spec fn byte_len(s: Seq<char>) -> nat {
    vstd::utf8::encode_utf8(s).len()
}

/// Index of the first `c` in `s` at or behind `from`, or the length of `s`
/// where there is none.
pub open spec fn find_from(s: Seq<char>, c: char, from: int) -> int
    decreases s.len() - from,
{
    if from >= s.len() {
        s.len() as int
    } else if s[from] == c {
        from
    } else {
        find_from(s, c, from + 1)
    }
}

/// What `find_from` finds lies between `from` and the end, is a `c` unless
/// it is the end, and has no `c` before it.
pub proof fn lemma_find_from(s: Seq<char>, c: char, from: int)
    requires
        0 <= from <= s.len(),
    ensures
        from <= find_from(s, c, from) <= s.len(),
        find_from(s, c, from) < s.len() ==> s[find_from(s, c, from)] == c,
        forall|i: int| from <= i < find_from(s, c, from) ==> s[i] != c,
    decreases s.len() - from,
{
    if from < s.len() && s[from] != c {
        lemma_find_from(s, c, from + 1);
    }
}

/// Whether `s` ends with `tail`.
pub open spec fn ends_with(s: Seq<char>, tail: Seq<char>) -> bool {
    tail.len() <= s.len() && s.subrange(s.len() - tail.len(), s.len() as int) == tail
}

/// The value of a decimal digit.
pub open spec fn digit_value(c: char) -> Option<nat> {
    if '0' <= c <= '9' {
        Some((c as u32 - '0' as u32) as nat)
    } else {
        None
    }
}

/// The value of a hexadecimal digit, small or capital.
pub open spec fn hex_digit_value(c: char) -> Option<nat> {
    if '0' <= c <= '9' {
        Some((c as u32 - '0' as u32) as nat)
    } else if 'a' <= c <= 'f' {
        Some((c as u32 - 'a' as u32 + 10) as nat)
    } else if 'A' <= c <= 'F' {
        Some((c as u32 - 'A' as u32 + 10) as nat)
    } else {
        None
    }
}

/// The value of a digit of base 10 or 16.
pub open spec fn digit_in(c: char, radix: nat) -> Option<nat> {
    if radix == 16 {
        hex_digit_value(c)
    } else {
        digit_value(c)
    }
}

/// The value of `s` read as digits of base `radix`; `None` where `s` holds
/// anything but digits.
pub open spec fn digits_value(s: Seq<char>, radix: nat) -> Option<nat>
    decreases s.len(),
{
    if s.len() == 0 {
        Some(0)
    } else {
        match (digits_value(s.drop_last(), radix), digit_in(s.last(), radix)) {
            (Some(front), Some(digit)) => Some(front * radix + digit),
            _ => None,
        }
    }
}

/// The number that `s` stands for in base `radix`: an optional plus sign,
/// then one digit or more, and a value of `max` at most. Anything else is
/// no number.
pub open spec fn number_value(s: Seq<char>, radix: nat, max: nat) -> Option<nat> {
    let digits = if s.len() > 0 && s[0] == '+' {
        s.subrange(1, s.len() as int)
    } else {
        s
    };
    if digits.len() == 0 {
        None
    } else {
        match digits_value(digits, radix) {
            Some(value) => if value <= max {
                Some(value)
            } else {
                None
            },
            None => None,
        }
    }
}

/// The digits of `s` grow the value: more digits in front never give less.
pub proof fn lemma_digits_value_grows(s: Seq<char>, n: int, radix: nat)
    requires
        0 <= n <= s.len(),
        radix >= 2,
        digits_value(s, radix) is Some,
    ensures
        digits_value(s.subrange(0, n), radix) is Some,
        digits_value(s.subrange(0, n), radix)->0 <= digits_value(s, radix)->0,
    decreases s.len() - n,
{
    if n == s.len() {
        assert(s.subrange(0, n) =~= s);
    } else {
        assert(s.drop_last().subrange(0, n) =~= s.subrange(0, n));
        lemma_digits_value_grows(s.drop_last(), n, radix);
        let front = digits_value(s.drop_last(), radix)->0;
        assert(front <= front * radix) by (nonlinear_arith)
            requires
                radix >= 2,
                front >= 0,
        ;
    }
}

/// Whether two texts are the same.
pub fn text_eq(a: &str, b: &str) -> (same: bool)
    ensures
        same == (a@ == b@),
{
    let left: String = a.to_owned();
    let right: String = b.to_owned();
    left == right
}

/// Index of the first `c` in `s` at or behind `from`, or the length of `s`
/// where there is none.
pub fn find_char(s: &str, c: char, from: usize) -> (at: usize)
    requires
        from <= s@.len(),
    ensures
        at == find_from(s@, c, from as int),
        from <= at <= s@.len(),
{
    let len: usize = s.unicode_len();
    let mut i: usize = from;
    proof {
        lemma_find_from(s@, c, from as int);
    }
    while i < len && s.get_char(i) != c
        invariant
            from <= i <= len,
            len == s@.len(),
            find_from(s@, c, from as int) == find_from(s@, c, i as int),
        decreases len - i,
    {
        i = i + 1;
    }
    i
}

/// Whether `s` ends with `tail`.
pub fn text_ends_with(s: &str, tail: &str) -> (r: bool)
    ensures
        r == ends_with(s@, tail@),
{
    let len: usize = s.unicode_len();
    let tail_len: usize = tail.unicode_len();
    if tail_len > len {
        return false;
    }
    text_eq(s.substring_char(len - tail_len, len), tail)
}

fn digit_of(c: char, radix: u32) -> (r: Option<u64>)
    requires
        radix == 10 || radix == 16,
    ensures
        match r {
            Some(d) => digit_in(c, radix as nat) == Some(d as nat) && d < radix,
            None => digit_in(c, radix as nat) is None,
        },
{
    let code: u32 = c as u32;
    if code >= '0' as u32 && code <= '9' as u32 {
        Some((code - '0' as u32) as u64)
    } else if radix == 16 && code >= 'a' as u32 && code <= 'f' as u32 {
        Some((code - 'a' as u32 + 10) as u64)
    } else if radix == 16 && code >= 'A' as u32 && code <= 'F' as u32 {
        Some((code - 'A' as u32 + 10) as u64)
    } else {
        None
    }
}

/// The number that `s` stands for in base `radix`, 10 or 16, where it is
/// one of `max` at most.
pub fn parse_number(s: &str, radix: u32, max: u64) -> (r: Option<u64>)
    requires
        radix == 10 || radix == 16,
    ensures
        match r {
            Some(n) => number_value(s@, radix as nat, max as nat) == Some(n as nat),
            None => number_value(s@, radix as nat, max as nat) is None,
        },
{
    let len: usize = s.unicode_len();
    let start: usize = if len > 0 && s.get_char(0) == '+' {
        1
    } else {
        0
    };
    let ghost digits = if s@.len() > 0 && s@[0] == '+' {
        s@.subrange(1, s@.len() as int)
    } else {
        s@
    };
    assert(digits =~= s@.subrange(start as int, len as int));
    if start == len {
        return None;
    }
    let mut value: u64 = 0;
    let mut i: usize = start;
    while i < len
        invariant
            start <= i <= len,
            start < len,
            len == s@.len(),
            radix == 10 || radix == 16,
            digits == s@.subrange(start as int, len as int),
            digits == if s@.len() > 0 && s@[0] == '+' {
                s@.subrange(1, s@.len() as int)
            } else {
                s@
            },
            digits_value(digits.subrange(0, i - start), radix as nat) == Some(value as nat),
            value <= max,
        decreases len - i,
    {
        let ghost upto = digits.subrange(0, i - start + 1);
        assert(upto.drop_last() =~= digits.subrange(0, i - start));
        assert(upto.last() == s@[i as int]);
        match digit_of(s.get_char(i), radix) {
            Some(digit) => {
                if digit > max || value > (max - digit) / radix as u64 {
                    proof {
                        assert(value * radix + digit > max) by (nonlinear_arith)
                            requires
                                digit > max || value > (max - digit) / (radix as int),
                                radix > 0,
                                digit >= 0,
                                value >= 0,
                        ;
                        assert(digits_value(upto, radix as nat) == Some(
                            (value * radix + digit) as nat,
                        ));
                        if digits_value(digits, radix as nat) is Some {
                            lemma_digits_value_grows(digits, i - start + 1, radix as nat);
                        }
                    }
                    return None;
                }
                assert(value * radix + digit <= max) by (nonlinear_arith)
                    requires
                        digit <= max,
                        value <= (max - digit) / (radix as int),
                        radix > 0,
                ;
                value = value * radix as u64 + digit;
            },
            None => {
                proof {
                    assert(digits_value(upto, radix as nat) is None);
                    if digits_value(digits, radix as nat) is Some {
                        lemma_digits_value_grows(digits, i - start + 1, radix as nat);
                    }
                }
                return None;
            },
        }
        i = i + 1;
    }
    assert(digits.subrange(0, i - start) =~= digits);
    Some(value)
}

/// The decimal digit of value `d`.
pub open spec fn digit_char(d: nat) -> char {
    ('0' as u32 + d) as char
}

/// The decimal digits of `n`, without leading zeros.
pub open spec fn decimal(n: nat) -> Seq<char>
    decreases n,
{
    if n < 10 {
        seq![digit_char(n)]
    } else {
        decimal(n / 10).push(digit_char(n % 10))
    }
}

/// The decimal digits of a number read as a number give the number.
pub proof fn lemma_decimal_round_trip(n: nat, max: nat)
    requires
        n <= max,
    ensures
        decimal(n).len() > 0,
        decimal(n)[0] != '+',
        digits_value(decimal(n), 10) == Some(n),
        number_value(decimal(n), 10, max) == Some(n),
    decreases n,
{
    if n < 10 {
        assert(decimal(n).drop_last() =~= Seq::<char>::empty());
        assert(digit_value(digit_char(n)) == Some(n));
    } else {
        lemma_decimal_round_trip(n / 10, max);
        assert(decimal(n).drop_last() =~= decimal(n / 10));
        assert(digit_value(digit_char(n % 10)) == Some(n % 10));
        assert(decimal(n)[0] == decimal(n / 10)[0]);
    }
}

fn digit_text(d: u64) -> (r: &'static str)
    requires
        d < 10,
    ensures
        r@ == seq![digit_char(d as nat)],
{
    proof {
        reveal_strlit("0");
        reveal_strlit("1");
        reveal_strlit("2");
        reveal_strlit("3");
        reveal_strlit("4");
        reveal_strlit("5");
        reveal_strlit("6");
        reveal_strlit("7");
        reveal_strlit("8");
        reveal_strlit("9");
    }
    let r: &'static str = if d == 0 {
        "0"
    } else if d == 1 {
        "1"
    } else if d == 2 {
        "2"
    } else if d == 3 {
        "3"
    } else if d == 4 {
        "4"
    } else if d == 5 {
        "5"
    } else if d == 6 {
        "6"
    } else if d == 7 {
        "7"
    } else if d == 8 {
        "8"
    } else {
        "9"
    };
    assert(r@ =~= seq![digit_char(d as nat)]);
    r
}

/// The decimal digits of `n`.
pub fn decimal_text(n: u64) -> (r: String)
    ensures
        r@ == decimal(n as nat),
    decreases n,
{
    if n < 10 {
        digit_text(n).to_owned()
    } else {
        let mut r: String = decimal_text(n / 10);
        r.append(digit_text(n % 10));
        r
    }
}

/// `a` followed by `b`.
pub fn joined(a: &str, b: &str) -> (r: String)
    ensures
        r@ == a@ + b@,
{
    let mut r: String = a.to_owned();
    r.append(b);
    r
}

} // verus!
