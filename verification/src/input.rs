//! The operator's input: trimming a line and validating the poll interval.

use vstd::prelude::*;
use vstd::string::*;
use crate::error::ConfigError;

verus! {

/// Whether `c` is white space: a character with the Unicode property
/// `White_Space`.
pub open spec fn is_whitespace(c: char) -> bool {
    ||| '\u{9}' <= c <= '\u{d}'
    ||| c == ' '
    ||| c == '\u{85}'
    ||| c == '\u{a0}'
    ||| c == '\u{1680}'
    ||| '\u{2000}' <= c <= '\u{200a}'
    ||| c == '\u{2028}'
    ||| c == '\u{2029}'
    ||| c == '\u{202f}'
    ||| c == '\u{205f}'
    ||| c == '\u{3000}'
}

/// `s` without the white space in front.
pub open spec fn trim_start(s: Seq<char>) -> Seq<char>
    decreases s.len(),
{
    if s.len() > 0 && is_whitespace(s[0]) {
        trim_start(s.drop_first())
    } else {
        s
    }
}

/// `s` without the white space at the end.
pub open spec fn trim_end(s: Seq<char>) -> Seq<char>
    decreases s.len(),
{
    if s.len() > 0 && is_whitespace(s.last()) {
        trim_end(s.drop_last())
    } else {
        s
    }
}

/// `s` without the white space in front and at the end.
pub open spec fn trimmed(s: Seq<char>) -> Seq<char> {
    trim_end(trim_start(s))
}

/// Whether `c` is white space.
pub fn is_whitespace_char(c: char) -> (white: bool)
    ensures
        white == is_whitespace(c),
{
    ('\u{9}' <= c && c <= '\u{d}') || c == ' ' || c == '\u{85}' || c == '\u{a0}' || c
        == '\u{1680}' || ('\u{2000}' <= c && c <= '\u{200a}') || c == '\u{2028}' || c
        == '\u{2029}' || c == '\u{202f}' || c == '\u{205f}' || c == '\u{3000}'
}

/// Trimming in front goes on behind leading white space.
proof fn lemma_trim_start_from(s: Seq<char>, k: int)
    requires
        0 <= k <= s.len(),
        forall|j: int| 0 <= j < k ==> is_whitespace(#[trigger] s[j]),
    ensures
        trim_start(s) == trim_start(s.subrange(k, s.len() as int)),
    decreases k,
{
    if k == 0 {
        assert(s.subrange(0, s.len() as int) =~= s);
    } else {
        let rest = s.drop_first();
        assert(is_whitespace(s[0]));
        assert forall|j: int| 0 <= j < k - 1 implies is_whitespace(#[trigger] rest[j]) by {
            assert(rest[j] == s[j + 1]);
        }
        lemma_trim_start_from(rest, k - 1);
        assert(rest.subrange(k - 1, rest.len() as int) =~= s.subrange(k, s.len() as int));
    }
}

/// Trimming at the end goes on before trailing white space.
proof fn lemma_trim_end_to(s: Seq<char>, k: int)
    requires
        0 <= k <= s.len(),
        forall|j: int| k <= j < s.len() ==> is_whitespace(#[trigger] s[j]),
    ensures
        trim_end(s) == trim_end(s.subrange(0, k)),
    decreases s.len() - k,
{
    if k == s.len() {
        assert(s.subrange(0, k) =~= s);
    } else {
        let rest = s.drop_last();
        assert(is_whitespace(s[s.len() - 1]));
        assert forall|j: int| k <= j < rest.len() implies is_whitespace(#[trigger] rest[j]) by {
            assert(rest[j] == s[j]);
        }
        lemma_trim_end_to(rest, k);
        assert(rest.subrange(0, k) =~= s.subrange(0, k));
    }
}

/// What the operator entered on `line`: the line without the white space in
/// front and at the end, the line break among it.
pub fn get_user_input(line: &str) -> (input: String)
    ensures
        input@ == trimmed(line@),
{
    let n = line.unicode_len();
    let mut start: usize = 0;
    while start < n && is_whitespace_char(line.get_char(start))
        invariant
            start <= n,
            n == line@.len(),
            forall|j: int| 0 <= j < start ==> is_whitespace(#[trigger] line@[j]),
        decreases n - start,
    {
        start = start + 1;
    }
    let mut end: usize = n;
    while end > start && is_whitespace_char(line.get_char(end - 1))
        invariant
            start <= end <= n,
            n == line@.len(),
            forall|j: int| end <= j < n ==> is_whitespace(#[trigger] line@[j]),
        decreases end,
    {
        end = end - 1;
    }
    proof {
        let front = line@.subrange(start as int, n as int);
        lemma_trim_start_from(line@, start as int);
        assert(trim_start(line@) == front);
        lemma_trim_end_to(front, end - start);
        assert(front.subrange(0, end - start) =~= line@.subrange(start as int, end as int));
    }
    line.substring_char(start, end).to_owned()
}

/// The ASCII code of the plus sign.
const ASCII_PLUS: u8 = 43;

/// The ASCII code of the digit zero.
const ASCII_ZERO: u8 = 48;

/// The ASCII code of the digit nine.
const ASCII_NINE: u8 = 57;

/// Whether `c` is one of the ten ASCII decimal digits.
pub open spec fn is_digit(c: char) -> bool {
    '0' <= c <= '9'
}

/// The number that the digit `c` stands for.
pub open spec fn digit_value(c: char) -> nat
    recommends
        is_digit(c),
{
    if is_digit(c) {
        (c as int - '0' as int) as nat
    } else {
        0
    }
}

/// Whether every character of `s` is a decimal digit.
pub open spec fn all_digits(s: Seq<char>) -> bool {
    forall|i: int| 0 <= i < s.len() ==> is_digit(#[trigger] s[i])
}

/// The number that the digit string `s` denotes in base ten; 0 for the empty
/// string.
pub open spec fn digits_value(s: Seq<char>) -> nat
    decreases s.len(),
{
    if s.len() == 0 {
        0
    } else {
        digits_value(s.drop_last()) * 10 + digit_value(s.last())
    }
}

/// `s` without one leading plus sign, if it has one.
pub open spec fn without_plus(s: Seq<char>) -> Seq<char> {
    if s.len() > 0 && s[0] == '+' {
        s.subrange(1, s.len() as int)
    } else {
        s
    }
}

/// The interval that the text `s` denotes: an optional plus sign followed by
/// one or more decimal digits whose value fits in 64 bits. Any other text
/// denotes none.
pub open spec fn interval_of(s: Seq<char>) -> Option<u64> {
    let digits = without_plus(s);
    if digits.len() > 0 && all_digits(digits) && digits_value(digits) <= u64::MAX {
        Some(digits_value(digits) as u64)
    } else {
        None
    }
}

/// A prefix of a digit string denotes no more than the whole string.
proof fn lemma_prefix_value(s: Seq<char>, k: int)
    requires
        0 <= k <= s.len(),
    ensures
        digits_value(s.subrange(0, k)) <= digits_value(s),
    decreases s.len() - k,
{
    if k == s.len() {
        assert(s.subrange(0, k) =~= s);
    } else {
        lemma_prefix_value(s, k + 1);
        let longer = s.subrange(0, k + 1);
        assert(longer.drop_last() =~= s.subrange(0, k));
    }
}

/// Validates the poll interval that the operator typed.
///
/// Accepts an optional plus sign followed by decimal digits, with no
/// whitespace, and gives the number of seconds they denote. Refuses the empty
/// text, a minus sign, any other character, and a number above `u64::MAX`.
pub fn validate_u64_input(input: &str) -> (r: Result<u64, ConfigError>)
    ensures
        match r {
            Ok(seconds) => interval_of(input@) == Some(seconds),
            Err(e) => interval_of(input@) is None && e == ConfigError::InvalidInterval,
        },
{
    broadcast use vstd::string::is_ascii_spec_bytes;

    let ghost digits = without_plus(input@);
    if !input.is_ascii() {
        proof {
            let i = choose|i: int| 0 <= i < input@.len() && !('\0' <= #[trigger] input@[i] <= '\u{7f}');
            if digits.len() == input@.len() {
                assert(!is_digit(digits[i]));
            } else {
                assert(!is_digit(digits[i - 1]));
            }
        }
        return Err(ConfigError::InvalidInterval);
    }
    let n = input.as_bytes().len();
    assert(n == input@.len());
    let start: usize = if n > 0 && input.get_ascii(0) == ASCII_PLUS {
        1
    } else {
        0
    };
    assert(start == 1 <==> input@.len() > 0 && input@[0] == '+');
    assert(digits =~= input@.subrange(start as int, n as int));
    if start == n {
        return Err(ConfigError::InvalidInterval);
    }
    let mut value: u64 = 0;
    let mut i = start;
    while i < n
        invariant
            start <= i <= n,
            n == input@.len(),
            is_ascii(input),
            digits == without_plus(input@),
            digits == input@.subrange(start as int, n as int),
            all_digits(digits.subrange(0, i - start)),
            value == digits_value(digits.subrange(0, i - start)),
        decreases n - i,
    {
        let b = input.get_ascii(i);
        let ghost c = input@[i as int];
        assert(c == digits[i - start]);
        if b < ASCII_ZERO || b > ASCII_NINE {
            assert(!is_digit(c));
            return Err(ConfigError::InvalidInterval);
        }
        assert(is_digit(c));
        let d = (b - ASCII_ZERO) as u64;
        assert(d == digit_value(c));
        let ghost longer = digits.subrange(0, i - start + 1);
        assert(longer.drop_last() =~= digits.subrange(0, i - start));
        assert(longer.last() == c);
        assert(digits_value(longer) == value * 10 + d);
        if value > (u64::MAX - d) / 10 {
            proof {
                lemma_prefix_value(digits, i - start + 1);
            }
            return Err(ConfigError::InvalidInterval);
        }
        value = value * 10 + d;
        i = i + 1;
    }
    assert(digits.subrange(0, i - start) =~= digits);
    Ok(value)
}

/// The two token symbols that the operator entered, the sell token first:
/// each line without the white space around it. No symbol is refused.
pub fn get_user_input_for_tokens(sell_line: &str, buy_line: &str) -> (tokens: Result<
    (String, String),
    ConfigError,
>)
    ensures
        tokens matches Ok(pair) && pair.0@ == trimmed(sell_line@) && pair.1@ == trimmed(buy_line@),
{
    let sell_token = get_user_input(sell_line);
    let buy_token = get_user_input(buy_line);
    Ok((sell_token, buy_token))
}

/// The poll interval that the operator entered on `line`, in seconds: the
/// number that the line denotes once the white space around it is gone.
pub fn get_user_input_for_interval(line: &str) -> (interval: Result<u64, ConfigError>)
    ensures
        match interval {
            Ok(seconds) => interval_of(trimmed(line@)) == Some(seconds),
            Err(e) => interval_of(trimmed(line@)) is None && e == ConfigError::InvalidInterval,
        },
{
    let interval_str = get_user_input(line);
    validate_u64_input(interval_str.as_str())
}

/// The decimal digit that stands for `d`.
pub open spec fn digit_char(d: nat) -> char
    recommends
        d < 10,
{
    ('0' as int + d) as char
}

/// The decimal text of `n`, without sign or leading zeros.
pub open spec fn decimal(n: nat) -> Seq<char>
    decreases n,
{
    if n < 10 {
        seq![digit_char(n)]
    } else {
        decimal(n / 10).push(digit_char(n % 10))
    }
}

/// The decimal text of a number is made of digits, is not empty, and denotes
/// that number.
pub proof fn lemma_decimal_denotes(n: nat)
    ensures
        decimal(n).len() > 0,
        all_digits(decimal(n)),
        digits_value(decimal(n)) == n,
    decreases n,
{
    if n < 10 {
        let s = decimal(n);
        assert(s.drop_last().len() == 0);
        assert(digits_value(s.drop_last()) == 0);
        assert(digit_value(s.last()) == n);
    } else {
        lemma_decimal_denotes(n / 10);
        let s = decimal(n);
        assert(s.drop_last() =~= decimal(n / 10));
        assert(digit_value(s.last()) == n % 10);
    }
}

/// Every number that fits in 64 bits is accepted in its decimal text, and
/// denotes itself.
pub proof fn lemma_every_interval_accepted(n: u64)
    ensures
        interval_of(decimal(n as nat)) == Some(n),
{
    lemma_decimal_denotes(n as nat);
    let s = decimal(n as nat);
    assert(is_digit(s[0]));
    assert(without_plus(s) == s);
}

/// Text with a minus sign in front, text with any character that is neither
/// a digit nor a plus sign in front, and text without a digit are refused.
pub proof fn lemma_other_text_refused(s: Seq<char>)
    ensures
        s.len() > 0 && s[0] == '-' ==> interval_of(s) is None,
        (exists|i: int| 0 <= i < s.len() && !is_digit(#[trigger] s[i]) && !(i == 0 && s[i] == '+'))
            ==> interval_of(s) is None,
        (forall|i: int| 0 <= i < s.len() ==> !is_digit(#[trigger] s[i])) ==> interval_of(s) is None,
{
    let digits = without_plus(s);
    if exists|i: int| 0 <= i < s.len() && !is_digit(#[trigger] s[i]) && !(i == 0 && s[i] == '+') {
        let i = choose|i: int| 0 <= i < s.len() && !is_digit(#[trigger] s[i]) && !(i == 0 && s[i] == '+');
        if digits.len() == s.len() {
            assert(!is_digit(digits[i]));
        } else {
            assert(digits[i - 1] == s[i]);
            assert(!is_digit(digits[i - 1]));
        }
    }
    if forall|i: int| 0 <= i < s.len() ==> !is_digit(#[trigger] s[i]) {
        if digits.len() > 0 {
            let last = digits.len() - 1;
            assert(digits[last] == s[s.len() - 1]);
            assert(!is_digit(digits[last]));
        }
    }
}

} // verus!
