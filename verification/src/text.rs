//! Characters of a string, whitespace and decimal numbers.
//!
//! A sensor file and a configuration value hold a number as text. This module
//! says which texts are numbers and reads them, digit by digit, without
//! overflow.

use vstd::prelude::*;
use vstd::slice::slice_subrange;

verus! {

/// Whether `c` is white space: a character with the Unicode property
/// `White_Space`.
pub open spec fn whitespace(c: char) -> bool {
    let code = c as u32;
    ||| 0x09 <= code <= 0x0D
    ||| code == 0x20
    ||| code == 0x85
    ||| code == 0xA0
    ||| code == 0x1680
    ||| 0x2000 <= code <= 0x200A
    ||| code == 0x2028
    ||| code == 0x2029
    ||| code == 0x202F
    ||| code == 0x205F
    ||| code == 0x3000
}

/// `s` without the white space it starts with.
pub open spec fn trimmed_start(s: Seq<char>) -> Seq<char>
    decreases s.len(),
{
    if s.len() > 0 && whitespace(s.first()) {
        trimmed_start(s.drop_first())
    } else {
        s
    }
}

/// `s` without the white space it ends with.
pub open spec fn trimmed_end(s: Seq<char>) -> Seq<char>
    decreases s.len(),
{
    if s.len() > 0 && whitespace(s.last()) {
        trimmed_end(s.drop_last())
    } else {
        s
    }
}

/// `s` without the white space at either end.
pub open spec fn trimmed(s: Seq<char>) -> Seq<char> {
    trimmed_end(trimmed_start(s))
}

/// Whether `c` is one of the ten decimal digits.
pub open spec fn digit(c: char) -> bool {
    0x30 <= c as u32 <= 0x39
}

/// The number that a decimal digit stands for.
pub open spec fn digit_value(c: char) -> int {
    c as u32 - 0x30
}

/// Whether `s` holds decimal digits only.
pub open spec fn all_digits(s: Seq<char>) -> bool {
    forall|i: int| 0 <= i < s.len() ==> digit(#[trigger] s[i])
}

/// The number that a run of decimal digits stands for; 0 for the empty run.
pub open spec fn digits_value(s: Seq<char>) -> int
    decreases s.len(),
{
    if s.len() == 0 {
        0
    } else {
        digits_value(s.drop_last()) * 10 + digit_value(s.last())
    }
}

/// The number written in `s`, if `s` is a decimal number: one digit or more,
/// after an optional `+`, or after a `-` where `signed` allows it. Nothing
/// else may stand in `s`, neither white space nor a separator.
pub open spec fn decimal(s: Seq<char>, signed: bool) -> Option<int> {
    if s.len() > 0 && (s[0] == '+' || (signed && s[0] == '-')) {
        let digits = s.drop_first();
        if digits.len() > 0 && all_digits(digits) {
            if s[0] == '-' {
                Some(-digits_value(digits))
            } else {
                Some(digits_value(digits))
            }
        } else {
            None
        }
    } else if s.len() > 0 && all_digits(s) {
        Some(digits_value(s))
    } else {
        None
    }
}

/// The `i64` written in `s`: a signed decimal number within the type's range.
pub open spec fn decimal_i64(s: Seq<char>) -> Option<i64> {
    match decimal(s, true) {
        Some(value) => if i64::MIN <= value <= i64::MAX {
            Some(value as i64)
        } else {
            None
        },
        None => None,
    }
}

/// The `u64` written in `s`: a decimal number without `-` within the type's
/// range.
pub open spec fn decimal_u64(s: Seq<char>) -> Option<u64> {
    match decimal(s, false) {
        Some(value) => if value <= u64::MAX {
            Some(value as u64)
        } else {
            None
        },
        None => None,
    }
}

/// A run of digits stands for a number that is not negative.
pub proof fn lemma_digits_value_nonnegative(s: Seq<char>)
    requires
        all_digits(s),
    ensures
        digits_value(s) >= 0,
    decreases s.len(),
{
    if s.len() > 0 {
        lemma_digits_value_nonnegative(s.drop_last());
    }
}

/// A run of digits stands for at least as much as any run it starts with.
pub proof fn lemma_digits_value_grows(s: Seq<char>, k: int)
    requires
        all_digits(s),
        0 <= k <= s.len(),
    ensures
        digits_value(s.take(k)) <= digits_value(s),
    decreases s.len() - k,
{
    if k == s.len() {
        assert(s.take(k) == s);
    } else {
        lemma_digits_value_grows(s.drop_last(), k);
        assert(s.drop_last().take(k) == s.take(k));
        lemma_digits_value_nonnegative(s.drop_last());
    }
}

/// The characters of `s`, in order.
pub fn chars_of(s: &str) -> (v: Vec<char>)
    ensures
        v@ == s@,
{
    let mut v: Vec<char> = Vec::new();
    for c in it: s.chars()
        invariant
            it.seq() == s@,
            v@ == s@.take(it.index() as int),
    {
        v.push(c);
    }
    v
}

/// Tells whether `c` is white space.
pub fn is_whitespace(c: char) -> (b: bool)
    ensures
        b == whitespace(c),
{
    let code: u32 = c as u32;
    (0x09 <= code && code <= 0x0D)
        || code == 0x20
        || code == 0x85
        || code == 0xA0
        || code == 0x1680
        || (0x2000 <= code && code <= 0x200A)
        || code == 0x2028
        || code == 0x2029
        || code == 0x202F
        || code == 0x205F
        || code == 0x3000
}

/// Leading white space can be dropped one character at a time.
proof fn lemma_trimmed_start_skip(s: Seq<char>, k: int)
    requires
        0 <= k <= s.len(),
        forall|i: int| 0 <= i < k ==> whitespace(#[trigger] s[i]),
    ensures
        trimmed_start(s) == trimmed_start(s.skip(k)),
    decreases k,
{
    if k == 0 {
        assert(s.skip(0) == s);
    } else {
        lemma_trimmed_start_skip(s.drop_first(), k - 1);
        assert(s.drop_first().skip(k - 1) == s.skip(k));
    }
}

/// Trailing white space can be dropped one character at a time.
proof fn lemma_trimmed_end_take(s: Seq<char>, k: int)
    requires
        0 <= k <= s.len(),
        forall|i: int| k <= i < s.len() ==> whitespace(#[trigger] s[i]),
    ensures
        trimmed_end(s) == trimmed_end(s.take(k)),
    decreases s.len() - k,
{
    if k == s.len() {
        assert(s.take(k) == s);
    } else {
        lemma_trimmed_end_take(s.drop_last(), k);
        assert(s.drop_last().take(k) == s.take(k));
    }
}

/// The part of `chars` between its leading and its trailing white space.
pub fn trim(chars: &[char]) -> (kept: &[char])
    ensures
        kept@ == trimmed(chars@),
{
    let mut start: usize = 0;
    while start < chars.len() && is_whitespace(chars[start])
        invariant
            start <= chars.len(),
            forall|i: int| 0 <= i < start ==> whitespace(#[trigger] chars@[i]),
        decreases chars.len() - start,
    {
        start += 1;
    }
    let mut end: usize = chars.len();
    while end > start && is_whitespace(chars[end - 1])
        invariant
            start <= end <= chars.len(),
            forall|i: int| end <= i < chars.len() ==> whitespace(#[trigger] chars@[i]),
        decreases end,
    {
        end -= 1;
    }
    proof {
        // What is left of the start is `rest`; what is left of its end is
        // the first `end - start` characters of `rest`.
        let rest = chars@.skip(start as int);
        lemma_trimmed_start_skip(chars@, start as int);
        lemma_trimmed_end_take(rest, end - start);
    }
    slice_subrange(chars, start, end)
}

/// The number that the digits of `chars` from `from` on stand for.
///
/// `None` where no character follows `from`, where one of them is no digit,
/// or where the number is above `limit`.
fn read_digits(chars: &[char], from: usize, limit: u128) -> (r: Option<u128>)
    requires
        from <= chars.len(),
        limit <= u64::MAX,
    ensures
        ({
            let digits = chars@.skip(from as int);
            let in_reach = digits.len() > 0 && all_digits(digits) && digits_value(digits) <= limit;
            match r {
                Some(value) => in_reach && value == digits_value(digits),
                None => !in_reach,
            }
        }),
{
    let ghost digits = chars@.skip(from as int);
    if from == chars.len() {
        return None;
    }
    let mut value: u128 = 0;
    let mut i: usize = from;
    while i < chars.len()
        invariant
            from <= i <= chars.len(),
            limit <= u64::MAX,
            digits == chars@.skip(from as int),
            all_digits(digits.take(i - from)),
            value == digits_value(digits.take(i - from)),
            value <= limit,
        decreases chars.len() - i,
    {
        let code: u32 = chars[i] as u32;
        if code < 0x30 || code > 0x39 {
            assert(!digit(digits[i - from]));
            return None;
        }
        let next: u128 = value * 10 + (code - 0x30) as u128;
        proof {
            let longer = digits.take(i - from + 1);
            assert(longer.drop_last() == digits.take(i - from));
            if all_digits(digits) {
                lemma_digits_value_grows(digits, i - from + 1);
            }
        }
        if next > limit {
            return None;
        }
        value = next;
        i += 1;
    }
    assert(digits.take(i - from) == digits);
    Some(value)
}

/// Reads a signed decimal number from its characters: `Some` exactly where
/// they are one and it fits in an `i64`.
pub fn chars_to_i64(chars: &[char]) -> (r: Option<i64>)
    ensures
        r == decimal_i64(chars@),
{
    if chars.len() == 0 {
        return None;
    }
    let first: char = chars[0];
    assert(chars@.skip(0) == chars@);
    if first == '-' {
        match read_digits(chars, 1, 0x8000_0000_0000_0000) {
            Some(magnitude) => Some((-(magnitude as i128)) as i64),
            None => None,
        }
    } else if first == '+' {
        match read_digits(chars, 1, 0x7fff_ffff_ffff_ffff) {
            Some(magnitude) => Some(magnitude as i64),
            None => None,
        }
    } else {
        match read_digits(chars, 0, 0x7fff_ffff_ffff_ffff) {
            Some(magnitude) => Some(magnitude as i64),
            None => None,
        }
    }
}

/// Reads a decimal number without `-` from its characters: `Some` exactly
/// where they are one and it fits in a `u64`.
pub fn chars_to_u64(chars: &[char]) -> (r: Option<u64>)
    ensures
        r == decimal_u64(chars@),
{
    if chars.len() == 0 {
        return None;
    }
    let first: char = chars[0];
    let from: usize = if first == '+' {
        1
    } else {
        0
    };
    assert(chars@.skip(0) == chars@);
    match read_digits(chars, from, 0xffff_ffff_ffff_ffff) {
        Some(magnitude) => Some(magnitude as u64),
        None => None,
    }
}

/// Reads a signed decimal number: `Some` exactly where `s` is one and fits
/// in an `i64`. White space around the number is not accepted.
pub fn parse_i64(s: &str) -> (r: Option<i64>)
    ensures
        r == decimal_i64(s@),
{
    let chars = chars_of(s);
    chars_to_i64(chars.as_slice())
}

/// Reads a decimal number without `-`: `Some` exactly where `s` is one and
/// fits in a `u64`. White space around the number is not accepted.
pub fn parse_u64(s: &str) -> (r: Option<u64>)
    ensures
        r == decimal_u64(s@),
{
    let chars = chars_of(s);
    chars_to_u64(chars.as_slice())
}

/// The reading that the content of a sensor file stands for: the signed
/// decimal number that is left when the white space around it is taken off.
pub open spec fn reading(content: Seq<char>) -> Option<i64> {
    decimal_i64(trimmed(content))
}

/// Reads the content of a sensor file: `Some` exactly where it holds one
/// signed decimal number that fits in an `i64`, alone but for white space
/// before and after it.
pub fn parse_reading(content: &str) -> (r: Option<i64>)
    ensures
        r == reading(content@),
{
    let chars = chars_of(content);
    chars_to_i64(trim(chars.as_slice()))
}

/// Tells whether `chars` spell `word`.
pub fn spells(chars: &[char], word: &str) -> (b: bool)
    ensures
        b == (chars@ == word@),
{
    let letters = chars_of(word);
    if chars.len() != letters.len() {
        return false;
    }
    let mut i: usize = 0;
    while i < chars.len()
        invariant
            i <= chars.len(),
            chars.len() == letters.len(),
            letters@ == word@,
            forall|j: int| 0 <= j < i ==> chars@[j] == letters@[j],
        decreases chars.len() - i,
    {
        if chars[i] != letters[i] {
            return false;
        }
        i += 1;
    }
    assert(chars@ =~= letters@);
    true
}

} // verus!
