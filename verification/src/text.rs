//! What the rest of the library needs to know about text: characters, whitespace, case,
//! numerals, and length in bytes.

use vstd::prelude::*;

verus! {

/// `String::push` appends one character to the end of the string.
pub assume_specification[ String::push ](text: &mut String, c: char)
    ensures
        final(text)@ == old(text)@.push(c),
;

/// Whether `n` is a Unicode scalar value, that is, a code point that a `char` can hold.
pub open spec fn is_scalar(n: int) -> bool {
    0 <= n <= 0xD7FF || 0xE000 <= n <= 0x10FFFF
}

/// `char::from_u32` gives the character with code point `n`, and nothing when `n` is not
/// a Unicode scalar value.
pub assume_specification[ char::from_u32 ](n: u32) -> (c: Option<char>)
    ensures
        match c {
            Some(c) => is_scalar(n as int) && c as u32 == n,
            None => !is_scalar(n as int),
        },
;

/// Whether `c` has the Unicode property White_Space.
pub open spec fn is_white_space(c: char) -> bool {
    let code = c as u32;
    ||| 0x09 <= code <= 0x0D
    ||| code == 0x20
    ||| code == 0x85
    ||| code == 0xA0
    ||| code == 0x1680
    ||| 0x2000 <= code <= 0x200A
    ||| code == 0x2028
    ||| code == 0x2029
    ||| code == 0x202F
    ||| code == 0x205F
    ||| code == 0x3000
}

/// `s` without the whitespace at its start.
pub open spec fn trim_start(s: Seq<char>) -> Seq<char>
    decreases s.len(),
{
    if s.len() > 0 && is_white_space(s[0]) {
        trim_start(s.drop_first())
    } else {
        s
    }
}

/// `s` without the whitespace at its end.
pub open spec fn trim_end(s: Seq<char>) -> Seq<char>
    decreases s.len(),
{
    if s.len() > 0 && is_white_space(s.last()) {
        trim_end(s.drop_last())
    } else {
        s
    }
}

/// `s` without the whitespace at its start and at its end.
pub open spec fn trimmed(s: Seq<char>) -> Seq<char> {
    trim_end(trim_start(s))
}

/// Whether `c` has the Unicode property White_Space.
pub fn white_space(c: char) -> (found: bool)
    ensures
        found == is_white_space(c),
{
    let code = c as u32;
    (0x09 <= code && code <= 0x0D) || code == 0x20 || code == 0x85 || code == 0xA0 || code
        == 0x1680 || (0x2000 <= code && code <= 0x200A) || code == 0x2028 || code == 0x2029
        || code == 0x202F || code == 0x205F || code == 0x3000
}

/// Trimming at the start drops the whitespace up to the first character that is none.
proof fn lemma_trim_start(s: Seq<char>, k: int)
    requires
        0 <= k <= s.len(),
        forall|i: int| 0 <= i < k ==> is_white_space(#[trigger] s[i]),
        k == s.len() || !is_white_space(s[k]),
    ensures
        trim_start(s) == s.skip(k),
    decreases k,
{
    if k == 0 {
        assert(s.skip(0) =~= s);
    } else {
        let rest = s.drop_first();
        assert forall|i: int| 0 <= i < k - 1 implies is_white_space(#[trigger] rest[i]) by {
            assert(rest[i] == s[i + 1]);
        }
        lemma_trim_start(rest, k - 1);
        assert(rest.skip(k - 1) =~= s.skip(k));
    }
}

/// Trimming at the end drops the whitespace after the last character that is none.
proof fn lemma_trim_end(s: Seq<char>, k: int)
    requires
        0 <= k <= s.len(),
        forall|i: int| k <= i < s.len() ==> is_white_space(#[trigger] s[i]),
        k == 0 || !is_white_space(s[k - 1]),
    ensures
        trim_end(s) == s.take(k),
    decreases s.len() - k,
{
    if k == s.len() {
        assert(s.take(k) =~= s);
    } else {
        let rest = s.drop_last();
        lemma_trim_end(rest, k);
        assert(rest.take(k) =~= s.take(k));
    }
}

/// `text` without the whitespace at its start and at its end.
pub fn trim(text: &str) -> (slice: String)
    ensures
        slice@ == trimmed(text@),
{
    let chars = chars_of(text);
    let mut start: usize = 0;
    while start < chars.len() && white_space(chars[start])
        invariant
            start <= chars@.len(),
            forall|i: int| 0 <= i < start ==> is_white_space(#[trigger] chars@[i]),
        decreases chars@.len() - start,
    {
        start = start + 1;
    }
    let mut end: usize = chars.len();
    while end > start && white_space(chars[end - 1])
        invariant
            start <= end <= chars@.len(),
            forall|i: int| end <= i < chars@.len() ==> is_white_space(#[trigger] chars@[i]),
        decreases end,
    {
        end = end - 1;
    }
    let mut slice = String::new();
    let mut i: usize = start;
    while i < end
        invariant
            start <= i <= end <= chars@.len(),
            slice@ == chars@.subrange(start as int, i as int),
        decreases end - i,
    {
        slice.push(chars[i]);
        proof {
            assert(slice@ =~= chars@.subrange(start as int, i + 1));
        }
        i = i + 1;
    }
    proof {
        let front = chars@.skip(start as int);
        lemma_trim_start(chars@, start as int);
        assert forall|j: int| end - start <= j < front.len() implies is_white_space(
            #[trigger] front[j],
        ) by {
            assert(front[j] == chars@[start + j]);
        }
        if end > start {
            assert(front[end - start - 1] == chars@[end - 1]);
        }
        lemma_trim_end(front, end - start);
        assert(front.take(end - start) =~= chars@.subrange(start as int, end as int));
    }
    slice
}

/// The lower-case form of `s` that `str::to_lowercase` gives.
pub uninterp spec fn lowercase(s: Seq<char>) -> Seq<char>;

/// `str::to_lowercase` gives the lower-case form of the text as a new string.
pub assume_specification[ str::to_lowercase ](text: &str) -> (lowered: String)
    ensures
        lowered@ == lowercase(text@),
;

/// Whether `c` is numeric as `char::is_numeric` has it: a decimal digit, a letter-like
/// numeral or another numeric character of Unicode.
pub uninterp spec fn numeric_char(c: char) -> bool;

/// `char::is_numeric` tells whether the character is numeric.
pub assume_specification[ char::is_numeric ](c: char) -> (numeric: bool)
    ensures
        numeric == numeric_char(c),
;

/// Whether `text` begins with `prefix`.
pub fn starts_with(text: &str, prefix: &str) -> (found: bool)
    ensures
        found == prefix@.is_prefix_of(text@),
{
    let whole = chars_of(text);
    let start = chars_of(prefix);
    if start.len() > whole.len() {
        return false;
    }
    let mut i: usize = 0;
    while i < start.len()
        invariant
            i <= start@.len() <= whole@.len(),
            whole@ == text@,
            start@ == prefix@,
            forall|j: int| 0 <= j < i ==> start@[j] == whole@[j],
        decreases start@.len() - i,
    {
        if start[i] != whole[i] {
            proof {
                assert(whole@.subrange(0, start@.len() as int)[i as int] != start@[i as int]);
            }
            return false;
        }
        i = i + 1;
    }
    proof {
        assert(whole@.subrange(0, start@.len() as int) =~= start@);
    }
    true
}

/// The number of bytes that `s` takes up in UTF-8, which is what `str::len` counts.
pub open spec fn byte_len(s: Seq<char>) -> nat {
    vstd::utf8::encode_utf8(s).len()
}

/// The number of bytes that `text` takes up.
pub fn byte_length(text: &str) -> (count: usize)
    ensures
        count == byte_len(text@),
{
    text.as_bytes().len()
}

/// Whether `c` is one of the punctuation characters of ASCII.
pub open spec fn is_ascii_punctuation(c: char) -> bool {
    ||| '!' <= c <= '/'
    ||| ':' <= c <= '@'
    ||| '[' <= c <= '`'
    ||| '{' <= c <= '~'
}

/// Whether `c` is one of the punctuation characters of ASCII.
pub fn ascii_punctuation(c: char) -> (found: bool)
    ensures
        found == is_ascii_punctuation(c),
{
    ('!' <= c && c <= '/') || (':' <= c && c <= '@') || ('[' <= c && c <= '`') || ('{' <= c && c
        <= '~')
}

/// Whether `a` and `b` hold the same characters.
pub fn same_text(a: &str, b: &str) -> (same: bool)
    ensures
        same == (a@ == b@),
{
    owned(a) == owned(b)
}

/// The characters of `text`, in order.
pub fn chars_of(text: &str) -> (chars: Vec<char>)
    ensures
        chars@ == text@,
{
    let mut chars: Vec<char> = Vec::new();
    for c in it: text.chars()
        invariant
            it.seq() == text@,
            chars@.len() == it.index(),
            forall|i: int| 0 <= i < chars@.len() ==> chars@[i] == text@[i],
    {
        chars.push(c);
    }
    assert(chars@ =~= text@);
    chars
}

/// Whether `c` is a decimal digit.
pub open spec fn is_digit(c: char) -> bool {
    '0' <= c <= '9'
}

/// The value of the decimal digit `c`.
pub open spec fn digit_value(c: char) -> nat
    recommends
        is_digit(c),
{
    if is_digit(c) {
        (c as nat - '0' as nat) as nat
    } else {
        0
    }
}

/// The number that the decimal digits `s` denote.
pub open spec fn digits_value(s: Seq<char>) -> nat
    decreases s.len(),
{
    if s.len() == 0 {
        0
    } else {
        digits_value(s.drop_last()) * 10 + digit_value(s.last())
    }
}

/// Whether `s` consists of decimal digits, and of at least one.
pub open spec fn is_numeral(s: Seq<char>) -> bool {
    s.len() > 0 && forall|i: int| 0 <= i < s.len() ==> is_digit(#[trigger] s[i])
}

/// The integer that `s` denotes, as `str::parse` reads integers: a sign may come first,
/// which must be `+` where `signed` is not set, then decimal digits have to follow, at
/// least one, and nothing else.
pub open spec fn parsed_integer(s: Seq<char>, signed: bool) -> Option<int> {
    let negative = signed && s.len() > 0 && s[0] == '-';
    let digits = if s.len() > 0 && (s[0] == '+' || negative) {
        s.drop_first()
    } else {
        s
    };
    if !is_numeral(digits) {
        None
    } else if negative {
        Some(-(digits_value(digits) as int))
    } else {
        Some(digits_value(digits) as int)
    }
}

/// The number that `s` denotes as an `i32`, if it denotes one.
pub open spec fn parsed_i32(s: Seq<char>) -> Option<i32> {
    match parsed_integer(s, true) {
        Some(n) => if i32::MIN <= n <= i32::MAX {
            Some(n as i32)
        } else {
            None
        },
        None => None,
    }
}

/// The number that `s` denotes as a `u16`, if it denotes one.
pub open spec fn parsed_u16(s: Seq<char>) -> Option<u16> {
    match parsed_integer(s, false) {
        Some(n) => if n <= u16::MAX {
            Some(n as u16)
        } else {
            None
        },
        None => None,
    }
}

/// Taking one more digit into account multiplies by ten and adds the digit.
pub proof fn lemma_digits_value_step(t: Seq<char>, k: int)
    requires
        0 <= k < t.len(),
    ensures
        digits_value(t.take(k + 1)) == digits_value(t.take(k)) * 10 + digit_value(t[k]),
{
    assert(t.take(k + 1).drop_last() =~= t.take(k));
    assert(t.take(k + 1).last() == t[k]);
}

/// The number that the characters of `chars` from `start` on denote, if they are a
/// numeral and the number is at most `limit`.
fn parse_numeral(chars: &Vec<char>, start: usize, limit: u64) -> (number: Option<u64>)
    requires
        start <= chars@.len(),
        limit < u64::MAX / 10 - 1,
    ensures
        match number {
            Some(n) => is_numeral(chars@.skip(start as int)) && n == digits_value(
                chars@.skip(start as int),
            ) && n <= limit,
            None => !is_numeral(chars@.skip(start as int)) || digits_value(
                chars@.skip(start as int),
            ) > limit,
        },
{
    let ghost t = chars@.skip(start as int);
    if start == chars.len() {
        return None;
    }
    let mut i: usize = start;
    let mut value: u64 = 0;
    proof {
        assert(t.take(0) =~= Seq::<char>::empty());
    }
    while i < chars.len()
        invariant
            start <= i <= chars@.len(),
            t == chars@.skip(start as int),
            limit < u64::MAX / 10 - 1,
            forall|j: int| 0 <= j < i - start ==> is_digit(#[trigger] t[j]),
            value <= limit,
            value == digits_value(t.take(i - start)),
        decreases chars@.len() - i,
    {
        let c = chars[i];
        proof {
            assert(t[i - start] == chars@[i as int]);
            lemma_digits_value_step(t, i - start);
        }
        if !('0' <= c && c <= '9') {
            return None;
        }
        let digit: u64 = (c as u32 - '0' as u32) as u64;
        value = value * 10 + digit;
        if value > limit {
            proof {
                lemma_digits_value_grows(t, i - start + 1);
            }
            return None;
        }
        i = i + 1;
    }
    proof {
        assert(t.take(t.len() as int) =~= t);
    }
    Some(value)
}

/// A numeral denotes at least what any of its beginnings denotes.
proof fn lemma_digits_value_grows(t: Seq<char>, k: int)
    requires
        0 <= k <= t.len(),
    ensures
        digits_value(t.take(k)) <= digits_value(t),
    decreases t.len() - k,
{
    if k == t.len() {
        assert(t.take(k) =~= t);
    } else {
        lemma_digits_value_step(t, k);
        lemma_digits_value_grows(t, k + 1);
        assert(digits_value(t.take(k)) <= digits_value(t.take(k + 1))) by (nonlinear_arith)
            requires
                digits_value(t.take(k + 1)) == digits_value(t.take(k)) * 10 + digit_value(t[k]),
        ;
    }
}

/// The number that `text` denotes as an `i32`, if it denotes one.
pub fn parse_i32(text: &str) -> (number: Option<i32>)
    ensures
        number == parsed_i32(text@),
{
    let chars = chars_of(text);
    if chars.len() == 0 {
        return None;
    }
    let first = chars[0];
    let negative = first == '-';
    let start: usize = if first == '+' || negative { 1 } else { 0 };
    proof {
        assert(chars@.skip(0) =~= chars@);
        assert(chars@.skip(1) =~= chars@.drop_first());
    }
    match parse_numeral(&chars, start, 0x8000_0000) {
        Some(magnitude) => {
            if negative {
                if magnitude == 0x8000_0000 {
                    Some(i32::MIN)
                } else {
                    Some(-(magnitude as i32))
                }
            } else if magnitude <= 0x7FFF_FFFF {
                Some(magnitude as i32)
            } else {
                None
            }
        },
        None => None,
    }
}

/// The number that `text` denotes as a `u16`, if it denotes one.
pub fn parse_u16(text: &str) -> (number: Option<u16>)
    ensures
        number == parsed_u16(text@),
{
    let chars = chars_of(text);
    if chars.len() == 0 {
        return None;
    }
    let start: usize = if chars[0] == '+' { 1 } else { 0 };
    proof {
        assert(chars@.skip(0) =~= chars@);
        assert(chars@.skip(1) =~= chars@.drop_first());
    }
    match parse_numeral(&chars, start, 0xFFFF) {
        Some(number) => Some(number as u16),
        None => None,
    }
}

/// An owned copy of `text`.
pub fn owned(text: &str) -> (copy: String)
    ensures
        copy@ == text@,
{
    text.to_owned()
}

} // verus!
