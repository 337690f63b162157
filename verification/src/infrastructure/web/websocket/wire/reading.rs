//! Reading a message from text.

use super::format::{
    at_end, decode_spec, digit_run, expect_char, expect_key,
    expect_null, hex4_value, hex_value, is_known_type, read_char, read_error, read_heartbeat,
    read_number, read_number_member, read_payload, read_status, read_string, read_string_body,
    read_string_member, read_unicode_escape, simple_escape, skip_pong_data, skip_whitespace,
};
use super::DecodeError;
use crate::text::{chars_of, digits_value, is_scalar, lemma_digits_value_step};
use crate::infrastructure::web::websocket::connection_manager::{MessageView, WebSocketMessage};
use vstd::prelude::*;
use vstd::string::StringExecFns;

verus! {

/// The position in `chars` after the whitespace that starts at `pos`.
fn skip_spaces(chars: &Vec<char>, pos: usize) -> (next: usize)
    requires
        pos <= chars@.len(),
    ensures
        pos <= next <= chars@.len(),
        chars@.skip(next as int) == skip_whitespace(chars@.skip(pos as int)),
{
    let mut i: usize = pos;
    while i < chars.len() && (chars[i] == ' ' || chars[i] == '\t' || chars[i] == '\n' || chars[i]
        == '\r')
        invariant
            pos <= i <= chars@.len(),
            skip_whitespace(chars@.skip(i as int)) == skip_whitespace(chars@.skip(pos as int)),
        decreases chars@.len() - i,
    {
        proof {
            assert(chars@.skip(i as int).drop_first() =~= chars@.skip(i + 1));
        }
        i = i + 1;
    }
    i
}

/// The position in `chars` after whitespace and the character `c`, from `pos` on.
fn eat(chars: &Vec<char>, pos: usize, c: char) -> (next: Option<usize>)
    requires
        pos <= chars@.len(),
    ensures
        match expect_char(chars@.skip(pos as int), c) {
            Some(rest) => next is Some && pos < next->0 <= chars@.len() && chars@.skip(
                next->0 as int,
            ) == rest,
            None => next is None,
        },
{
    let i = skip_spaces(chars, pos);
    if i < chars.len() && chars[i] == c {
        proof {
            assert(chars@.skip(i as int).drop_first() =~= chars@.skip(i + 1));
        }
        Some(i + 1)
    } else {
        None
    }
}

/// Whether nothing but whitespace follows in `chars` from `pos` on.
fn ends(chars: &Vec<char>, pos: usize) -> (done: bool)
    requires
        pos <= chars@.len(),
    ensures
        done == at_end(chars@.skip(pos as int)),
{
    let i = skip_spaces(chars, pos);
    i == chars.len()
}

/// Reads an unsigned number from `chars` at `pos`.
fn scan_number(chars: &Vec<char>, pos: usize) -> (found: Option<(u64, usize)>)
    requires
        pos <= chars@.len(),
    ensures
        match read_number(chars@.skip(pos as int)) {
            Some((value, rest)) => found matches Some(read) && read.0 == value && pos < read.1
                <= chars@.len() && chars@.skip(read.1 as int) == rest,
            None => found is None,
        },
{
    let start = skip_spaces(chars, pos);
    let ghost t = chars@.skip(start as int);
    let mut i: usize = start;
    let mut value: u64 = 0;
    let mut fits = true;
    proof {
        assert(t.take(0) =~= Seq::<char>::empty());
    }
    while i < chars.len() && '0' <= chars[i] && chars[i] <= '9'
        invariant
            start <= i <= chars@.len(),
            t == chars@.skip(start as int),
            digit_run(t) == (i - start) + digit_run(chars@.skip(i as int)),
            fits ==> value == digits_value(t.take(i - start)),
            !fits ==> digits_value(t.take(i - start)) > u64::MAX,
        decreases chars@.len() - i,
    {
        let digit: u64 = (chars[i] as u32 - '0' as u32) as u64;
        proof {
            assert(chars@.skip(i as int).drop_first() =~= chars@.skip(i + 1));
            assert(t[i - start] == chars@[i as int]);
            lemma_digits_value_step(t, i - start);
        }
        if fits {
            if value > (u64::MAX - digit) / 10 {
                fits = false;
            } else {
                value = value * 10 + digit;
            }
        }
        i = i + 1;
    }
    let count = i - start;
    proof {
        assert(digit_run(chars@.skip(i as int)) == 0);
        assert(t.skip(count as int) =~= chars@.skip(i as int));
        if count > 0 {
            assert(t[0] == chars@[start as int]);
        }
    }
    if count == 0 || (count > 1 && chars[start] == '0') || !fits {
        None
    } else {
        Some((value, i))
    }
}

/// The value of the hexadecimal digit `c`, in either case.
fn hex_digit_value(c: char) -> (value: Option<u32>)
    ensures
        match hex_value(c) {
            Some(v) => value == Some(v as u32) && v < 16,
            None => value is None,
        },
{
    if '0' <= c && c <= '9' {
        Some(c as u32 - '0' as u32)
    } else if 'a' <= c && c <= 'f' {
        Some(c as u32 - 'a' as u32 + 10)
    } else if 'A' <= c && c <= 'F' {
        Some(c as u32 - 'A' as u32 + 10)
    } else {
        None
    }
}

/// The code point that four hexadecimal digits denote.
fn hex4(a: char, b: char, c: char, d: char) -> (value: Option<u32>)
    ensures
        match hex4_value(a, b, c, d) {
            Some(v) => value == Some(v as u32) && v <= 0xFFFF,
            None => value is None,
        },
{
    match (hex_digit_value(a), hex_digit_value(b), hex_digit_value(c), hex_digit_value(d)) {
        (Some(a), Some(b), Some(c), Some(d)) => Some(((a * 16 + b) * 16 + c) * 16 + d),
        _ => None,
    }
}

/// The character that a backslash followed by `c` stands for, where that is one character.
fn simple_escape_of(c: char) -> (plain: Option<char>)
    ensures
        plain == simple_escape(c),
{
    if c == '"' {
        Some('"')
    } else if c == '\\' {
        Some('\\')
    } else if c == '/' {
        Some('/')
    } else if c == 'b' {
        Some('\u{08}')
    } else if c == 'f' {
        Some('\u{0c}')
    } else if c == 'n' {
        Some('\n')
    } else if c == 'r' {
        Some('\r')
    } else if c == 't' {
        Some('\t')
    } else {
        None
    }
}

/// A character is the character of its own code point.
proof fn lemma_char_code(c: char)
    ensures
        (c as u32) as char == c,
        is_scalar(c as int),
{
}

/// Reads a Unicode escape from `chars` at `pos`, where `\u` begins.
fn scan_unicode_escape(chars: &Vec<char>, pos: usize) -> (found: Option<(char, usize)>)
    requires
        pos + 2 <= chars@.len(),
        chars@[pos as int] == '\\',
        chars@[pos + 1] == 'u',
    ensures
        match read_unicode_escape(chars@.skip(pos as int)) {
            Some((c, width)) => found == Some((c, (pos + width) as usize)) && 0 < width && pos
                + width <= chars@.len(),
            None => found is None,
        },
{
    let len = chars.len();
    proof {
        let s = chars@.skip(pos as int);
        if s.len() >= 6 {
            assert(s[2] == chars@[pos + 2]);
            assert(s[3] == chars@[pos + 3]);
            assert(s[4] == chars@[pos + 4]);
            assert(s[5] == chars@[pos + 5]);
        }
        if s.len() >= 12 {
            assert(s[6] == chars@[pos + 6]);
            assert(s[7] == chars@[pos + 7]);
            assert(s[8] == chars@[pos + 8]);
            assert(s[9] == chars@[pos + 9]);
            assert(s[10] == chars@[pos + 10]);
            assert(s[11] == chars@[pos + 11]);
        }
    }
    if len - pos < 6 {
        return None;
    }
    let code = match hex4(chars[pos + 2], chars[pos + 3], chars[pos + 4], chars[pos + 5]) {
        Some(code) => code,
        None => {
            return None;
        },
    };
    match char::from_u32(code) {
        Some(c) => {
            proof {
                lemma_char_code(c);
            }
            Some((c, pos + 6))
        },
        None => {
            if 0xD800 <= code && code < 0xDC00 && len - pos >= 12 && chars[pos + 6] == '\\'
                && chars[pos + 7] == 'u' {
                match hex4(chars[pos + 8], chars[pos + 9], chars[pos + 10], chars[pos + 11]) {
                    Some(low) => {
                        if 0xDC00 <= low && low < 0xE000 {
                            let combined: u32 = 0x10000 + (code - 0xD800) * 0x400 + (low - 0xDC00);
                            match char::from_u32(combined) {
                                Some(c) => {
                                    proof {
                                        lemma_char_code(c);
                                    }
                                    Some((c, pos + 12))
                                },
                                None => None,
                            }
                        } else {
                            None
                        }
                    },
                    None => None,
                }
            } else {
                None
            }
        },
    }
}

/// Reads one character of a JSON string's content from `chars` at `pos`.
fn scan_char(chars: &Vec<char>, pos: usize) -> (found: Option<(char, usize)>)
    requires
        pos <= chars@.len(),
    ensures
        match read_char(chars@.skip(pos as int)) {
            Some((c, width)) => found == Some((c, (pos + width) as usize)) && 0 < width && pos
                + width <= chars@.len(),
            None => found is None,
        },
{
    let len = chars.len();
    if pos >= len {
        return None;
    }
    let first = chars[pos];
    proof {
        let s = chars@.skip(pos as int);
        assert(s[0] == chars@[pos as int]);
        if s.len() >= 2 {
            assert(s[1] == chars@[pos + 1]);
        }
    }
    if first != '\\' {
        if first != '"' && first as u32 >= 0x20 {
            Some((first, pos + 1))
        } else {
            None
        }
    } else if len - pos < 2 {
        None
    } else if chars[pos + 1] == 'u' {
        scan_unicode_escape(chars, pos)
    } else {
        match simple_escape_of(chars[pos + 1]) {
            Some(c) => Some((c, pos + 2)),
            None => None,
        }
    }
}

/// What reading a string gives once `done` has been read and `more` is read after it.
pub open spec fn after(done: Seq<char>, more: Option<(Seq<char>, Seq<char>)>) -> Option<
    (Seq<char>, Seq<char>),
> {
    match more {
        Some((tail, rest)) => Some((done + tail, rest)),
        None => None,
    }
}

/// Reads a JSON string from `chars` at `pos`.
fn scan_string(chars: &Vec<char>, pos: usize) -> (found: Option<(String, usize)>)
    requires
        pos <= chars@.len(),
    ensures
        match read_string(chars@.skip(pos as int)) {
            Some((content, rest)) => found matches Some(read) && read.0@ == content && pos
                < read.1 <= chars@.len() && chars@.skip(read.1 as int) == rest,
            None => found is None,
        },
{
    let start = match eat(chars, pos, '"') {
        Some(start) => start,
        None => {
            return None;
        },
    };
    let mut content = String::new();
    let mut i: usize = start;
    let ghost whole = read_string_body(chars@.skip(start as int));
    proof {
        let first = read_string_body(chars@.skip(start as int));
        if let Some((tail, rest)) = first {
            assert(Seq::<char>::empty() + tail =~= tail);
        }
    }
    loop
        invariant
            pos < start <= i <= chars@.len(),
            whole == read_string(chars@.skip(pos as int)),
            whole == after(content@, read_string_body(chars@.skip(i as int))),
        decreases chars@.len() - i,
    {
        if i < chars.len() && chars[i] == '"' {
            proof {
                assert(chars@.skip(i as int).drop_first() =~= chars@.skip(i + 1));
                assert(content@ + Seq::<char>::empty() =~= content@);
            }
            return Some((content, i + 1));
        }
        match scan_char(chars, i) {
            Some((c, next)) => {
                proof {
                    let width = next - i;
                    assert(chars@.skip(i as int).skip(width) =~= chars@.skip(next as int));
                    let more = read_string_body(chars@.skip(next as int));
                    if let Some((tail, rest)) = more {
                        assert(content@ + (seq![c] + tail) =~= content@.push(c) + tail);
                    }
                }
                content.push(c);
                i = next;
            },
            None => {
                return None;
            },
        }
    }
}

/// The position in `chars` after the member name `key` and its colon, from `pos` on.
fn scan_key(chars: &Vec<char>, pos: usize, key: &str) -> (next: Option<usize>)
    requires
        pos <= chars@.len(),
    ensures
        match expect_key(chars@.skip(pos as int), key@) {
            Some(rest) => next is Some && pos < next->0 <= chars@.len() && chars@.skip(
                next->0 as int,
            ) == rest,
            None => next is None,
        },
{
    match scan_string(chars, pos) {
        Some((name, after_name)) => {
            if name == String::from_str(key) {
                eat(chars, after_name, ':')
            } else {
                None
            }
        },
        None => None,
    }
}

/// Reads the member `key` whose value is a string, from `chars` at `pos`.
fn scan_string_member(chars: &Vec<char>, pos: usize, key: &str) -> (found: Option<(String, usize)>)
    requires
        pos <= chars@.len(),
    ensures
        match read_string_member(chars@.skip(pos as int), key@) {
            Some((content, rest)) => found matches Some(read) && read.0@ == content && pos
                < read.1 <= chars@.len() && chars@.skip(read.1 as int) == rest,
            None => found is None,
        },
{
    match scan_key(chars, pos, key) {
        Some(next) => scan_string(chars, next),
        None => None,
    }
}

/// Reads the member `key` whose value is a number, from `chars` at `pos`.
fn scan_number_member(chars: &Vec<char>, pos: usize, key: &str) -> (found: Option<(u64, usize)>)
    requires
        pos <= chars@.len(),
    ensures
        match read_number_member(chars@.skip(pos as int), key@) {
            Some((value, rest)) => found matches Some(read) && read.0 == value && pos < read.1
                <= chars@.len() && chars@.skip(read.1 as int) == rest,
            None => found is None,
        },
{
    match scan_key(chars, pos, key) {
        Some(next) => scan_number(chars, next),
        None => None,
    }
}

/// Whether an executable reading `found` is what the grammar gives as `expected` for the
/// text of `chars` from some position on.
pub open spec fn reads_as(
    found: Option<(WebSocketMessage, usize)>,
    expected: Option<(MessageView, Seq<char>)>,
    chars: Seq<char>,
) -> bool {
    match expected {
        Some((message, rest)) => found matches Some(read) && read.0@ == message && read.1
            <= chars.len() && chars.skip(read.1 as int) == rest,
        None => found is None,
    }
}

/// Reads the payload of a heartbeat from `chars` at `pos`.
fn scan_heartbeat(chars: &Vec<char>, pos: usize) -> (found: Option<(WebSocketMessage, usize)>)
    requires
        pos <= chars@.len(),
    ensures
        reads_as(found, read_heartbeat(chars@.skip(pos as int)), chars@),
{
    let s1 = match eat(chars, pos, '{') {
        Some(next) => next,
        None => {
            return None;
        },
    };
    let (timestamp, s2) = match scan_number_member(chars, s1, "timestamp") {
        Some(read) => read,
        None => {
            return None;
        },
    };
    let s3 = match eat(chars, s2, ',') {
        Some(next) => next,
        None => {
            return None;
        },
    };
    let (server_time, s4) = match scan_string_member(chars, s3, "server_time") {
        Some(read) => read,
        None => {
            return None;
        },
    };
    match eat(chars, s4, '}') {
        Some(s5) => Some((WebSocketMessage::Heartbeat { timestamp, server_time }, s5)),
        None => None,
    }
}

/// Reads the payload of a connection status from `chars` at `pos`.
fn scan_status(chars: &Vec<char>, pos: usize) -> (found: Option<(WebSocketMessage, usize)>)
    requires
        pos <= chars@.len(),
    ensures
        reads_as(found, read_status(chars@.skip(pos as int)), chars@),
{
    let s1 = match eat(chars, pos, '{') {
        Some(next) => next,
        None => {
            return None;
        },
    };
    let (connected_users, s2) = match scan_number_member(chars, s1, "connected_users") {
        Some(read) => read,
        None => {
            return None;
        },
    };
    let s3 = match eat(chars, s2, ',') {
        Some(next) => next,
        None => {
            return None;
        },
    };
    let (uptime_seconds, s4) = match scan_number_member(chars, s3, "uptime_seconds") {
        Some(read) => read,
        None => {
            return None;
        },
    };
    match eat(chars, s4, '}') {
        Some(s5) => {
            if connected_users <= usize::MAX as u64 {
                Some(
                    (
                        WebSocketMessage::ConnectionStatus {
                            connected_users: connected_users as usize,
                            uptime_seconds,
                        },
                        s5,
                    ),
                )
            } else {
                None
            }
        },
        None => None,
    }
}

/// Reads the payload of an error from `chars` at `pos`.
fn scan_error(chars: &Vec<char>, pos: usize) -> (found: Option<(WebSocketMessage, usize)>)
    requires
        pos <= chars@.len(),
    ensures
        reads_as(found, read_error(chars@.skip(pos as int)), chars@),
{
    let s1 = match eat(chars, pos, '{') {
        Some(next) => next,
        None => {
            return None;
        },
    };
    let (message, s2) = match scan_string_member(chars, s1, "message") {
        Some(read) => read,
        None => {
            return None;
        },
    };
    match eat(chars, s2, '}') {
        Some(s3) => Some((WebSocketMessage::Error { message }, s3)),
        None => None,
    }
}

/// The position in `chars` after whitespace and the word `null`, from `pos` on.
fn eat_null(chars: &Vec<char>, pos: usize) -> (next: Option<usize>)
    requires
        pos <= chars@.len(),
    ensures
        match expect_null(chars@.skip(pos as int)) {
            Some(rest) => next matches Some(end) && pos < end <= chars@.len() && chars@.skip(
                end as int,
            ) == rest,
            None => next is None,
        },
{
    let i = skip_spaces(chars, pos);
    proof {
        let t = chars@.skip(i as int);
        if t.len() >= 4 {
            assert(t[0] == chars@[i as int]);
            assert(t[1] == chars@[i + 1]);
            assert(t[2] == chars@[i + 2]);
            assert(t[3] == chars@[i + 3]);
            assert(t.skip(4) =~= chars@.skip(i + 4));
        }
    }
    if chars.len() - i >= 4 && chars[i] == 'n' && chars[i + 1] == 'u' && chars[i + 2] == 'l'
        && chars[i + 3] == 'l' {
        Some(i + 4)
    } else {
        None
    }
}

/// The position in `chars` after the payload of a `Pong`, from `pos` on.
fn skip_pong(chars: &Vec<char>, pos: usize) -> (next: Option<usize>)
    requires
        pos <= chars@.len(),
    ensures
        match skip_pong_data(chars@.skip(pos as int)) {
            Some(rest) => next matches Some(end) && end <= chars@.len() && chars@.skip(end as int)
                == rest,
            None => next is None,
        },
{
    let s1 = match eat(chars, pos, ',') {
        Some(next) => next,
        None => {
            return Some(pos);
        },
    };
    let s2 = match scan_key(chars, s1, "data") {
        Some(next) => next,
        None => {
            return None;
        },
    };
    match eat_null(chars, s2) {
        Some(s3) => Some(s3),
        None => match eat(chars, s2, '{') {
            Some(s3) => eat(chars, s3, '}'),
            None => None,
        },
    }
}

/// Reads the payload that belongs to the message type `tag` from `chars` at `pos`.
fn scan_payload(tag: &String, chars: &Vec<char>, pos: usize) -> (found: Option<
    (WebSocketMessage, usize),
>)
    requires
        pos <= chars@.len(),
        is_known_type(tag@),
    ensures
        reads_as(found, read_payload(tag@, chars@.skip(pos as int)), chars@),
{
    if *tag == String::from_str("Pong") {
        return match skip_pong(chars, pos) {
            Some(next) => Some((WebSocketMessage::Pong, next)),
            None => None,
        };
    }
    let s1 = match eat(chars, pos, ',') {
        Some(next) => next,
        None => {
            return None;
        },
    };
    let s2 = match scan_key(chars, s1, "data") {
        Some(next) => next,
        None => {
            return None;
        },
    };
    if *tag == String::from_str("Heartbeat") {
        scan_heartbeat(chars, s2)
    } else if *tag == String::from_str("ConnectionStatus") {
        scan_status(chars, s2)
    } else {
        scan_error(chars, s2)
    }
}

/// Whether `tag` names a message type.
fn known_type(tag: &String) -> (known: bool)
    ensures
        known == is_known_type(tag@),
{
    *tag == String::from_str("Heartbeat") || *tag == String::from_str("ConnectionStatus") || *tag
        == String::from_str("Error") || *tag == String::from_str("Pong")
}

/// The message that `text` carries, or why it carries none.
pub fn decode(text: &str) -> (result: Result<WebSocketMessage, DecodeError>)
    ensures
        match decode_spec(text@) {
            Ok(message) => result is Ok && result->Ok_0@ == message,
            Err(error) => result == Err::<WebSocketMessage, DecodeError>(error),
        },
{
    let chars = chars_of(text);
    proof {
        assert(chars@.skip(0) =~= text@);
    }
    let s1 = match eat(&chars, 0, '{') {
        Some(next) => next,
        None => {
            return Err(DecodeError::Malformed);
        },
    };
    let (tag, s2) = match scan_string_member(&chars, s1, "type") {
        Some(read) => read,
        None => {
            return Err(DecodeError::Malformed);
        },
    };
    if !known_type(&tag) {
        return Err(DecodeError::UnknownType);
    }
    let (message, s3) = match scan_payload(&tag, &chars, s2) {
        Some(read) => read,
        None => {
            return Err(DecodeError::Malformed);
        },
    };
    match eat(&chars, s3, '}') {
        Some(s4) => {
            if ends(&chars, s4) {
                Ok(message)
            } else {
                Err(DecodeError::Malformed)
            }
        },
        None => Err(DecodeError::Malformed),
    }
}

} // verus!
