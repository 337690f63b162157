//! What a message looks like as text: how it is written, and how a text is read.

use super::DecodeError;
use crate::text::{digits_value, is_digit, is_scalar};
use crate::infrastructure::web::websocket::connection_manager::MessageView;
use vstd::prelude::*;

verus! {
/// The decimal digit for `d`.
pub open spec fn digit_char(d: nat) -> char
    recommends
        d < 10,
{
    ('0' as u8 + d) as char
}

/// The decimal numeral of `n`, without leading zeros.
pub open spec fn decimal(n: nat) -> Seq<char>
    decreases n,
{
    if n < 10 {
        seq![digit_char(n)]
    } else {
        decimal(n / 10).push(digit_char(n % 10))
    }
}

/// The lower-case hexadecimal digit for `d`.
pub open spec fn hex_char(d: nat) -> char
    recommends
        d < 16,
{
    if d < 10 {
        ('0' as u8 + d) as char
    } else {
        ('a' as u8 + d - 10) as char
    }
}

/// How `c` is written inside a JSON string: the quote, the backslash and the control
/// characters are escaped, every other character stands for itself.
pub open spec fn escape_char(c: char) -> Seq<char> {
    if c == '"' {
        seq!['\\', '"']
    } else if c == '\\' {
        seq!['\\', '\\']
    } else if c == '\u{08}' {
        seq!['\\', 'b']
    } else if c == '\u{0c}' {
        seq!['\\', 'f']
    } else if c == '\n' {
        seq!['\\', 'n']
    } else if c == '\r' {
        seq!['\\', 'r']
    } else if c == '\t' {
        seq!['\\', 't']
    } else if (c as u32) < 0x20 {
        seq!['\\', 'u', '0', '0', hex_char((c as nat) / 16), hex_char((c as nat) % 16)]
    } else {
        seq![c]
    }
}

/// The characters of `s`, each written as inside a JSON string.
pub open spec fn escape(s: Seq<char>) -> Seq<char>
    decreases s.len(),
{
    if s.len() == 0 {
        Seq::empty()
    } else {
        escape_char(s[0]) + escape(s.drop_first())
    }
}

/// The JSON string that holds `s`.
pub open spec fn json_string(s: Seq<char>) -> Seq<char> {
    seq!['"'] + escape(s) + seq!['"']
}

/// The object member `key` with the JSON text `value`.
pub open spec fn member(key: Seq<char>, value: Seq<char>) -> Seq<char> {
    json_string(key) + seq![':'] + value
}

/// The JSON object with the one member `first`.
pub open spec fn object_of_one(first: Seq<char>) -> Seq<char> {
    seq!['{'] + first + seq!['}']
}

/// The JSON object with the members `first` and `second`.
pub open spec fn object_of_two(first: Seq<char>, second: Seq<char>) -> Seq<char> {
    seq!['{'] + first + seq![','] + second + seq!['}']
}

/// The message of type `tag` whose payload is the JSON text `data`.
pub open spec fn envelope(tag: Seq<char>, data: Seq<char>) -> Seq<char> {
    object_of_two(member("type"@, json_string(tag)), member("data"@, data))
}

/// The text that carries `message`.
pub open spec fn encode_spec(message: MessageView) -> Seq<char> {
    match message {
        MessageView::Heartbeat { timestamp, server_time } => envelope(
            "Heartbeat"@,
            object_of_two(
                member("timestamp"@, decimal(timestamp as nat)),
                member("server_time"@, json_string(server_time)),
            ),
        ),
        MessageView::ConnectionStatus { connected_users, uptime_seconds } => envelope(
            "ConnectionStatus"@,
            object_of_two(
                member("connected_users"@, decimal(connected_users as nat)),
                member("uptime_seconds"@, decimal(uptime_seconds as nat)),
            ),
        ),
        MessageView::Error { message } => envelope(
            "Error"@,
            object_of_one(member("message"@, json_string(message))),
        ),
        MessageView::Pong => object_of_one(member("type"@, json_string("Pong"@))),
    }
}

/// Whether `c` may stand between the tokens of a JSON text.
pub open spec fn is_whitespace(c: char) -> bool {
    c == ' ' || c == '\t' || c == '\n' || c == '\r'
}

/// `s` without its leading whitespace.
pub open spec fn skip_whitespace(s: Seq<char>) -> Seq<char>
    decreases s.len(),
{
    if s.len() > 0 && is_whitespace(s[0]) {
        skip_whitespace(s.drop_first())
    } else {
        s
    }
}

/// What is left of `s` after leading whitespace and the character `c`.
pub open spec fn expect_char(s: Seq<char>, c: char) -> Option<Seq<char>> {
    let t = skip_whitespace(s);
    if t.len() > 0 && t[0] == c {
        Some(t.drop_first())
    } else {
        None
    }
}

/// Whether nothing but whitespace is left in `s`.
pub open spec fn at_end(s: Seq<char>) -> bool {
    skip_whitespace(s).len() == 0
}

/// The number of decimal digits at the head of `s`.
pub open spec fn digit_run(s: Seq<char>) -> nat
    decreases s.len(),
{
    if s.len() > 0 && is_digit(s[0]) {
        1 + digit_run(s.drop_first())
    } else {
        0
    }
}

/// Reads an unsigned number after leading whitespace: all the digits that follow, which
/// must be at least one, must not begin with a needless zero, and must not exceed what 64
/// bits hold. Gives the number and what is left of `s`.
pub open spec fn read_number(s: Seq<char>) -> Option<(u64, Seq<char>)> {
    let t = skip_whitespace(s);
    let n = digit_run(t);
    let value = digits_value(t.take(n as int));
    if n == 0 || (n > 1 && t[0] == '0') || value > u64::MAX {
        None
    } else {
        Some((value as u64, t.skip(n as int)))
    }
}

/// The value of the hexadecimal digit `c`, in either case.
pub open spec fn hex_value(c: char) -> Option<nat> {
    if '0' <= c <= '9' {
        Some((c as nat - '0' as nat) as nat)
    } else if 'a' <= c <= 'f' {
        Some((c as nat - 'a' as nat + 10) as nat)
    } else if 'A' <= c <= 'F' {
        Some((c as nat - 'A' as nat + 10) as nat)
    } else {
        None
    }
}

/// The code point that four hexadecimal digits denote.
pub open spec fn hex4_value(a: char, b: char, c: char, d: char) -> Option<nat> {
    match (hex_value(a), hex_value(b), hex_value(c), hex_value(d)) {
        (Some(a), Some(b), Some(c), Some(d)) => Some(((a * 16 + b) * 16 + c) * 16 + d),
        _ => None,
    }
}

/// The character that a backslash followed by `c` stands for, where that is one character.
pub open spec fn simple_escape(c: char) -> Option<char> {
    if c == '"' {
        Some('"')
    } else if c == '\\' {
        Some('\\')
    } else if c == '/' {
        Some('/')
    } else if c == 'b' {
        Some('\u{08}')
    } else if c == 'f' {
        Some('\u{0c}')
    } else if c == 'n' {
        Some('\n')
    } else if c == 'r' {
        Some('\r')
    } else if c == 't' {
        Some('\t')
    } else {
        None
    }
}

/// Whether `code` is the first half of a surrogate pair.
pub open spec fn is_high_surrogate(code: nat) -> bool {
    0xD800 <= code < 0xDC00
}

/// Whether `code` is the second half of a surrogate pair.
pub open spec fn is_low_surrogate(code: nat) -> bool {
    0xDC00 <= code < 0xE000
}

/// The code point that the surrogate pair of `high` and `low` stands for.
pub open spec fn pair_value(high: nat, low: nat) -> nat {
    (0x10000 + (high - 0xD800) * 0x400 + (low - 0xDC00)) as nat
}

/// Reads a Unicode escape from the head of `s`, which begins with `\u`: four hexadecimal
/// digits that denote a Unicode scalar value, or two such escapes that make up a
/// surrogate pair. Gives the character and how much of `s` it took up.
pub open spec fn read_unicode_escape(s: Seq<char>) -> Option<(char, nat)> {
    if s.len() < 6 {
        None
    } else {
        match hex4_value(s[2], s[3], s[4], s[5]) {
            Some(code) => if is_scalar(code as int) {
                Some((code as char, 6))
            } else if is_high_surrogate(code) && s.len() >= 12 && s[6] == '\\' && s[7] == 'u' {
                match hex4_value(s[8], s[9], s[10], s[11]) {
                    Some(low) => if is_low_surrogate(low) {
                        Some((pair_value(code, low) as char, 12))
                    } else {
                        None
                    },
                    None => None,
                }
            } else {
                None
            },
            None => None,
        }
    }
}

/// Reads one character of a JSON string's content from the head of `s`: a character that
/// stands for itself, a two-character escape, or a Unicode escape. Gives the character
/// and how much of `s` it took up. Control characters and the quote do not stand for
/// themselves.
pub open spec fn read_char(s: Seq<char>) -> Option<(char, nat)> {
    if s.len() == 0 {
        None
    } else if s[0] != '\\' {
        if s[0] != '"' && s[0] as u32 >= 0x20 {
            Some((s[0], 1))
        } else {
            None
        }
    } else if s.len() < 2 {
        None
    } else if s[1] == 'u' {
        read_unicode_escape(s)
    } else {
        match simple_escape(s[1]) {
            Some(c) => Some((c, 2)),
            None => None,
        }
    }
}

/// Reads the content of a JSON string, `s` starting after the opening quote. Gives the
/// characters it holds and what is left of `s` after the closing quote.
pub open spec fn read_string_body(s: Seq<char>) -> Option<(Seq<char>, Seq<char>)>
    decreases s.len(),
{
    if s.len() > 0 && s[0] == '"' {
        Some((Seq::empty(), s.drop_first()))
    } else {
        match read_char(s) {
            Some((c, width)) => {
                if 0 < width <= s.len() {
                    match read_string_body(s.skip(width as int)) {
                        Some((tail, rest)) => Some((seq![c] + tail, rest)),
                        None => None,
                    }
                } else {
                    None
                }
            },
            None => None,
        }
    }
}

/// Reads a JSON string after leading whitespace. Gives the characters it holds and what is
/// left of `s`.
pub open spec fn read_string(s: Seq<char>) -> Option<(Seq<char>, Seq<char>)> {
    match expect_char(s, '"') {
        Some(t) => read_string_body(t),
        None => None,
    }
}

/// What is left of `s` after the member name `key` and its colon.
pub open spec fn expect_key(s: Seq<char>, key: Seq<char>) -> Option<Seq<char>> {
    match read_string(s) {
        Some((name, rest)) => if name == key {
            expect_char(rest, ':')
        } else {
            None
        },
        None => None,
    }
}

/// Reads the member `key` whose value is a string.
pub open spec fn read_string_member(s: Seq<char>, key: Seq<char>) -> Option<
    (Seq<char>, Seq<char>),
> {
    match expect_key(s, key) {
        Some(rest) => read_string(rest),
        None => None,
    }
}

/// Reads the member `key` whose value is a number.
pub open spec fn read_number_member(s: Seq<char>, key: Seq<char>) -> Option<(u64, Seq<char>)> {
    match expect_key(s, key) {
        Some(rest) => read_number(rest),
        None => None,
    }
}

/// Reads the payload of a heartbeat: an object with `timestamp` and `server_time`.
pub open spec fn read_heartbeat(s: Seq<char>) -> Option<(MessageView, Seq<char>)> {
    match expect_char(s, '{') {
        Some(s1) => match read_number_member(s1, "timestamp"@) {
            Some((timestamp, s2)) => match expect_char(s2, ',') {
                Some(s3) => match read_string_member(s3, "server_time"@) {
                    Some((server_time, s4)) => match expect_char(s4, '}') {
                        Some(s5) => Some((MessageView::Heartbeat { timestamp, server_time }, s5)),
                        None => None,
                    },
                    None => None,
                },
                None => None,
            },
            None => None,
        },
        None => None,
    }
}

/// Reads the payload of a connection status: an object with `connected_users`, which must
/// fit the machine's word, and `uptime_seconds`.
pub open spec fn read_status(s: Seq<char>) -> Option<(MessageView, Seq<char>)> {
    match expect_char(s, '{') {
        Some(s1) => match read_number_member(s1, "connected_users"@) {
            Some((connected_users, s2)) => match expect_char(s2, ',') {
                Some(s3) => match read_number_member(s3, "uptime_seconds"@) {
                    Some((uptime_seconds, s4)) => match expect_char(s4, '}') {
                        Some(s5) => if connected_users <= usize::MAX {
                            Some(
                                (
                                    MessageView::ConnectionStatus {
                                        connected_users: connected_users as usize,
                                        uptime_seconds,
                                    },
                                    s5,
                                ),
                            )
                        } else {
                            None
                        },
                        None => None,
                    },
                    None => None,
                },
                None => None,
            },
            None => None,
        },
        None => None,
    }
}

/// Reads the payload of an error: an object with `message`.
pub open spec fn read_error(s: Seq<char>) -> Option<(MessageView, Seq<char>)> {
    match expect_char(s, '{') {
        Some(s1) => match read_string_member(s1, "message"@) {
            Some((message, s2)) => match expect_char(s2, '}') {
                Some(s3) => Some((MessageView::Error { message }, s3)),
                None => None,
            },
            None => None,
        },
        None => None,
    }
}

/// What is left of `s` after leading whitespace and the word `null`.
pub open spec fn expect_null(s: Seq<char>) -> Option<Seq<char>> {
    let t = skip_whitespace(s);
    if t.len() >= 4 && t[0] == 'n' && t[1] == 'u' && t[2] == 'l' && t[3] == 'l' {
        Some(t.skip(4))
    } else {
        None
    }
}

/// What is left of `s` after the payload of a `Pong`, which has nothing to say: there need
/// be no `data` member, and one that is there holds `null` or an empty object.
pub open spec fn skip_pong_data(s: Seq<char>) -> Option<Seq<char>> {
    match expect_char(s, ',') {
        Some(s1) => match expect_key(s1, "data"@) {
            Some(s2) => match expect_null(s2) {
                Some(s3) => Some(s3),
                None => match expect_char(s2, '{') {
                    Some(s3) => expect_char(s3, '}'),
                    None => None,
                },
            },
            None => None,
        },
        None => Some(s),
    }
}

/// Reads the payload that belongs to the message type `tag`, `s` starting after the tag.
/// Every type but `Pong` has a `data` member with the members of that type.
pub open spec fn read_payload(tag: Seq<char>, s: Seq<char>) -> Option<(MessageView, Seq<char>)> {
    if tag == "Pong"@ {
        match skip_pong_data(s) {
            Some(rest) => Some((MessageView::Pong, rest)),
            None => None,
        }
    } else {
        match expect_char(s, ',') {
            Some(s1) => match expect_key(s1, "data"@) {
                Some(s2) => if tag == "Heartbeat"@ {
                    read_heartbeat(s2)
                } else if tag == "ConnectionStatus"@ {
                    read_status(s2)
                } else {
                    read_error(s2)
                },
                None => None,
            },
            None => None,
        }
    }
}

/// Whether `tag` names a message type.
pub open spec fn is_known_type(tag: Seq<char>) -> bool {
    tag == "Heartbeat"@ || tag == "ConnectionStatus"@ || tag == "Error"@ || tag == "Pong"@
}

/// The message that `text` carries. The text must be one JSON object: the member `type`
/// first, then the member `data` with the members of that type in their order; a `Pong`
/// needs no `data`. Whitespace may stand between the tokens.
pub open spec fn decode_spec(text: Seq<char>) -> Result<MessageView, DecodeError> {
    match expect_char(text, '{') {
        Some(s1) => match read_string_member(s1, "type"@) {
            Some((tag, s2)) => if !is_known_type(tag) {
                Err(DecodeError::UnknownType)
            } else {
                match read_payload(tag, s2) {
                    Some((message, s3)) => match expect_char(s3, '}') {
                        Some(s4) => if at_end(s4) {
                            Ok(message)
                        } else {
                            Err(DecodeError::Malformed)
                        },
                        None => Err(DecodeError::Malformed),
                    },
                    None => Err(DecodeError::Malformed),
                }
            },
            None => Err(DecodeError::Malformed),
        },
        None => Err(DecodeError::Malformed),
    }
}

} // verus!
