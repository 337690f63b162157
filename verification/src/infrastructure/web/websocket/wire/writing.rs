//! Writing a message as text.

use super::format::{
    decimal, encode_spec, envelope, escape, escape_char, hex_char, json_string, member,
    object_of_one, object_of_two,
};
use crate::infrastructure::web::websocket::connection_manager::WebSocketMessage;
use vstd::prelude::*;
use vstd::string::StringExecFns;

verus! {

/// Appends the decimal numeral of `n` to `out`.
fn write_decimal(out: &mut String, n: u64)
    ensures
        final(out)@ == old(out)@ + decimal(n as nat),
    decreases n,
{
    if n < 10 {
        let d: u8 = n as u8;
        out.push((48u8 + d) as char);
        assert(out@ =~= old(out)@ + decimal(n as nat));
    } else {
        write_decimal(out, n / 10);
        let d: u8 = (n % 10) as u8;
        out.push((48u8 + d) as char);
        assert(out@ =~= old(out)@ + decimal(n as nat));
    }
}

/// The lower-case hexadecimal digit for `d`.
fn hex_digit(d: u8) -> (c: char)
    requires
        d < 16,
    ensures
        c == hex_char(d as nat),
{
    if d < 10 {
        (48u8 + d) as char
    } else {
        (87u8 + d) as char
    }
}

/// Appends `c`, written as inside a JSON string, to `out`.
fn write_escaped_char(out: &mut String, c: char)
    ensures
        final(out)@ == old(out)@ + escape_char(c),
{
    if c == '"' {
        out.push('\\');
        out.push('"');
    } else if c == '\\' {
        out.push('\\');
        out.push('\\');
    } else if c == '\u{08}' {
        out.push('\\');
        out.push('b');
    } else if c == '\u{0c}' {
        out.push('\\');
        out.push('f');
    } else if c == '\n' {
        out.push('\\');
        out.push('n');
    } else if c == '\r' {
        out.push('\\');
        out.push('r');
    } else if c == '\t' {
        out.push('\\');
        out.push('t');
    } else if (c as u32) < 0x20 {
        let code: u8 = c as u8;
        out.push('\\');
        out.push('u');
        out.push('0');
        out.push('0');
        out.push(hex_digit(code / 16));
        out.push(hex_digit(code % 16));
    } else {
        out.push(c);
    }
    assert(out@ =~= old(out)@ + escape_char(c));
}

/// Appends the JSON string that holds `s` to `out`.
fn write_string(out: &mut String, s: &str)
    ensures
        final(out)@ == old(out)@ + json_string(s@),
{
    out.push('"');
    let ghost start = out@;
    assert(s@.skip(0) =~= s@);
    for c in it: s.chars()
        invariant
            it.seq() == s@,
            0 <= it.index() <= s@.len(),
            out@ + escape(s@.skip(it.index())) == start + escape(s@),
    {
        let ghost done = it.index();
        let ghost before = out@;
        proof {
            let rest = s@.skip(done);
            assert(rest[0] == c);
            assert(rest.drop_first() =~= s@.skip(done + 1));
        }
        write_escaped_char(out, c);
        proof {
            assert(before + escape_char(c) + escape(s@.skip(done + 1)) =~= before + (escape_char(
                c,
            ) + escape(s@.skip(done + 1))));
        }
    }
    proof {
        assert(out@ =~= start + escape(s@));
    }
    out.push('"');
    assert(out@ =~= old(out)@ + json_string(s@));
}

/// The object member `key` with the JSON text `value`.
fn member_text(key: &str, value: &str) -> (text: String)
    ensures
        text@ == member(key@, value@),
{
    let mut out = String::new();
    write_string(&mut out, key);
    out.push(':');
    out.append(value);
    assert(out@ =~= member(key@, value@));
    out
}

/// The object member `key` whose value is the string `value`.
fn string_member_text(key: &str, value: &str) -> (text: String)
    ensures
        text@ == member(key@, json_string(value@)),
{
    let mut quoted = String::new();
    write_string(&mut quoted, value);
    assert(quoted@ =~= json_string(value@));
    member_text(key, quoted.as_str())
}

/// The object member `key` whose value is the number `value`.
fn number_member_text(key: &str, value: u64) -> (text: String)
    ensures
        text@ == member(key@, decimal(value as nat)),
{
    let mut numeral = String::new();
    write_decimal(&mut numeral, value);
    assert(numeral@ =~= decimal(value as nat));
    member_text(key, numeral.as_str())
}

/// The JSON object with the one member `first`.
fn object_of_one_text(first: &str) -> (text: String)
    ensures
        text@ == object_of_one(first@),
{
    let mut out = String::new();
    out.push('{');
    out.append(first);
    out.push('}');
    assert(out@ =~= object_of_one(first@));
    out
}

/// The JSON object with the members `first` and `second`.
fn object_of_two_text(first: &str, second: &str) -> (text: String)
    ensures
        text@ == object_of_two(first@, second@),
{
    let mut out = String::new();
    out.push('{');
    out.append(first);
    out.push(',');
    out.append(second);
    out.push('}');
    assert(out@ =~= object_of_two(first@, second@));
    out
}

/// The message of type `tag` whose payload is the JSON text `data`.
fn envelope_text(tag: &str, data: &str) -> (text: String)
    ensures
        text@ == envelope(tag@, data@),
{
    let kind = string_member_text("type", tag);
    let payload = member_text("data", data);
    object_of_two_text(kind.as_str(), payload.as_str())
}

/// The text that carries `message`.
pub fn encode(message: &WebSocketMessage) -> (text: String)
    ensures
        text@ == encode_spec(message@),
{
    match message {
        WebSocketMessage::Heartbeat { timestamp, server_time } => {
            let first = number_member_text("timestamp", *timestamp);
            let second = string_member_text("server_time", server_time.as_str());
            let data = object_of_two_text(first.as_str(), second.as_str());
            envelope_text("Heartbeat", data.as_str())
        },
        WebSocketMessage::ConnectionStatus { connected_users, uptime_seconds } => {
            let first = number_member_text("connected_users", *connected_users as u64);
            let second = number_member_text("uptime_seconds", *uptime_seconds);
            let data = object_of_two_text(first.as_str(), second.as_str());
            envelope_text("ConnectionStatus", data.as_str())
        },
        WebSocketMessage::Error { message } => {
            let only = string_member_text("message", message.as_str());
            let data = object_of_one_text(only.as_str());
            envelope_text("Error", data.as_str())
        },
        WebSocketMessage::Pong => {
            let kind = string_member_text("type", "Pong");
            object_of_one_text(kind.as_str())
        },
    }
}

} // verus!
