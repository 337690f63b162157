//! Why a message that was written is read back as it was.

use super::format::{
    at_end, decimal, decode_spec, digit_char, digit_run, encode_spec, envelope, escape,
    escape_char, expect_char, expect_key, hex4_value, hex_char, hex_value, is_known_type,
    is_whitespace, json_string, member, object_of_one, object_of_two, read_char, read_error,
    read_heartbeat, read_number, read_number_member, read_payload, read_status, read_string,
    read_string_body, read_string_member, skip_pong_data, skip_whitespace,
};
use super::DecodeError;
use crate::text::{digit_value, digits_value, is_digit};
use crate::infrastructure::web::websocket::connection_manager::MessageView;
use vstd::prelude::*;

verus! {

/// A character that is no whitespace is found at the head of what follows it.
proof fn lemma_expect_char(c: char, rest: Seq<char>)
    requires
        !is_whitespace(c),
    ensures
        expect_char(seq![c] + rest, c) == Some(rest),
{
    let s = seq![c] + rest;
    assert(s[0] == c);
    assert(skip_whitespace(s) == s);
    assert(s.drop_first() =~= rest);
}

/// A character that is no whitespace and not the one looked for is not found.
proof fn lemma_expect_other_char(c: char, wanted: char, rest: Seq<char>)
    requires
        !is_whitespace(c),
        c != wanted,
    ensures
        expect_char(seq![c] + rest, wanted) is None,
{
    let s = seq![c] + rest;
    assert(s[0] == c);
    assert(skip_whitespace(s) == s);
}

/// An escaped character is read back as the character itself.
proof fn lemma_read_escaped_char(c: char, tail: Seq<char>)
    ensures
        read_char(escape_char(c) + tail) == Some((c, escape_char(c).len())),
        (escape_char(c) + tail)[0] != '"',
        0 < escape_char(c).len() <= (escape_char(c) + tail).len(),
        (escape_char(c) + tail).skip(escape_char(c).len() as int) == tail,
{
    let e = escape_char(c);
    let s = e + tail;
    assert(s.skip(e.len() as int) =~= tail);
    assert(s[0] == e[0]);
    if e.len() >= 2 {
        assert(s[1] == e[1]);
    }
    if e.len() == 6 {
        assert(s[2] == e[2]);
        assert(s[3] == e[3]);
        assert(s[4] == e[4]);
        assert(s[5] == e[5]);
        let high = (c as nat) / 16;
        let low = (c as nat) % 16;
        assert(high < 2);
        assert(hex_value(hex_char(high)) == Some(high));
        assert(hex_value(hex_char(low)) == Some(low));
        assert(hex_value('0') == Some(0nat));
        assert(hex4_value(s[2], s[3], s[4], s[5]) == Some(c as nat));
        assert((c as nat) as char == c);
    }
}

/// The content of a string is read back as it was written.
proof fn lemma_read_string_body(x: Seq<char>, rest: Seq<char>)
    ensures
        read_string_body(escape(x) + (seq!['"'] + rest)) == Some((x, rest)),
    decreases x.len(),
{
    let s = escape(x) + (seq!['"'] + rest);
    if x.len() == 0 {
        assert(s =~= seq!['"'] + rest);
        assert(s.drop_first() =~= rest);
    } else {
        let c = x[0];
        let tail = escape(x.drop_first()) + (seq!['"'] + rest);
        assert(s =~= escape_char(c) + tail);
        lemma_read_escaped_char(c, tail);
        lemma_read_string_body(x.drop_first(), rest);
        assert(seq![c] + x.drop_first() =~= x);
    }
}

/// Appending is associative.
proof fn lemma_append_twice(a: Seq<char>, b: Seq<char>, c: Seq<char>)
    ensures
        a + b + c == a + (b + c),
{
    assert(a + b + c =~= a + (b + c));
}

/// What follows a string that is followed by `rest`.
proof fn lemma_string_then(x: Seq<char>, rest: Seq<char>)
    ensures
        json_string(x) + rest == seq!['"'] + (escape(x) + (seq!['"'] + rest)),
{
    lemma_append_twice(seq!['"'] + escape(x), seq!['"'], rest);
    lemma_append_twice(seq!['"'], escape(x), seq!['"'] + rest);
}

/// What follows a member that is followed by `rest`.
proof fn lemma_member_then(key: Seq<char>, value: Seq<char>, rest: Seq<char>)
    ensures
        member(key, value) + rest == json_string(key) + (seq![':'] + (value + rest)),
{
    lemma_append_twice(json_string(key) + seq![':'], value, rest);
    lemma_append_twice(json_string(key), seq![':'], value + rest);
}

/// What follows the opening of an object of one member that is followed by `rest`.
proof fn lemma_object_of_one_then(first: Seq<char>, rest: Seq<char>)
    ensures
        object_of_one(first) + rest == seq!['{'] + (first + (seq!['}'] + rest)),
{
    lemma_append_twice(seq!['{'] + first, seq!['}'], rest);
    lemma_append_twice(seq!['{'], first, seq!['}'] + rest);
}

/// What follows the opening of an object of two members that is followed by `rest`.
proof fn lemma_object_of_two_then(first: Seq<char>, second: Seq<char>, rest: Seq<char>)
    ensures
        object_of_two(first, second) + rest == seq!['{'] + (first + (seq![','] + (second + (
            seq!['}'] + rest)))),
{
    let close = seq!['}'] + rest;
    lemma_append_twice(seq!['{'] + first + seq![','] + second, seq!['}'], rest);
    lemma_append_twice(seq!['{'] + first + seq![','], second, close);
    lemma_append_twice(seq!['{'] + first, seq![','], second + close);
    lemma_append_twice(seq!['{'], first, seq![','] + (second + close));
}

/// A string is read back as it was written.
proof fn lemma_read_string(x: Seq<char>, rest: Seq<char>)
    ensures
        read_string(json_string(x) + rest) == Some((x, rest)),
{
    let body = escape(x) + (seq!['"'] + rest);
    lemma_string_then(x, rest);
    lemma_expect_char('"', body);
    lemma_read_string_body(x, rest);
}

/// A member name with its colon is recognised.
proof fn lemma_expect_key(key: Seq<char>, value: Seq<char>, rest: Seq<char>)
    ensures
        expect_key(member(key, value) + rest, key) == Some(value + rest),
{
    let after_name = seq![':'] + (value + rest);
    lemma_member_then(key, value, rest);
    lemma_read_string(key, after_name);
    lemma_expect_char(':', value + rest);
}

/// A member whose value is a string is read back as it was written.
proof fn lemma_read_string_member(key: Seq<char>, x: Seq<char>, rest: Seq<char>)
    ensures
        read_string_member(member(key, json_string(x)) + rest, key) == Some((x, rest)),
{
    lemma_expect_key(key, json_string(x), rest);
    lemma_read_string(x, rest);
}

/// The numeral of a number consists of digits, has no needless zero in front and denotes
/// the number.
proof fn lemma_decimal(n: nat)
    ensures
        decimal(n).len() >= 1,
        forall|i: int| 0 <= i < decimal(n).len() ==> is_digit(#[trigger] decimal(n)[i]),
        decimal(n).len() > 1 ==> decimal(n)[0] != '0',
        digits_value(decimal(n)) == n,
    decreases n,
{
    if n < 10 {
        let d = decimal(n);
        assert(d.drop_last() =~= Seq::<char>::empty());
        assert(digits_value(d) == digits_value(d.drop_last()) * 10 + digit_value(d.last()));
    } else {
        lemma_decimal(n / 10);
        let shorter = decimal(n / 10);
        let d = decimal(n);
        assert(d.drop_last() =~= shorter);
        assert(d.last() == digit_char(n % 10));
        assert(d[0] == shorter[0]);
        if shorter.len() == 1 {
            assert(digits_value(shorter) == digits_value(shorter.drop_last()) * 10 + digit_value(
                shorter.last(),
            ));
            assert(shorter.drop_last() =~= Seq::<char>::empty());
        }
    }
}

/// Digits followed by something that is no digit are counted exactly.
proof fn lemma_digit_run(digits: Seq<char>, rest: Seq<char>)
    requires
        forall|i: int| 0 <= i < digits.len() ==> is_digit(#[trigger] digits[i]),
        rest.len() == 0 || !is_digit(rest[0]),
    ensures
        digit_run(digits + rest) == digits.len(),
    decreases digits.len(),
{
    let s = digits + rest;
    if digits.len() == 0 {
        assert(s =~= rest);
    } else {
        assert(s[0] == digits[0]);
        assert(s.drop_first() =~= digits.drop_first() + rest);
        lemma_digit_run(digits.drop_first(), rest);
    }
}

/// A number is read back as it was written, where no digit follows it.
proof fn lemma_read_number(n: u64, rest: Seq<char>)
    requires
        rest.len() == 0 || !is_digit(rest[0]),
    ensures
        read_number(decimal(n as nat) + rest) == Some((n, rest)),
{
    let d = decimal(n as nat);
    let s = d + rest;
    lemma_decimal(n as nat);
    lemma_digit_run(d, rest);
    assert(s[0] == d[0]);
    assert(skip_whitespace(s) == s);
    assert(s.take(d.len() as int) =~= d);
    assert(s.skip(d.len() as int) =~= rest);
}

/// A member whose value is a number is read back as it was written, where no digit
/// follows it.
proof fn lemma_read_number_member(key: Seq<char>, n: u64, rest: Seq<char>)
    requires
        rest.len() == 0 || !is_digit(rest[0]),
    ensures
        read_number_member(member(key, decimal(n as nat)) + rest, key) == Some((n, rest)),
{
    lemma_expect_key(key, decimal(n as nat), rest);
    lemma_read_number(n, rest);
}

/// The payload of a heartbeat is read back as it was written.
proof fn lemma_read_heartbeat(timestamp: u64, server_time: Seq<char>, rest: Seq<char>)
    ensures
        read_heartbeat(
            object_of_two(
                member("timestamp"@, decimal(timestamp as nat)),
                member("server_time"@, json_string(server_time)),
            ) + rest,
        ) == Some((MessageView::Heartbeat { timestamp, server_time }, rest)),
{
    let first = member("timestamp"@, decimal(timestamp as nat));
    let second = member("server_time"@, json_string(server_time));
    let s5 = rest;
    let s4 = seq!['}'] + s5;
    let s3 = second + s4;
    let s2 = seq![','] + s3;
    let s1 = first + s2;
    let s0 = object_of_two(first, second) + rest;
    lemma_object_of_two_then(first, second, rest);
    lemma_expect_char('{', s1);
    assert(expect_char(s0, '{') == Some(s1));
    assert(s2[0] == ',');
    lemma_read_number_member("timestamp"@, timestamp, s2);
    assert(read_number_member(s1, "timestamp"@) == Some((timestamp, s2)));
    lemma_expect_char(',', s3);
    assert(expect_char(s2, ',') == Some(s3));
    lemma_read_string_member("server_time"@, server_time, s4);
    assert(read_string_member(s3, "server_time"@) == Some((server_time, s4)));
    lemma_expect_char('}', s5);
    assert(expect_char(s4, '}') == Some(s5));
}

/// The payload of a connection status is read back as it was written.
proof fn lemma_read_status(connected_users: usize, uptime_seconds: u64, rest: Seq<char>)
    ensures
        read_status(
            object_of_two(
                member("connected_users"@, decimal(connected_users as nat)),
                member("uptime_seconds"@, decimal(uptime_seconds as nat)),
            ) + rest,
        ) == Some((MessageView::ConnectionStatus { connected_users, uptime_seconds }, rest)),
{
    let first = member("connected_users"@, decimal(connected_users as nat));
    let second = member("uptime_seconds"@, decimal(uptime_seconds as nat));
    let s5 = rest;
    let s4 = seq!['}'] + s5;
    let s3 = second + s4;
    let s2 = seq![','] + s3;
    let s1 = first + s2;
    let s0 = object_of_two(first, second) + rest;
    lemma_object_of_two_then(first, second, rest);
    lemma_expect_char('{', s1);
    assert(expect_char(s0, '{') == Some(s1));
    assert(s2[0] == ',');
    lemma_read_number_member("connected_users"@, connected_users as u64, s2);
    assert(read_number_member(s1, "connected_users"@) == Some((connected_users as u64, s2)));
    lemma_expect_char(',', s3);
    assert(expect_char(s2, ',') == Some(s3));
    assert(s4[0] == '}');
    lemma_read_number_member("uptime_seconds"@, uptime_seconds, s4);
    assert(read_number_member(s3, "uptime_seconds"@) == Some((uptime_seconds, s4)));
    lemma_expect_char('}', s5);
    assert(expect_char(s4, '}') == Some(s5));
}

/// The payload of an error is read back as it was written.
proof fn lemma_read_error(message: Seq<char>, rest: Seq<char>)
    ensures
        read_error(object_of_one(member("message"@, json_string(message))) + rest) == Some(
            (MessageView::Error { message }, rest),
        ),
{
    let only = member("message"@, json_string(message));
    let s3 = rest;
    let s2 = seq!['}'] + s3;
    let s1 = only + s2;
    let s0 = object_of_one(only) + rest;
    lemma_object_of_one_then(only, rest);
    lemma_expect_char('{', s1);
    assert(expect_char(s0, '{') == Some(s1));
    lemma_read_string_member("message"@, message, s2);
    assert(read_string_member(s1, "message"@) == Some((message, s2)));
    lemma_expect_char('}', s3);
    assert(expect_char(s2, '}') == Some(s3));
}

/// The four type names differ from one another.
proof fn lemma_type_names_differ()
    ensures
        "Heartbeat"@ != "ConnectionStatus"@,
        "Heartbeat"@ != "Error"@,
        "Heartbeat"@ != "Pong"@,
        "ConnectionStatus"@ != "Error"@,
        "ConnectionStatus"@ != "Pong"@,
        "Error"@ != "Pong"@,
{
    reveal_strlit("Heartbeat");
    reveal_strlit("ConnectionStatus");
    reveal_strlit("Error");
    reveal_strlit("Pong");
    assert("Heartbeat"@.len() == 9);
    assert("ConnectionStatus"@.len() == 16);
    assert("Error"@.len() == 5);
    assert("Pong"@.len() == 4);
}

/// An enveloped message is read back, once its payload is.
proof fn lemma_read_envelope(
    tag: Seq<char>,
    data: Seq<char>,
    message: MessageView,
)
    requires
        is_known_type(tag),
        tag != "Pong"@,
        read_payload(tag, seq![','] + (member("data"@, data) + (seq!['}'] + Seq::<char>::empty())))
            == Some((message, seq!['}'] + Seq::<char>::empty())),
    ensures
        decode_spec(envelope(tag, data)) == Ok::<MessageView, DecodeError>(message),
{
    let end = Seq::<char>::empty();
    let close = seq!['}'] + end;
    let s2 = seq![','] + (member("data"@, data) + close);
    let s1 = member("type"@, json_string(tag)) + s2;
    let s0 = envelope(tag, data);
    lemma_object_of_two_then(member("type"@, json_string(tag)), member("data"@, data), end);
    assert(s0 + end =~= s0);
    lemma_expect_char('{', s1);
    assert(expect_char(s0, '{') == Some(s1));
    lemma_read_string_member("type"@, tag, s2);
    assert(read_string_member(s1, "type"@) == Some((tag, s2)));
    lemma_expect_char('}', end);
    assert(expect_char(close, '}') == Some(end));
    assert(at_end(end));
}

/// The payload of an enveloped message is reached by way of its `data` member.
proof fn lemma_reach_payload(tag: Seq<char>, data: Seq<char>, rest: Seq<char>)
    requires
        tag != "Pong"@,
    ensures
        read_payload(tag, seq![','] + (member("data"@, data) + rest)) == (if tag == "Heartbeat"@ {
            read_heartbeat(data + rest)
        } else if tag == "ConnectionStatus"@ {
            read_status(data + rest)
        } else {
            read_error(data + rest)
        }),
{
    let s1 = member("data"@, data) + rest;
    lemma_expect_char(',', s1);
    lemma_expect_key("data"@, data, rest);
}

/// Reading what [`encode_spec`] wrote gives back the message that was written.
pub proof fn lemma_decode_encode(message: MessageView)
    ensures
        decode_spec(encode_spec(message)) == Ok::<MessageView, DecodeError>(message),
{
    lemma_type_names_differ();
    let end = Seq::<char>::empty();
    let close = seq!['}'] + end;
    match message {
        MessageView::Heartbeat { timestamp, server_time } => {
            let data = object_of_two(
                member("timestamp"@, decimal(timestamp as nat)),
                member("server_time"@, json_string(server_time)),
            );
            lemma_reach_payload("Heartbeat"@, data, close);
            lemma_read_heartbeat(timestamp, server_time, close);
            lemma_read_envelope("Heartbeat"@, data, message);
        },
        MessageView::ConnectionStatus { connected_users, uptime_seconds } => {
            let data = object_of_two(
                member("connected_users"@, decimal(connected_users as nat)),
                member("uptime_seconds"@, decimal(uptime_seconds as nat)),
            );
            lemma_reach_payload("ConnectionStatus"@, data, close);
            lemma_read_status(connected_users, uptime_seconds, close);
            lemma_read_envelope("ConnectionStatus"@, data, message);
        },
        MessageView::Error { message: text } => {
            let data = object_of_one(member("message"@, json_string(text)));
            lemma_reach_payload("Error"@, data, close);
            lemma_read_error(text, close);
            lemma_read_envelope("Error"@, data, message);
        },
        MessageView::Pong => {
            let only = member("type"@, json_string("Pong"@));
            let s1 = only + close;
            let s0 = encode_spec(message);
            lemma_object_of_one_then(only, end);
            assert(s0 + end =~= s0);
            lemma_expect_char('{', s1);
            assert(expect_char(s0, '{') == Some(s1));
            lemma_read_string_member("type"@, "Pong"@, close);
            assert(read_string_member(s1, "type"@) == Some(("Pong"@, close)));
            lemma_expect_other_char('}', ',', end);
            assert(skip_pong_data(close) == Some(close));
            lemma_expect_char('}', end);
            assert(expect_char(close, '}') == Some(end));
            assert(at_end(end));
        },
    }
}

} // verus!
