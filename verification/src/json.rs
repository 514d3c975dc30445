//! A verified JSON encoder for the response bodies the service returns:
//! string literals with full escaping, decimal numbers, and the fixed
//! object shapes (item echo, message, error, wrapped delete response).

use vstd::prelude::*;

verus! {

/// Appends one character to a string.
///
/// Relies on `String::push`: appends the given character to the end of
/// the string.
#[verifier::external_body]
pub(crate) fn push_char(s: &mut String, c: char)
    ensures
        final(s)@ == old(s)@.push(c),
{
    s.push(c);
}

/// The lowercase hexadecimal digit for a value below 16.
pub open spec fn hex_digit(n: int) -> char {
    if n == 0 {
        '0'
    } else if n == 1 {
        '1'
    } else if n == 2 {
        '2'
    } else if n == 3 {
        '3'
    } else if n == 4 {
        '4'
    } else if n == 5 {
        '5'
    } else if n == 6 {
        '6'
    } else if n == 7 {
        '7'
    } else if n == 8 {
        '8'
    } else if n == 9 {
        '9'
    } else if n == 10 {
        'a'
    } else if n == 11 {
        'b'
    } else if n == 12 {
        'c'
    } else if n == 13 {
        'd'
    } else if n == 14 {
        'e'
    } else {
        'f'
    }
}

fn hex_digit_char(n: u32) -> (r: char)
    requires
        n < 16,
    ensures
        r == hex_digit(n as int),
{
    match n {
        0 => '0',
        1 => '1',
        2 => '2',
        3 => '3',
        4 => '4',
        5 => '5',
        6 => '6',
        7 => '7',
        8 => '8',
        9 => '9',
        10 => 'a',
        11 => 'b',
        12 => 'c',
        13 => 'd',
        14 => 'e',
        _ => 'f',
    }
}

/// How one character appears inside a JSON string literal: quote and
/// backslash are escaped, control characters use their short escapes or
/// a `\u00..` sequence, and every other character stands for itself.
pub open spec fn escaped_char(c: char) -> Seq<char> {
    if c == '"' {
        seq!['\\', '"']
    } else if c == '\\' {
        seq!['\\', '\\']
    } else if c == '\u{8}' {
        seq!['\\', 'b']
    } else if c == '\t' {
        seq!['\\', 't']
    } else if c == '\n' {
        seq!['\\', 'n']
    } else if c == '\u{c}' {
        seq!['\\', 'f']
    } else if c == '\r' {
        seq!['\\', 'r']
    } else if (c as u32) < 0x20 {
        seq!['\\', 'u', '0', '0', hex_digit((c as u32) as int / 16), hex_digit((c as u32) as int % 16)]
    } else {
        seq![c]
    }
}

/// The body of a JSON string literal: each character escaped in turn.
pub open spec fn escaped(s: Seq<char>) -> Seq<char>
    decreases s.len(),
{
    if s.len() == 0 {
        Seq::<char>::empty()
    } else {
        escaped(s.drop_last()) + escaped_char(s.last())
    }
}

/// A JSON string literal: the escaped text between double quotes.
pub open spec fn json_str(s: Seq<char>) -> Seq<char> {
    seq!['"'] + escaped(s) + seq!['"']
}

proof fn lemma_escaped_step(s: Seq<char>, i: int)
    requires
        0 <= i < s.len(),
    ensures
        escaped(s.take(i + 1)) == escaped(s.take(i)) + escaped_char(s[i]),
{
    let t = s.take(i + 1);
    assert(t.drop_last() =~= s.take(i));
    assert(t.last() == s[i]);
}

fn append_escaped_char(out: &mut String, c: char)
    ensures
        final(out)@ == old(out)@ + escaped_char(c),
{
    if c == '"' {
        push_char(out, '\\');
        push_char(out, '"');
    } else if c == '\\' {
        push_char(out, '\\');
        push_char(out, '\\');
    } else if c == '\u{8}' {
        push_char(out, '\\');
        push_char(out, 'b');
    } else if c == '\t' {
        push_char(out, '\\');
        push_char(out, 't');
    } else if c == '\n' {
        push_char(out, '\\');
        push_char(out, 'n');
    } else if c == '\u{c}' {
        push_char(out, '\\');
        push_char(out, 'f');
    } else if c == '\r' {
        push_char(out, '\\');
        push_char(out, 'r');
    } else if (c as u32) < 0x20 {
        let cv: u32 = c as u32;
        push_char(out, '\\');
        push_char(out, 'u');
        push_char(out, '0');
        push_char(out, '0');
        push_char(out, hex_digit_char(cv / 16));
        push_char(out, hex_digit_char(cv % 16));
    } else {
        push_char(out, c);
    }
    proof {
        assert(out@ =~= old(out)@ + escaped_char(c));
    }
}

/// Appends the escaped form of `s` to `out`.
fn append_escaped(out: &mut String, s: &str)
    ensures
        final(out)@ == old(out)@ + escaped(s@),
{
    let ghost base = out@;
    let n = s.unicode_len();
    let mut i: usize = 0;
    while i < n
        invariant
            i <= n,
            n == s@.len(),
            out@ == base + escaped(s@.take(i as int)),
        decreases n - i,
    {
        let c = s.get_char(i);
        proof {
            lemma_escaped_step(s@, i as int);
        }
        append_escaped_char(out, c);
        i += 1;
    }
    proof {
        assert(s@.take(n as int) =~= s@);
        assert(out@ =~= base + escaped(s@));
    }
}

/// Encodes a string as a JSON string literal.
pub fn encode_json_string(s: &str) -> (r: String)
    ensures
        r@ == json_str(s@),
{
    let mut out = String::new();
    push_char(&mut out, '"');
    append_escaped(&mut out, s);
    push_char(&mut out, '"');
    proof {
        assert(out@ =~= json_str(s@));
    }
    out
}

/// The decimal digit for a value below 10.
pub open spec fn dec_digit(n: int) -> char {
    if n == 0 {
        '0'
    } else if n == 1 {
        '1'
    } else if n == 2 {
        '2'
    } else if n == 3 {
        '3'
    } else if n == 4 {
        '4'
    } else if n == 5 {
        '5'
    } else if n == 6 {
        '6'
    } else if n == 7 {
        '7'
    } else if n == 8 {
        '8'
    } else {
        '9'
    }
}

/// The decimal rendering of a non-negative number, most significant
/// digit first.
pub open spec fn dec_digits(n: int) -> Seq<char>
    decreases n,
{
    if n < 10 {
        seq![dec_digit(n)]
    } else {
        dec_digits(n / 10) + seq![dec_digit(n % 10)]
    }
}

fn dec_digit_char(n: u32) -> (r: char)
    requires
        n < 10,
    ensures
        r == dec_digit(n as int),
{
    match n {
        0 => '0',
        1 => '1',
        2 => '2',
        3 => '3',
        4 => '4',
        5 => '5',
        6 => '6',
        7 => '7',
        8 => '8',
        _ => '9',
    }
}

/// Renders a number in decimal.
pub fn u32_decimal(n: u32) -> (r: String)
    ensures
        r@ == dec_digits(n as int),
    decreases n,
{
    if n < 10 {
        let mut out = String::new();
        push_char(&mut out, dec_digit_char(n));
        proof {
            assert(out@ =~= dec_digits(n as int));
        }
        out
    } else {
        let mut out = u32_decimal(n / 10);
        push_char(&mut out, dec_digit_char(n % 10));
        proof {
            assert(out@ =~= dec_digits(n as int));
        }
        out
    }
}

/// The JSON object echoing a todo item: id, title and completion flag
/// in that order.
pub open spec fn todo_body(id: Seq<char>, title: Seq<char>, completed: bool) -> Seq<char> {
    "{\"id\":"@ + json_str(id) + ",\"title\":"@ + json_str(title) + ",\"completed\":"@ + (
    if completed {
        "true"@
    } else {
        "false"@
    }) + "}"@
}

/// Encodes the JSON echo of a todo item.
pub fn encode_todo_body(id: &str, title: &str, completed: bool) -> (r: String)
    ensures
        r@ == todo_body(id@, title@, completed),
{
    let mut out = String::from_str("{\"id\":");
    let quoted_id = encode_json_string(id);
    out.append(quoted_id.as_str());
    out.append(",\"title\":");
    let quoted_title = encode_json_string(title);
    out.append(quoted_title.as_str());
    out.append(",\"completed\":");
    if completed {
        out.append("true");
    } else {
        out.append("false");
    }
    out.append("}");
    out
}

/// The JSON object carrying a status message.
pub open spec fn message_body(msg: Seq<char>) -> Seq<char> {
    "{\"message\":"@ + json_str(msg) + "}"@
}

/// Encodes a status-message object.
pub fn encode_message_body(msg: &str) -> (r: String)
    ensures
        r@ == message_body(msg@),
{
    let mut out = String::from_str("{\"message\":");
    let quoted = encode_json_string(msg);
    out.append(quoted.as_str());
    out.append("}");
    out
}

/// The JSON object carrying an error report.
pub open spec fn error_body(msg: Seq<char>) -> Seq<char> {
    "{\"error\":"@ + json_str(msg) + "}"@
}

/// Encodes an error-report object.
pub fn encode_error_body(msg: &str) -> (r: String)
    ensures
        r@ == error_body(msg@),
{
    let mut out = String::from_str("{\"error\":");
    let quoted = encode_json_string(msg);
    out.append(quoted.as_str());
    out.append("}");
    out
}

/// The JSON object the delete handler returns: the gateway's status code
/// and its already-encoded body nested as a plain string value.
pub open spec fn wrapped_body(status: int, body: Seq<char>) -> Seq<char> {
    "{\"status_code\":"@ + dec_digits(status) + ",\"body\":"@ + json_str(body) + "}"@
}

/// Encodes the delete handler's wrapping of a gateway response.
pub fn encode_wrapped_body(status: u32, body: &str) -> (r: String)
    ensures
        r@ == wrapped_body(status as int, body@),
{
    let mut out = String::from_str("{\"status_code\":");
    let status_text = u32_decimal(status);
    out.append(status_text.as_str());
    out.append(",\"body\":");
    let quoted = encode_json_string(body);
    out.append(quoted.as_str());
    out.append("}");
    out
}

} // verus!
