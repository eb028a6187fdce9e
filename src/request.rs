//! The texts of the three HTTP requests this client sends.
use vstd::prelude::*;
use vstd::utf8::encode_utf8;
use crate::text::{chars_of, push_char};

verus! {

/// The decimal digit for `d`, for `d < 10`.
pub open spec fn digit_char(d: int) -> char {
    if d == 0 {
        '0'
    } else if d == 1 {
        '1'
    } else if d == 2 {
        '2'
    } else if d == 3 {
        '3'
    } else if d == 4 {
        '4'
    } else if d == 5 {
        '5'
    } else if d == 6 {
        '6'
    } else if d == 7 {
        '7'
    } else if d == 8 {
        '8'
    } else {
        '9'
    }
}

/// The lowercase hexadecimal digit for `d`, for `d < 16`.
pub open spec fn hex_char(d: int) -> char {
    if d < 10 {
        digit_char(d)
    } else if d == 10 {
        'a'
    } else if d == 11 {
        'b'
    } else if d == 12 {
        'c'
    } else if d == 13 {
        'd'
    } else if d == 14 {
        'e'
    } else {
        'f'
    }
}

/// The decimal numeral of `n`, without leading zeros.
pub open spec fn decimal(n: nat) -> Seq<char>
    decreases n,
{
    if n < 10 {
        seq![digit_char(n as int)]
    } else {
        decimal(n / 10).push(digit_char((n % 10) as int))
    }
}

fn hex_digit(d: u32) -> (c: char)
    requires
        d < 16,
    ensures
        c == hex_char(d as int),
{
    if d == 0 {
        '0'
    } else if d == 1 {
        '1'
    } else if d == 2 {
        '2'
    } else if d == 3 {
        '3'
    } else if d == 4 {
        '4'
    } else if d == 5 {
        '5'
    } else if d == 6 {
        '6'
    } else if d == 7 {
        '7'
    } else if d == 8 {
        '8'
    } else if d == 9 {
        '9'
    } else if d == 10 {
        'a'
    } else if d == 11 {
        'b'
    } else if d == 12 {
        'c'
    } else if d == 13 {
        'd'
    } else if d == 14 {
        'e'
    } else {
        'f'
    }
}

/// Appends the decimal numeral of `n`.
pub fn push_decimal(out: &mut String, n: usize)
    ensures
        final(out)@ == old(out)@ + decimal(n as nat),
    decreases n,
{
    if n >= 10 {
        push_decimal(out, n / 10);
    }
    push_char(out, hex_digit((n % 10) as u32));
    assert(final(out)@ =~= old(out)@ + decimal(n as nat));
}

/// A character as it stands inside a JSON string literal.
pub open spec fn escape_char(c: char) -> Seq<char> {
    let u = c as u32;
    if c == '"' {
        seq!['\\', '"']
    } else if c == '\\' {
        seq!['\\', '\\']
    } else if c == '\n' {
        seq!['\\', 'n']
    } else if c == '\r' {
        seq!['\\', 'r']
    } else if c == '\t' {
        seq!['\\', 't']
    } else if u < 0x20 {
        seq!['\\', 'u', '0', '0', hex_char((u / 16) as int), hex_char((u % 16) as int)]
    } else {
        seq![c]
    }
}

/// A text as it stands inside a JSON string literal.
pub open spec fn escaped(s: Seq<char>) -> Seq<char>
    decreases s.len(),
{
    if s.len() == 0 {
        seq![]
    } else {
        escaped(s.drop_last()) + escape_char(s.last())
    }
}

fn push_escaped_char(out: &mut String, c: char)
    ensures
        final(out)@ == old(out)@ + escape_char(c),
{
    let u = c as u32;
    if c == '"' || c == '\\' {
        push_char(out, '\\');
        push_char(out, c);
    } else if c == '\n' {
        push_char(out, '\\');
        push_char(out, 'n');
    } else if c == '\r' {
        push_char(out, '\\');
        push_char(out, 'r');
    } else if c == '\t' {
        push_char(out, '\\');
        push_char(out, 't');
    } else if u < 0x20 {
        push_char(out, '\\');
        push_char(out, 'u');
        push_char(out, '0');
        push_char(out, '0');
        push_char(out, hex_digit(u / 16));
        push_char(out, hex_digit(u % 16));
    } else {
        push_char(out, c);
    }
    assert(final(out)@ =~= old(out)@ + escape_char(c));
}

/// Appends `s` escaped for a JSON string literal.
pub fn push_escaped(out: &mut String, s: &str)
    ensures
        final(out)@ == old(out)@ + escaped(s@),
{
    let cs = chars_of(s);
    let mut i: usize = 0;
    while i < cs.len()
        invariant
            i <= cs@.len(),
            cs@ == s@,
            out@ == old(out)@ + escaped(cs@.subrange(0, i as int)),
        decreases cs@.len() - i,
    {
        push_escaped_char(out, cs[i]);
        assert(cs@.subrange(0, i + 1).drop_last() =~= cs@.subrange(0, i as int));
        assert(out@ =~= old(out)@ + escaped(cs@.subrange(0, i + 1)));
        i = i + 1;
    }
    assert(cs@.subrange(0, i as int) =~= s@);
}

/// The request for the server's version.
pub open spec fn version_request_text() -> Seq<char> {
    "GET /api/version HTTP/1.1\r\nHost: localhost\r\nConnection: close\r\n\r\n"@
}

/// The request for the list of installed models.
pub open spec fn tags_request_text() -> Seq<char> {
    "GET /api/tags HTTP/1.1\r\nHost: localhost\r\nConnection: close\r\n\r\n"@
}

/// The JSON body of a generation request, with streaming off.
pub open spec fn generate_body(model: Seq<char>, prompt: Seq<char>) -> Seq<char> {
    "{\"model\": \""@ + escaped(model) + "\", \"prompt\": \""@ + escaped(prompt)
        + "\", \"stream\": false}"@
}

/// A generation request for `body`, with its length in bytes as the
/// content length.
pub open spec fn generate_request_text(body: Seq<char>) -> Seq<char> {
    "POST /api/generate HTTP/1.1\r\nHost: localhost\r\nContent-Type: application/json\r\nContent-Length: "@
        + decimal((encode_utf8(body).len() as usize) as nat) + "\r\nConnection: close\r\n\r\n"@
        + body
}

/// The text of the version request.
pub fn version_request() -> (r: String)
    ensures
        r@ == version_request_text(),
{
    String::from_str("GET /api/version HTTP/1.1\r\nHost: localhost\r\nConnection: close\r\n\r\n")
}

/// The text of the model-listing request.
pub fn tags_request() -> (r: String)
    ensures
        r@ == tags_request_text(),
{
    String::from_str("GET /api/tags HTTP/1.1\r\nHost: localhost\r\nConnection: close\r\n\r\n")
}

/// The JSON body asking `model` to answer `prompt`.
pub fn generation_body(model: &str, prompt: &str) -> (r: String)
    ensures
        r@ == generate_body(model@, prompt@),
{
    let mut out = String::from_str("{\"model\": \"");
    push_escaped(&mut out, model);
    out.append("\", \"prompt\": \"");
    push_escaped(&mut out, prompt);
    out.append("\", \"stream\": false}");
    out
}

/// The text of the generation request asking `model` to answer `prompt`.
pub fn generation_request(model: &str, prompt: &str) -> (r: String)
    ensures
        r@ == generate_request_text(generate_body(model@, prompt@)),
{
    let body = generation_body(model, prompt);
    let n: usize = body.as_str().len();
    let mut out = String::from_str(
        "POST /api/generate HTTP/1.1\r\nHost: localhost\r\nContent-Type: application/json\r\nContent-Length: ",
    );
    push_decimal(&mut out, n);
    out.append("\r\nConnection: close\r\n\r\n");
    out.append(body.as_str());
    out
}

} // verus!
