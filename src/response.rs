use vstd::prelude::*;

use crate::manager::{ProcessingModel, ProcessingResult};
use crate::text::string_of;
use vstd::utf8::encode_utf8;

verus! {

/// The three kinds of response.
#[derive(PartialEq, Eq, Structural, Clone, Copy, Debug)]
pub enum Page {
    Index,
    Success,
    BadRequest,
}

/// Which page answers a result: the index where there is neither a command
/// nor an error, a bad request where there is an error, else success.
pub open spec fn page_for(p: ProcessingModel) -> Page {
    if p.command is None && p.error is None {
        Page::Index
    } else if p.error is Some {
        Page::BadRequest
    } else {
        Page::Success
    }
}

pub open spec fn status_text(page: Page) -> Seq<char> {
    match page {
        Page::BadRequest => "HTTP/1.1 400 BAD REQUEST"@,
        _ => "HTTP/1.1 200 OK"@,
    }
}

pub open spec fn digit_char(d: nat) -> char {
    if d == 0 {
        '0'
    } else if d == 1 {
        '1'
    } else if d == 2 {
        '2'
    } else if d == 3 {
        '3'
    } else if d == 4 {
        '4'
    } else if d == 5 {
        '5'
    } else if d == 6 {
        '6'
    } else if d == 7 {
        '7'
    } else if d == 8 {
        '8'
    } else {
        '9'
    }
}

/// The decimal digits of `n`, most significant first, without leading zeros.
pub open spec fn decimal(n: nat) -> Seq<char>
    decreases n,
{
    if n < 10 {
        seq![digit_char(n)]
    } else {
        decimal(n / 10).push(digit_char(n % 10))
    }
}

/// A complete response: status line, length and type headers, a blank line,
/// then the body; the length counts the bytes of the body in UTF-8.
pub open spec fn framed(status: Seq<char>, body_len: nat, body: Seq<char>) -> Seq<char> {
    status + "\r\nContent-Length: "@ + decimal(body_len) + "\r\nContent-Type: text/html;\r\n\r\n"@
        + body
}

fn push_decimal(n: usize, out: &mut Vec<char>)
    ensures
        final(out)@ == old(out)@ + decimal(n as nat),
    decreases n,
{
    if n >= 10 {
        push_decimal(n / 10, out);
    }
    let d = n % 10;
    let c = if d == 0 {
        '0'
    } else if d == 1 {
        '1'
    } else if d == 2 {
        '2'
    } else if d == 3 {
        '3'
    } else if d == 4 {
        '4'
    } else if d == 5 {
        '5'
    } else if d == 6 {
        '6'
    } else if d == 7 {
        '7'
    } else if d == 8 {
        '8'
    } else {
        '9'
    };
    out.push(c);
    assert(final(out)@ =~= old(out)@ + decimal(n as nat));
}

/// The page that answers a result.
pub fn page_of(result: &ProcessingResult) -> (r: Page)
    ensures
        r == page_for(result@),
{
    if result.skipped() {
        Page::Index
    } else if result.error.is_some() {
        Page::BadRequest
    } else {
        Page::Success
    }
}

/// The status line of a page.
pub fn status_line(page: Page) -> (r: String)
    ensures
        r@ == status_text(page),
{
    match page {
        Page::BadRequest => "HTTP/1.1 400 BAD REQUEST".to_owned(),
        _ => "HTTP/1.1 200 OK".to_owned(),
    }
}

/// The full text of a response with this status line and body.
pub fn frame_response(status: &String, body: &String) -> (r: String)
    ensures
        r@ == framed(status@, (encode_utf8(body@).len() as usize) as nat, body@),
{
    let mut digits: Vec<char> = Vec::new();
    let n = body.as_str().len();
    push_decimal(n, &mut digits);
    assert(digits@ =~= decimal(n as nat));
    let mut text = status.clone();
    text.append("\r\nContent-Length: ");
    text.append(string_of(&digits).as_str());
    text.append("\r\nContent-Type: text/html;\r\n\r\n");
    text.append(body.as_str());
    text
}

} // verus!
