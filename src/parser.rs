use vstd::prelude::*;

use crate::literal::{float_literal, i32_literal, int_literal, is_float_literal};
use crate::model::ValueModel;
use crate::text::{
    chars_of, contains_seq, find_first, first_occurrence, lemma_split_on_nonempty, split_chars,
    split_on, string_of, sub_chars,
};

verus! {

/// A value as a request carries it.
#[derive(Debug)]
pub enum RequestParsedValue {
    Integer(i32),
    /// A floating-point value, held as its decimal literal.
    Float(String),
    Str(String),
}

impl View for RequestParsedValue {
    type V = ValueModel;

    open spec fn view(&self) -> ValueModel {
        match self {
            RequestParsedValue::Integer(i) => ValueModel::Integer(*i),
            RequestParsedValue::Float(f) => ValueModel::Float(f@),
            RequestParsedValue::Str(s) => ValueModel::Str(s@),
        }
    }
}

/// The view of an optional request value.
pub open spec fn req_opt_view(v: Option<RequestParsedValue>) -> Option<ValueModel> {
    match v {
        Some(x) => Some(x@),
        None => None,
    }
}

/// Why a request could not be read.
#[derive(Debug)]
pub enum ParseError {
    /// The body after the blank line is empty.
    EmptyBody,
    /// No blank line separates the headers from the body.
    MalformedEnvelope,
    /// The body is not of the form the protocol asks for.
    FormatMismatch,
    /// The raw text of the value is neither a string, an integer nor a float.
    UnparsableValue(String),
}

pub enum ParseErrorModel {
    EmptyBody,
    MalformedEnvelope,
    FormatMismatch,
    UnparsableValue(Seq<char>),
}

impl View for ParseError {
    type V = ParseErrorModel;

    open spec fn view(&self) -> ParseErrorModel {
        match self {
            ParseError::EmptyBody => ParseErrorModel::EmptyBody,
            ParseError::MalformedEnvelope => ParseErrorModel::MalformedEnvelope,
            ParseError::FormatMismatch => ParseErrorModel::FormatMismatch,
            ParseError::UnparsableValue(raw) => ParseErrorModel::UnparsableValue(raw@),
        }
    }
}

/// The text that describes a parse error.
pub open spec fn parse_error_text(e: ParseErrorModel) -> Seq<char> {
    match e {
        ParseErrorModel::EmptyBody => "Empty body!"@,
        ParseErrorModel::MalformedEnvelope => "Malformed request: no blank line after the headers"@,
        ParseErrorModel::FormatMismatch => "Invalid body format!"@,
        ParseErrorModel::UnparsableValue(raw) => "Wrong raw_value type: "@ + raw,
    }
}

impl ParseError {
    pub fn description(&self) -> (r: String)
        ensures
            r@ == parse_error_text(self@),
    {
        match self {
            ParseError::EmptyBody => "Empty body!".to_owned(),
            ParseError::MalformedEnvelope => "Malformed request: no blank line after the headers".to_owned(),
            ParseError::FormatMismatch => "Invalid body format!".to_owned(),
            ParseError::UnparsableValue(raw) => {
                let mut text = "Wrong raw_value type: ".to_owned();
                text.append(raw.as_str());
                text
            },
        }
    }
}

/// What the raw text of a value stands for: a string between double quotes,
/// else an `i32`, else a float literal; `None` where it is none of these.
pub open spec fn classify(raw: Seq<char>) -> Option<ValueModel> {
    if raw.len() >= 2 && raw[0] == '"' && raw.last() == '"' {
        Some(ValueModel::Str(raw.subrange(1, raw.len() - 1)))
    } else if i32_literal(raw) is Some {
        Some(ValueModel::Integer(i32_literal(raw)->0))
    } else if is_float_literal(raw) {
        Some(ValueModel::Float(raw))
    } else {
        None
    }
}

/// Reads the raw text of a value.
pub fn parse_value(raw: &String) -> (r: Result<RequestParsedValue, ParseError>)
    ensures
        match r {
            Ok(v) => classify(raw@) == Some(v@),
            Err(e) => classify(raw@) is None && e@ == ParseErrorModel::UnparsableValue(raw@),
        },
{
    let chars = chars_of(raw.as_str());
    let n = chars.len();
    if n >= 2 && chars[0] == '"' && chars[n - 1] == '"' {
        let inner = sub_chars(&chars, 1, n - 1);
        return Ok(RequestParsedValue::Str(string_of(&inner)));
    }
    if let Some(i) = int_literal(raw) {
        return Ok(RequestParsedValue::Integer(i));
    }
    if float_literal(&chars) {
        Ok(RequestParsedValue::Float(raw.clone()))
    } else {
        Err(ParseError::UnparsableValue(raw.clone()))
    }
}

/// The command, key and value that a well-formed body carries.
pub struct ParsedBody {
    pub command: String,
    pub key: String,
    pub value: Option<RequestParsedValue>,
}

/// The view of what a pattern match hands back: each group's text, if it took part.
pub open spec fn captures_view(c: Option<Vec<Option<String>>>) -> Option<Seq<Option<Seq<char>>>> {
    match c {
        Some(v) => Some(
            v@.map_values(
                |g: Option<String>|
                    match g {
                        Some(s) => Some(s@),
                        None => None,
                    },
            ),
        ),
        None => None,
    }
}

/// What a body says, given the groups that the body pattern captured in it:
/// group 1 is the command, group 2 the key, group 3 the raw value.
pub open spec fn captures_outcome(caps: Option<Seq<Option<Seq<char>>>>) -> Result<
    (Seq<char>, Seq<char>, Option<ValueModel>),
    ParseErrorModel,
> {
    match caps {
        None => Err(ParseErrorModel::FormatMismatch),
        Some(g) => if g.len() < 4 || g[1] is None || g[2] is None {
            Err(ParseErrorModel::FormatMismatch)
        } else {
            match g[3] {
                None => Ok((g[1]->0, g[2]->0, None)),
                Some(raw) => match classify(raw) {
                    Some(v) => Ok((g[1]->0, g[2]->0, Some(v))),
                    None => Err(ParseErrorModel::UnparsableValue(raw)),
                },
            }
        },
    }
}

pub open spec fn body_view(b: ParsedBody) -> (Seq<char>, Seq<char>, Option<ValueModel>) {
    (b.command@, b.key@, req_opt_view(b.value))
}

pub open spec fn body_result_view(r: Result<ParsedBody, ParseError>) -> Result<
    (Seq<char>, Seq<char>, Option<ValueModel>),
    ParseErrorModel,
> {
    match r {
        Ok(b) => Ok(body_view(b)),
        Err(e) => Err(e@),
    }
}

/// Reads a body from the groups that the body pattern captured in it.
pub fn parse_captures(caps: Option<Vec<Option<String>>>) -> (r: Result<ParsedBody, ParseError>)
    ensures
        body_result_view(r) == captures_outcome(captures_view(caps)),
{
    let ghost cv = captures_view(caps);
    match caps {
        None => Err(ParseError::FormatMismatch),
        Some(groups) => {
            if groups.len() < 4 {
                return Err(ParseError::FormatMismatch);
            }
            assert(cv->0[1] == match groups@[1] { Some(s) => Some(s@), None => None });
            assert(cv->0[2] == match groups@[2] { Some(s) => Some(s@), None => None });
            assert(cv->0[3] == match groups@[3] { Some(s) => Some(s@), None => None });
            let command = match &groups[1] {
                Some(c) => c.clone(),
                None => return Err(ParseError::FormatMismatch),
            };
            let key = match &groups[2] {
                Some(k) => k.clone(),
                None => return Err(ParseError::FormatMismatch),
            };
            let value = match &groups[3] {
                Some(raw) => match parse_value(raw) {
                    Ok(v) => Some(v),
                    Err(e) => return Err(e),
                },
                None => None,
            };
            Ok(ParsedBody { command, key, value })
        },
    }
}

/// The pattern that a body must match, from its start.
pub const BODY_PATTERN: &'static str = r#"^\{\s*"request":\s*"([^"]*)",\s*"key":\s*"([^"]*)"(?:,\s*"value":\s*([^}]*))?}"#;

/// The groups that the regular expression `pattern` captures at its leftmost
/// match in `text`, or `None` where the pattern does not compile or does not match.
pub uninterp spec fn regex_captures(pattern: Seq<char>, text: Seq<char>) -> Option<
    Seq<Option<Seq<char>>>,
>;

/// `s` without its leading and trailing white space.
pub uninterp spec fn trimmed(s: Seq<char>) -> Seq<char>;

/// Relies on `regex::Regex::new` and `regex::Regex::captures`: compiles
/// `pattern` and hands back, for its leftmost-first match in `text`, the text
/// of every group in order (group 0 first), or `None` where it does not match.
#[verifier::external_body]
fn find_captures(pattern: &str, text: &str) -> (r: Option<Vec<Option<String>>>)
    ensures
        captures_view(r) == regex_captures(pattern@, text@),
{
    match regex::Regex::new(pattern) {
        Ok(re) => re.captures(text).map(
            |c| c.iter().map(|g| g.map(|m| m.as_str().to_string())).collect(),
        ),
        Err(_) => None,
    }
}

/// Relies on `str::trim`: removes leading and trailing white space.
#[verifier::external_body]
fn trim_text(s: &str) -> (r: String)
    ensures
        r@ == trimmed(s@),
{
    s.trim().to_string()
}

/// What a body says: an error where it is empty, else what the body pattern
/// captures in its trimmed text.
pub open spec fn body_outcome(body: Seq<char>) -> Result<
    (Seq<char>, Seq<char>, Option<ValueModel>),
    ParseErrorModel,
> {
    if body.len() == 0 {
        Err(ParseErrorModel::EmptyBody)
    } else {
        captures_outcome(regex_captures(BODY_PATTERN@, trimmed(body)))
    }
}

/// The outcome of reading one request.
#[derive(Debug)]
pub enum ParseResult {
    /// An index request: there is no command to run.
    Skip,
    Parsed { command: String, key: String, value: Option<RequestParsedValue> },
    Error(ParseError),
}

pub enum ParseModel {
    Skip,
    Parsed(Seq<char>, Seq<char>, Option<ValueModel>),
    Error(ParseErrorModel),
}

impl View for ParseResult {
    type V = ParseModel;

    open spec fn view(&self) -> ParseModel {
        match self {
            ParseResult::Skip => ParseModel::Skip,
            ParseResult::Parsed { command, key, value } => ParseModel::Parsed(
                command@,
                key@,
                req_opt_view(*value),
            ),
            ParseResult::Error(e) => ParseModel::Error(e@),
        }
    }
}

/// The separator between the headers and the body.
pub open spec fn blank_line() -> Seq<char> {
    "\r\n\r\n"@
}

/// The text whose presence in the first header line marks an index request.
pub open spec fn index_marker() -> Seq<char> {
    "GET /"@
}

/// Headers and body of a request, split at the first blank line.
pub open spec fn envelope(req: Seq<char>) -> Option<(Seq<char>, Seq<char>)> {
    if contains_seq(req, blank_line()) {
        let i = choose|i: int| first_occurrence(req, blank_line(), i);
        Some((req.take(i), req.skip(i + blank_line().len())))
    } else {
        None
    }
}

/// What a request says.
pub open spec fn request_outcome(req: Seq<char>) -> ParseModel {
    match envelope(req) {
        None => ParseModel::Error(ParseErrorModel::MalformedEnvelope),
        Some((headers, body)) => if contains_seq(split_on(headers, '\n')[0], index_marker()) {
            ParseModel::Skip
        } else {
            match body_outcome(body) {
                Ok((c, k, v)) => ParseModel::Parsed(c, k, v),
                Err(e) => ParseModel::Error(e),
            }
        },
    }
}

/// Reads requests.
pub struct RequestParser {}

impl RequestParser {
    pub fn new() -> (r: Self) {
        RequestParser {  }
    }

    /// Splits a request into its headers and its body at the first blank line.
    pub fn separate(request: String) -> (r: Option<(String, String)>)
        ensures
            match r {
                Some((h, b)) => envelope(request@) == Some((h@, b@)),
                None => envelope(request@) is None,
            },
    {
        let chars = chars_of(request.as_str());
        let sep = chars_of("\r\n\r\n");
        match find_first(&chars, &sep) {
            None => None,
            Some(i) => {
                let ghost j = choose|j: int| first_occurrence(request@, blank_line(), j);
                assert(j == i as int) by {
                    if j < i {
                    }
                    if i < j {
                    }
                }
                let headers = sub_chars(&chars, 0, i);
                let n = chars.len();
                assert(i + sep@.len() <= n);
                let body = sub_chars(&chars, i + sep.len(), n);
                assert(headers@ =~= request@.take(i as int));
                assert(body@ =~= request@.skip(i + blank_line().len()));
                Some((string_of(&headers), string_of(&body)))
            },
        }
    }

    /// The lines of a header block.
    pub fn extract_headers(headers_block: String) -> (r: Vec<String>)
        ensures
            r@.len() == split_on(headers_block@, '\n').len(),
            forall|j: int| 0 <= j < r@.len() ==> #[trigger] r@[j]@ == split_on(headers_block@, '\n')[j],
    {
        let chars = chars_of(headers_block.as_str());
        let lines = split_chars(&chars, '\n');
        let mut out: Vec<String> = Vec::new();
        let mut i: usize = 0;
        while i < lines.len()
            invariant
                i <= lines@.len(),
                out@.len() == i,
                lines@.len() == split_on(headers_block@, '\n').len(),
                forall|j: int| 0 <= j < lines@.len() ==> #[trigger] lines@[j]@ == split_on(headers_block@, '\n')[j],
                forall|j: int| 0 <= j < i ==> #[trigger] out@[j]@ == split_on(headers_block@, '\n')[j],
            decreases lines@.len() - i,
        {
            out.push(string_of(&lines[i]));
            i += 1;
        }
        out
    }

    /// Reads a body: checks that it is not empty, then matches its trimmed
    /// text against the body pattern.
    pub fn extract_body(body_block: String) -> (r: Result<ParsedBody, ParseError>)
        ensures
            body_result_view(r) == body_outcome(body_block@),
    {
        if body_block.as_str().is_empty() {
            return Err(ParseError::EmptyBody);
        }
        let trimmed_body = trim_text(body_block.as_str());
        let caps = find_captures(BODY_PATTERN, trimmed_body.as_str());
        parse_captures(caps)
    }

    /// Reads one request.
    pub fn parse_request(&self, request: String) -> (r: ParseResult)
        ensures
            r@ == request_outcome(request@),
    {
        let (headers, body) = match Self::separate(request) {
            Some(parts) => parts,
            None => return ParseResult::Error(ParseError::MalformedEnvelope),
        };
        let parsed_headers = Self::extract_headers(headers);
        proof {
            lemma_split_on_nonempty(headers@, '\n');
        }
        let first = chars_of(parsed_headers[0].as_str());
        let marker = chars_of("GET /");
        if find_first(&first, &marker).is_some() {
            return ParseResult::Skip;
        }
        match Self::extract_body(body) {
            Ok(b) => ParseResult::Parsed { command: b.command, key: b.key, value: b.value },
            Err(e) => ParseResult::Error(e),
        }
    }
}

} // verus!
