//! A small key-value store served over a text protocol: the store, the wire
//! parser, the command dispatcher and the choice of response.

mod controller;
mod laws;
mod literal;
mod manager;
mod model;
mod parser;
mod response;
mod text;

pub use controller::{DatabaseController, command_answer, command_effect, missing_value_text};
pub use laws::{
    Store, after_sets, law_delete_absent, law_delete_present, law_distinct_writes, law_empty_body,
    law_index_request, law_set_then_get, law_unknown_command, law_update_then_get,
};
pub use literal::{
    digits_value, float_literal, i32_literal, int_literal, int_literal_value, is_digits,
    is_float_literal, is_mantissa, is_number, is_special,
};
pub use manager::{
    DispatchError, Manager, ProcessingModel, ProcessingResult, Route, command_of,
    dispatch_error_text, dispatch_outcome, str_opt_view, unknown_command_text, utf8_lossy,
};
pub use model::{DataModel, DatabaseCommand, DatabaseResult, DatabaseValue, ValueModel, db_opt_view};
pub use parser::{
    BODY_PATTERN, ParseError, ParseErrorModel, ParseModel, ParseResult, ParsedBody,
    RequestParsedValue, RequestParser, blank_line, body_outcome, body_result_view, body_view,
    captures_outcome, captures_view, classify, envelope, index_marker, parse_captures,
    parse_error_text, parse_value, regex_captures, req_opt_view, request_outcome, trimmed,
};
pub use response::{
    Page, decimal, digit_char, frame_response, framed, page_for, page_of, status_line, status_text,
};
pub use text::{contains_seq, first_occurrence, lemma_split_on_nonempty, occurs_at, split_on};
