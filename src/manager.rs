use vstd::prelude::*;

use crate::controller::{command_answer, command_effect, missing_value_text, DatabaseController};
use crate::model::{db_opt_view, DataModel, DatabaseCommand, DatabaseResult, DatabaseValue, ValueModel};
use crate::parser::{
    parse_error_text, req_opt_view, request_outcome, ParseModel, ParseResult, RequestParsedValue,
    RequestParser,
};

verus! {

/// What a request came to: the command it named, the value the store gave
/// back, and the error that stopped it, each if any.
#[derive(Debug)]
pub struct ProcessingResult {
    pub command: Option<String>,
    pub value: Option<RequestParsedValue>,
    pub error: Option<String>,
}

pub struct ProcessingModel {
    pub command: Option<Seq<char>>,
    pub value: Option<ValueModel>,
    pub error: Option<Seq<char>>,
}

pub open spec fn str_opt_view(s: Option<String>) -> Option<Seq<char>> {
    match s {
        Some(x) => Some(x@),
        None => None,
    }
}

impl View for ProcessingResult {
    type V = ProcessingModel;

    open spec fn view(&self) -> ProcessingModel {
        ProcessingModel {
            command: str_opt_view(self.command),
            value: req_opt_view(self.value),
            error: str_opt_view(self.error),
        }
    }
}

impl ProcessingResult {
    /// An index request: neither a command nor an error.
    pub fn skipped(&self) -> (r: bool)
        ensures
            r == (self.command is None && self.error is None),
    {
        self.command.is_none() && self.error.is_none()
    }
}

/// Why a parsed request could not be carried out.
#[derive(Debug)]
pub enum DispatchError {
    /// The command text names no command.
    UnknownCommand,
    /// SET or UPDATE came without a value.
    MissingValueForWrite,
}

pub open spec fn unknown_command_text() -> Seq<char> {
    "Command not found"@
}

/// The text that describes a dispatch error.
pub open spec fn dispatch_error_text(e: DispatchError) -> Seq<char> {
    match e {
        DispatchError::UnknownCommand => unknown_command_text(),
        DispatchError::MissingValueForWrite => missing_value_text(),
    }
}

impl DispatchError {
    pub fn description(&self) -> (r: String)
        ensures
            r@ == dispatch_error_text(*self),
    {
        match self {
            DispatchError::UnknownCommand => "Command not found".to_owned(),
            DispatchError::MissingValueForWrite => "Not found value to create".to_owned(),
        }
    }
}

/// The command that a command text names, matched exactly.
pub open spec fn command_of(text: Seq<char>) -> Option<DatabaseCommand> {
    if text == "GET"@ {
        Some(DatabaseCommand::GET)
    } else if text == "SET"@ {
        Some(DatabaseCommand::SET)
    } else if text == "UPDATE"@ {
        Some(DatabaseCommand::UPDATE)
    } else if text == "DELETE"@ {
        Some(DatabaseCommand::DELETE)
    } else {
        None
    }
}

/// What a parse outcome comes to on a store with contents `m`, and the
/// contents afterwards.
pub open spec fn dispatch_outcome(m: Map<Seq<char>, ValueModel>, p: ParseModel) -> (
    ProcessingModel,
    Map<Seq<char>, ValueModel>,
) {
    match p {
        ParseModel::Skip => (ProcessingModel { command: None, value: None, error: None }, m),
        ParseModel::Error(e) => (
            ProcessingModel { command: None, value: None, error: Some(parse_error_text(e)) },
            m,
        ),
        ParseModel::Parsed(c, k, v) => match command_of(c) {
            None => (
                ProcessingModel {
                    command: Some(c),
                    value: None,
                    error: Some(unknown_command_text()),
                },
                m,
            ),
            Some(cmd) => (
                ProcessingModel {
                    command: Some(c),
                    value: command_answer(m, cmd, k, v).0,
                    error: if command_answer(m, cmd, k, v).1 {
                        Some(missing_value_text())
                    } else {
                        None
                    },
                },
                command_effect(m, cmd, k, v),
            ),
        },
    }
}

/// The text that a run of bytes decodes to, with each invalid sequence
/// replaced by U+FFFD.
pub uninterp spec fn utf8_lossy(b: Seq<u8>) -> Seq<char>;

/// Relies on `String::from_utf8_lossy`: decodes the bytes as UTF-8, each
/// invalid sequence replaced by U+FFFD.
#[verifier::external_body]
fn decode_lossy(b: &[u8]) -> (r: String)
    ensures
        r@ == utf8_lossy(b@),
{
    String::from_utf8_lossy(b).into_owned()
}

/// What the next step of a request is.
pub enum Route {
    /// The request is answered without the store.
    Reply(ProcessingResult),
    /// The store has to carry out `command` on `data`; `command_text` is echoed back.
    Store { command_text: String, command: DatabaseCommand, data: DataModel },
}

/// Turns requests into store operations and store answers into results.
pub struct Manager {
    parser: RequestParser,
}

impl Manager {
    pub fn new(parser: RequestParser) -> (r: Self) {
        Manager { parser }
    }

    /// The command that a command text names.
    pub fn command_from_text(text: &String) -> (r: Option<DatabaseCommand>)
        ensures
            r == command_of(text@),
    {
        if *text == "GET".to_owned() {
            Some(DatabaseCommand::GET)
        } else if *text == "SET".to_owned() {
            Some(DatabaseCommand::SET)
        } else if *text == "UPDATE".to_owned() {
            Some(DatabaseCommand::UPDATE)
        } else if *text == "DELETE".to_owned() {
            Some(DatabaseCommand::DELETE)
        } else {
            None
        }
    }

    pub fn translate_parsed_value(parsed_value: Option<RequestParsedValue>) -> (r: Option<
        DatabaseValue,
    >)
        ensures
            db_opt_view(r) == req_opt_view(parsed_value),
    {
        match parsed_value {
            Some(RequestParsedValue::Integer(i)) => Some(DatabaseValue::Integer(i)),
            Some(RequestParsedValue::Float(f)) => Some(DatabaseValue::Float(f)),
            Some(RequestParsedValue::Str(s)) => Some(DatabaseValue::Str(s)),
            None => None,
        }
    }

    pub fn translate_db_value(db_value: Option<DatabaseValue>) -> (r: Option<RequestParsedValue>)
        ensures
            req_opt_view(r) == db_opt_view(db_value),
    {
        match db_value {
            Some(DatabaseValue::Integer(i)) => Some(RequestParsedValue::Integer(i)),
            Some(DatabaseValue::Float(f)) => Some(RequestParsedValue::Float(f)),
            Some(DatabaseValue::Str(s)) => Some(RequestParsedValue::Str(s)),
            None => None,
        }
    }

    /// Decodes and reads the bytes of a request.
    pub fn parse(&self, request: &[u8]) -> (r: ParseResult)
        ensures
            r@ == request_outcome(utf8_lossy(request@)),
    {
        self.parser.parse_request(decode_lossy(request))
    }

    /// Decides what a parse outcome needs: an answer at once, or a store operation.
    pub fn route(parse_result: ParseResult) -> (r: Route)
        ensures
            match r {
                Route::Reply(p) => forall|m: Map<Seq<char>, ValueModel>|
                    dispatch_outcome(m, parse_result@) == (#[trigger] p@, m),
                Route::Store { command_text, command, data } => parse_result@ matches ParseModel::Parsed(c, k, v)
                    && command_text@ == c && command_of(c) == Some(command)
                    && data.key_view() == k && data.value_view() == v,
            },
    {
        match parse_result {
            ParseResult::Skip => Route::Reply(ProcessingResult { command: None, value: None, error: None }),
            ParseResult::Error(e) => Route::Reply(
                ProcessingResult { command: None, value: None, error: Some(e.description()) },
            ),
            ParseResult::Parsed { command, key, value } => match Self::command_from_text(&command) {
                None => Route::Reply(
                    ProcessingResult {
                        command: Some(command),
                        value: None,
                        error: Some(DispatchError::UnknownCommand.description()),
                    },
                ),
                Some(cmd) => Route::Store {
                    command_text: command,
                    command: cmd,
                    data: DataModel::new(key, Self::translate_parsed_value(value)),
                },
            },
        }
    }

    /// The result of a request whose command the store carried out.
    pub fn finish(command_text: String, db_response: DatabaseResult) -> (r: ProcessingResult)
        ensures
            r.command == Some(command_text),
            r@.value == db_opt_view(db_response.value),
            r.error == db_response.err,
    {
        ProcessingResult {
            command: Some(command_text),
            value: Self::translate_db_value(db_response.value),
            error: db_response.err,
        }
    }

    /// Carries out a parsed request on the store.
    pub fn handle_parsed(database: &mut DatabaseController, parse_result: ParseResult) -> (r:
        ProcessingResult)
        requires
            old(database).wf(),
        ensures
            final(database).wf(),
            (r@, final(database)@) == dispatch_outcome(old(database)@, parse_result@),
    {
        let ghost p = parse_result@;
        match Self::route(parse_result) {
            Route::Reply(result) => {
                assert(dispatch_outcome(database@, p) == (result@, database@));
                result
            },
            Route::Store { command_text, command, data } => {
                let db_response = database.handle_command(command, data);
                let r = Self::finish(command_text, db_response);
                assert(r@.error == (if command_answer(
                    old(database)@,
                    command,
                    data.key_view(),
                    data.value_view(),
                ).1 {
                    Some(missing_value_text())
                } else {
                    None
                }));
                r
            },
        }
    }

    /// Decodes, reads and carries out one request.
    pub fn process_request(&self, database: &mut DatabaseController, request: &[u8]) -> (r:
        ProcessingResult)
        requires
            old(database).wf(),
        ensures
            final(database).wf(),
            (r@, final(database)@) == dispatch_outcome(
                old(database)@,
                request_outcome(utf8_lossy(request@)),
            ),
    {
        let parse_result = self.parse(request);
        Self::handle_parsed(database, parse_result)
    }
}

} // verus!
