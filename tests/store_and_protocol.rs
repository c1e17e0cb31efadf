use std::sync::Mutex;

use kv_gate::{
    frame_response, page_of, parse_captures, parse_value, status_line, DataModel,
    DatabaseCommand, DatabaseController, DatabaseValue, Manager, Page, ParseError, ParseResult,
    ProcessingResult, RequestParsedValue, RequestParser,
};

fn run(manager: &Manager, db: &mut DatabaseController, body: &str) -> ProcessingResult {
    let request = format!("POST / HTTP/1.1\r\nHost: x\r\n\r\n{}", body);
    manager.process_request(db, request.as_bytes())
}

fn str_value(v: &Option<RequestParsedValue>) -> Option<String> {
    match v {
        Some(RequestParsedValue::Str(s)) => Some(s.clone()),
        _ => None,
    }
}

#[test]
fn set_then_get_returns_value() {
    let manager = Manager::new(RequestParser::new());
    let mut db = DatabaseController::new();
    let r = run(&manager, &mut db, r#"{"request": "SET", "key": "a", "value": "hello"}"#);
    assert_eq!(r.command.as_deref(), Some("SET"));
    assert!(r.error.is_none());
    assert!(r.value.is_none());
    let r = run(&manager, &mut db, r#"{"request": "GET", "key": "a"}"#);
    assert_eq!(r.command.as_deref(), Some("GET"));
    assert_eq!(str_value(&r.value).as_deref(), Some("hello"));
    assert!(r.error.is_none());
}

#[test]
fn update_without_prior_key_then_get() {
    let manager = Manager::new(RequestParser::new());
    let mut db = DatabaseController::new();
    let r = run(&manager, &mut db, r#"{"request": "UPDATE", "key": "n", "value": 42}"#);
    assert!(r.error.is_none());
    let r = run(&manager, &mut db, r#"{"request": "GET", "key": "n"}"#);
    assert!(matches!(r.value, Some(RequestParsedValue::Integer(42))));
    let r = run(&manager, &mut db, r#"{"request": "UPDATE", "key": "n", "value": -7}"#);
    assert!(r.error.is_none());
    let r = run(&manager, &mut db, r#"{"request": "GET", "key": "n"}"#);
    assert!(matches!(r.value, Some(RequestParsedValue::Integer(-7))));
}

#[test]
fn delete_absent_then_present() {
    let manager = Manager::new(RequestParser::new());
    let mut db = DatabaseController::new();
    let r = run(&manager, &mut db, r#"{"request": "DELETE", "key": "k"}"#);
    assert!(r.value.is_none());
    assert!(r.error.is_none());
    run(&manager, &mut db, r#"{"request": "SET", "key": "k", "value": "v"}"#);
    let r = run(&manager, &mut db, r#"{"request": "DELETE", "key": "k"}"#);
    assert_eq!(str_value(&r.value).as_deref(), Some("v"));
    let r = run(&manager, &mut db, r#"{"request": "GET", "key": "k"}"#);
    assert!(r.value.is_none());
    assert!(r.error.is_none());
}

#[test]
fn get_of_missing_key_is_no_value() {
    let manager = Manager::new(RequestParser::new());
    let mut db = DatabaseController::new();
    let r = run(&manager, &mut db, r#"{"request": "GET", "key": "nothing"}"#);
    assert_eq!(r.command.as_deref(), Some("GET"));
    assert!(r.value.is_none());
    assert!(r.error.is_none());
    assert_eq!(page_of(&r), Page::Success);
}

#[test]
fn parse_set_with_string_value() {
    let parser = RequestParser::new();
    let r = parser.parse_request(
        "POST / HTTP/1.1\r\n\r\n{\"request\": \"SET\", \"key\": \"a\", \"value\": \"hello\"}".to_string(),
    );
    match r {
        ParseResult::Parsed { command, key, value } => {
            assert_eq!(command, "SET");
            assert_eq!(key, "a");
            assert_eq!(str_value(&value).as_deref(), Some("hello"));
        }
        other => panic!("unexpected {:?}", other),
    }
}

#[test]
fn parse_get_without_value() {
    let parser = RequestParser::new();
    let r = parser.parse_request("POST / HTTP/1.1\r\n\r\n{\"request\": \"GET\", \"key\": \"a\"}".to_string());
    match r {
        ParseResult::Parsed { command, key, value } => {
            assert_eq!(command, "GET");
            assert_eq!(key, "a");
            assert!(value.is_none());
        }
        other => panic!("unexpected {:?}", other),
    }
}

#[test]
fn classify_integer_float_and_string() {
    assert!(matches!(parse_value(&"5".to_string()), Ok(RequestParsedValue::Integer(5))));
    match parse_value(&"5.5".to_string()) {
        Ok(RequestParsedValue::Float(f)) => assert_eq!(f.parse::<f64>().unwrap(), 5.5),
        other => panic!("unexpected {:?}", other),
    }
    match parse_value(&"\"5\"".to_string()) {
        Ok(RequestParsedValue::Str(s)) => assert_eq!(s, "5"),
        other => panic!("unexpected {:?}", other),
    }
}

#[test]
fn classify_edge_literals() {
    assert!(matches!(parse_value(&"+12".to_string()), Ok(RequestParsedValue::Integer(12))));
    assert!(matches!(parse_value(&"-2147483648".to_string()), Ok(RequestParsedValue::Integer(i32::MIN))));
    for f in ["2147483648", "1e3", "-.5", "5.", "INF", "-infinity", "NaN", "2E-3"] {
        match parse_value(&f.to_string()) {
            Ok(RequestParsedValue::Float(s)) => {
                assert_eq!(s, f);
                assert!(s.parse::<f64>().is_ok());
            }
            other => panic!("{} gave {:?}", f, other),
        }
    }
    for bad in ["abc", ".", "1e", "e5", "+", "--1", "\"", "5 ", "1.2.3", "infin"] {
        match parse_value(&bad.to_string()) {
            Err(ParseError::UnparsableValue(raw)) => {
                assert_eq!(raw, bad);
                assert!(bad.parse::<f64>().is_err());
            }
            other => panic!("{} gave {:?}", bad, other),
        }
    }
    match parse_value(&"\"\"".to_string()) {
        Ok(RequestParsedValue::Str(s)) => assert_eq!(s, ""),
        other => panic!("unexpected {:?}", other),
    }
}

#[test]
fn empty_body_is_a_bad_request() {
    let manager = Manager::new(RequestParser::new());
    let mut db = DatabaseController::new();
    let r = run(&manager, &mut db, "");
    assert!(r.command.is_none());
    assert_eq!(r.error.as_deref(), Some("Empty body!"));
    assert_eq!(page_of(&r), Page::BadRequest);
    assert_eq!(status_line(page_of(&r)), "HTTP/1.1 400 BAD REQUEST");
}

#[test]
fn unknown_command_is_a_bad_request() {
    let manager = Manager::new(RequestParser::new());
    let mut db = DatabaseController::new();
    let r = run(&manager, &mut db, r#"{"request": "FOO", "key": "a", "value": 1}"#);
    assert_eq!(r.command.as_deref(), Some("FOO"));
    assert!(r.error.as_deref().unwrap().contains("Command not found"));
    assert_eq!(page_of(&r), Page::BadRequest);
    let r = run(&manager, &mut db, r#"{"request": "GET", "key": "a"}"#);
    assert!(r.value.is_none());
}

#[test]
fn index_request_ignores_body() {
    let manager = Manager::new(RequestParser::new());
    let mut db = DatabaseController::new();
    for body in ["", "garbage", r#"{"request": "SET", "key": "a", "value": 1}"#] {
        let request = format!("GET / HTTP/1.1\r\nHost: x\r\n\r\n{}", body);
        let r = manager.process_request(&mut db, request.as_bytes());
        assert!(r.skipped());
        assert_eq!(page_of(&r), Page::Index);
        assert_eq!(status_line(page_of(&r)), "HTTP/1.1 200 OK");
    }
    let r = run(&manager, &mut db, r#"{"request": "GET", "key": "a"}"#);
    assert!(r.value.is_none());
}

#[test]
fn distinct_keys_keep_their_values() {
    let manager = Manager::new(RequestParser::new());
    let db = Mutex::new(DatabaseController::new());
    let n = 16;
    for i in 0..n {
        let body = format!(r#"{{"request": "SET", "key": "k{}", "value": {}}}"#, i, i * 10);
        let r = run(&manager, &mut db.lock().unwrap(), &body);
        assert!(r.error.is_none());
    }
    for i in (0..n).rev() {
        let body = format!(r#"{{"request": "GET", "key": "k{}"}}"#, i);
        let r = run(&manager, &mut db.lock().unwrap(), &body);
        match r.value {
            Some(RequestParsedValue::Integer(v)) => assert_eq!(v, i * 10),
            other => panic!("unexpected {:?}", other),
        }
    }
}

#[test]
fn missing_separator_is_malformed() {
    let manager = Manager::new(RequestParser::new());
    let mut db = DatabaseController::new();
    let r = manager.process_request(&mut db, b"POST / HTTP/1.1\r\n{\"request\": \"GET\", \"key\": \"a\"}");
    assert!(r.error.is_some());
    assert!(r.command.is_none());
    assert_eq!(page_of(&r), Page::BadRequest);
}

#[test]
fn body_not_matching_is_invalid_format() {
    let manager = Manager::new(RequestParser::new());
    let mut db = DatabaseController::new();
    let r = run(&manager, &mut db, r#"{"key": "a", "request": "GET"}"#);
    assert_eq!(r.error.as_deref(), Some("Invalid body format!"));
}

#[test]
fn body_is_trimmed_before_matching() {
    let manager = Manager::new(RequestParser::new());
    let mut db = DatabaseController::new();
    let r = run(&manager, &mut db, " \n {\"request\": \"SET\", \"key\": \"t\", \"value\": \"x\"} \n");
    assert!(r.error.is_none());
    let r = run(&manager, &mut db, r#"{"request": "GET", "key": "t"}"#);
    assert_eq!(str_value(&r.value).as_deref(), Some("x"));
}

#[test]
fn unparsable_value_names_raw_text() {
    let manager = Manager::new(RequestParser::new());
    let mut db = DatabaseController::new();
    let r = run(&manager, &mut db, r#"{"request": "SET", "key": "a", "value": abc}"#);
    assert_eq!(r.error.as_deref(), Some("Wrong raw_value type: abc"));
    let r = run(&manager, &mut db, r#"{"request": "SET", "key": "a", "value": 5 }"#);
    assert_eq!(r.error.as_deref(), Some("Wrong raw_value type: 5 "));
}

#[test]
fn write_without_value_is_refused() {
    let manager = Manager::new(RequestParser::new());
    let mut db = DatabaseController::new();
    for cmd in ["SET", "UPDATE"] {
        let body = format!(r#"{{"request": "{}", "key": "a"}}"#, cmd);
        let r = run(&manager, &mut db, &body);
        assert_eq!(r.command.as_deref(), Some(cmd));
        assert_eq!(r.error.as_deref(), Some("Not found value to create"));
    }
    let r = run(&manager, &mut db, r#"{"request": "GET", "key": "a"}"#);
    assert!(r.value.is_none());
}

#[test]
fn invalid_utf8_is_replaced() {
    let manager = Manager::new(RequestParser::new());
    let mut db = DatabaseController::new();
    let mut request = b"POST / HTTP/1.1\r\n\r\n{\"request\": \"SET\", \"key\": \"".to_vec();
    request.push(0xff);
    request.extend_from_slice(b"\", \"value\": 1}");
    let r = manager.process_request(&mut db, &request);
    assert!(r.error.is_none());
    let r = run(&manager, &mut db, "{\"request\": \"GET\", \"key\": \"\u{FFFD}\"}");
    assert!(matches!(r.value, Some(RequestParsedValue::Integer(1))));
}

#[test]
fn separate_splits_at_first_blank_line() {
    let (h, b) = RequestParser::separate("A\r\nB\r\n\r\nbody\r\n\r\nmore".to_string()).unwrap();
    assert_eq!(h, "A\r\nB");
    assert_eq!(b, "body\r\n\r\nmore");
    assert!(RequestParser::separate("no blank line".to_string()).is_none());
}

#[test]
fn extract_headers_splits_lines() {
    let lines = RequestParser::extract_headers("GET / HTTP/1.1\r\nHost: x\n".to_string());
    assert_eq!(lines, vec!["GET / HTTP/1.1\r".to_string(), "Host: x".to_string(), String::new()]);
}

#[test]
fn captures_are_read_in_order() {
    let caps = Some(vec![
        Some("whole".to_string()),
        Some("DELETE".to_string()),
        Some("key".to_string()),
        Some("1.5".to_string()),
    ]);
    let b = parse_captures(caps).unwrap();
    assert_eq!(b.command, "DELETE");
    assert_eq!(b.key, "key");
    assert!(matches!(b.value, Some(RequestParsedValue::Float(ref s)) if s == "1.5"));
    assert!(matches!(parse_captures(None), Err(ParseError::FormatMismatch)));
    assert!(matches!(parse_captures(Some(vec![None, None, None, None])), Err(ParseError::FormatMismatch)));
}

#[test]
fn store_operations_directly() {
    let mut db = DatabaseController::new();
    let r = db.handle_command(DatabaseCommand::SET, DataModel::new("x".to_string(), Some(DatabaseValue::Float("2.5".to_string()))));
    assert!(r.err.is_none());
    let r = db.handle_command(DatabaseCommand::GET, DataModel::new("x".to_string(), None));
    assert!(matches!(r.value, Some(DatabaseValue::Float(ref s)) if s == "2.5"));
    let r = db.handle_command(DatabaseCommand::UPDATE, DataModel::new("x".to_string(), None));
    assert_eq!(r.err.as_deref(), Some("Not found value to create"));
    let r = db.handle_command(DatabaseCommand::DELETE, DataModel::new("x".to_string(), None));
    assert!(matches!(r.value, Some(DatabaseValue::Float(_))));
    assert!(db.get(&"x".to_string()).is_none());
}

#[test]
fn response_framing_counts_bytes() {
    let r = frame_response(&"HTTP/1.1 200 OK".to_string(), &"h\u{e9}llo".to_string());
    assert_eq!(r, "HTTP/1.1 200 OK\r\nContent-Length: 6\r\nContent-Type: text/html;\r\n\r\nh\u{e9}llo");
    let r = frame_response(&"HTTP/1.1 400 BAD REQUEST".to_string(), &String::new());
    assert_eq!(r, "HTTP/1.1 400 BAD REQUEST\r\nContent-Length: 0\r\nContent-Type: text/html;\r\n\r\n");
    let body = "x".repeat(1234);
    assert!(frame_response(&"S".to_string(), &body).contains("Content-Length: 1234\r\n"));
}
