use cozyreq::model::{ExecutionRequest, InputMode, LogEntry, LogEntryType, Model, create_dummy_model};
use cozyreq::view::{details_text, entry_tint, format_request_details, prompt_line, Tint};

#[test]
fn test_format_request_details_complete() {
    let req = ExecutionRequest::new(1, "GET".to_string(), "/api/test".to_string())
        .with_headers(vec![(
            "Content-Type".to_string(),
            "application/json".to_string(),
        )])
        .with_body("test body".to_string())
        .with_response(200, "response body".to_string(), 100);

    let details = format_request_details(&req);

    assert!(details.contains("[1] GET /api/test"));
    assert!(details.contains("Content-Type: application/json"));
    assert!(details.contains("test body"));
    assert!(details.contains("Status: 200 OK"));
    assert!(details.contains("response body"));
}

#[test]
fn test_format_request_details_no_body() {
    let req = ExecutionRequest::new(1, "GET".to_string(), "/api/test".to_string())
        .with_headers(vec![(
            "Content-Type".to_string(),
            "application/json".to_string(),
        )])
        .with_response(200, "response body".to_string(), 100);

    let details = format_request_details(&req);

    assert!(details.contains("[1] GET /api/test"));
    assert!(details.contains("Body: (None)"));
    assert!(details.contains("Status: 200 OK"));
}

#[test]
fn test_format_request_details_no_response() {
    let req = ExecutionRequest::new(1, "POST".to_string(), "/api/test".to_string())
        .with_headers(vec![(
            "Content-Type".to_string(),
            "application/json".to_string(),
        )])
        .with_body("request body".to_string());

    let details = format_request_details(&req);

    assert!(details.contains("[1] POST /api/test"));
    assert!(details.contains("request body"));
    assert!(!details.contains("Status:"));
}

#[test]
fn test_format_request_details_empty_headers() {
    let req = ExecutionRequest::new(1, "GET".to_string(), "/api/test".to_string());

    let details = format_request_details(&req);

    assert!(details.contains("[1] GET /api/test"));
    assert!(details.contains("Headers:"));
    assert!(details.contains("Body: (None)"));
}

#[test]
fn test_format_request_details_multiline_body() {
    let req = ExecutionRequest::new(1, "POST".to_string(), "/api/test".to_string())
        .with_body("{\n  \"key\": \"value\",\n  \"number\": 42\n}".to_string());

    let details = format_request_details(&req);

    assert!(details.contains("{"));
    assert!(details.contains("\"key\": \"value\""));
    assert!(details.contains("\"number\": 42"));
    assert!(details.contains("}"));
}

#[test]
fn test_view_empty_model() {
    let model = Model::new();

    assert_eq!(model.requests.len(), 0);
    assert_eq!(model.log_entries.len(), 0);

    assert!(model.get_selected_request().is_none());
}

#[test]
fn test_log_entry_styling() {
    let user_prompt = LogEntry::new(LogEntryType::UserPrompt, "test".to_string());
    assert_eq!(user_prompt.entry_type, LogEntryType::UserPrompt);

    let planning = LogEntry::new(LogEntryType::Planning, "test".to_string());
    assert_eq!(planning.entry_type, LogEntryType::Planning);

    let discovery = LogEntry::new(LogEntryType::Discovery, "test".to_string());
    assert_eq!(discovery.entry_type, LogEntryType::Discovery);

    let exec_start = LogEntry::new(LogEntryType::ExecutionStart, "test".to_string());
    assert_eq!(exec_start.entry_type, LogEntryType::ExecutionStart);

    let request_exec = LogEntry::new(LogEntryType::RequestExec, "test".to_string());
    assert_eq!(request_exec.entry_type, LogEntryType::RequestExec);

    let request_result = LogEntry::new(LogEntryType::RequestResult, "\u{2713} test".to_string());
    assert_eq!(request_result.entry_type, LogEntryType::RequestResult);
    assert!(request_result.content.contains("\u{2713}"));
}

#[test]
fn test_cursor_position_calculation() {
    let mut model = Model::new();
    model.input_mode = InputMode::Editing;

    model.input = "".to_string();
    assert_eq!(model.input.len(), 0);

    model.input = "hello".to_string();
    assert_eq!(model.input.len(), 5);

    model.input = "hello world".to_string();
    assert_eq!(model.input.len(), 11);
}

#[test]
fn details_are_exact_lines() {
    let req = ExecutionRequest::new(12, "POST".to_string(), "/x".to_string())
        .with_headers(vec![("A".to_string(), "b".to_string())])
        .with_body("l1\r\nl2\n".to_string())
        .with_response(404, "r1\nr2".to_string(), 7);
    assert_eq!(
        format_request_details(&req),
        "[12] POST /x\n\n\u{25BC} Request\nHeaders:\n  A: b\nBody:\nl1\nl2\n\n\u{25BC} Response\nStatus: 404 OK\nr1\nr2"
    );
}

#[test]
fn details_of_bare_request() {
    let req = ExecutionRequest::new(0, "GET".to_string(), "/".to_string());
    assert_eq!(
        format_request_details(&req),
        "[0] GET /\n\n\u{25BC} Request\nHeaders:\nBody: (None)\n\n\u{25BC} Response"
    );
}

#[test]
fn entry_colours() {
    let ok = LogEntry::new(LogEntryType::RequestResult, "    \u{2713} 200 OK".to_string());
    let bad = LogEntry::new(LogEntryType::RequestResult, "    x 500".to_string());
    assert_eq!(entry_tint(&ok), Tint::Green);
    assert_eq!(entry_tint(&bad), Tint::Red);
    assert_eq!(entry_tint(&LogEntry::new(LogEntryType::UserPrompt, "".to_string())), Tint::White);
    assert_eq!(entry_tint(&LogEntry::new(LogEntryType::Planning, "".to_string())), Tint::Cyan);
    assert_eq!(entry_tint(&LogEntry::new(LogEntryType::Discovery, "".to_string())), Tint::Green);
    assert_eq!(entry_tint(&LogEntry::new(LogEntryType::RequestExec, "".to_string())), Tint::Blue);
}

#[test]
fn details_panel_text() {
    let mut model = create_dummy_model();
    assert!(details_text(&model).starts_with("[2] POST /api/users/1\n"));
    model.selected_request_index = 5;
    assert_eq!(details_text(&model), "No request selected");
    assert_eq!(prompt_line("hi"), "> hi");
}
