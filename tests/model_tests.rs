use cozyreq::events::Message;
use cozyreq::model::{
    create_dummy_model, update, ExecutionRequest, InputMode, LogEntry, LogEntryType, Model,
    RunningState,
};

#[test]
fn test_model_new() {
    let model = Model::new();
    assert_eq!(model.requests.len(), 0);
    assert_eq!(model.log_entries.len(), 0);
    assert_eq!(model.selected_request_index, 0);
    assert_eq!(model.input, "");
    assert_eq!(model.input_mode, InputMode::Normal);
    assert_eq!(model.running_state, RunningState::Running);
}

#[test]
fn test_get_selected_request() {
    let model = create_dummy_model();
    let selected = model.get_selected_request();
    assert!(selected.is_some());
    assert_eq!(selected.unwrap().number, 2);
}

#[test]
fn test_get_selected_request_none() {
    let mut model = Model::new();
    assert!(model.get_selected_request().is_none());

    model.selected_request_index = 10;
    assert!(model.get_selected_request().is_none());
}

#[test]
fn test_execution_request_builder() {
    let req = ExecutionRequest::new(1, "GET".to_string(), "/api/test".to_string())
        .with_headers(vec![(
            "Content-Type".to_string(),
            "application/json".to_string(),
        )])
        .with_body("test body".to_string())
        .with_response(200, "response body".to_string(), 100);

    assert_eq!(req.number, 1);
    assert_eq!(req.method, "GET");
    assert_eq!(req.url, "/api/test");
    assert_eq!(req.headers.len(), 1);
    assert_eq!(req.headers[0].0, "Content-Type");
    assert_eq!(req.body, Some("test body".to_string()));
    assert_eq!(req.status_code, Some(200));
    assert_eq!(req.response_body, Some("response body".to_string()));
    assert_eq!(req.duration_ms, Some(100));
}

#[test]
fn test_log_entry_builder() {
    let entry = LogEntry::new(LogEntryType::RequestExec, "test content".to_string())
        .with_request_number(5);

    assert_eq!(entry.entry_type, LogEntryType::RequestExec);
    assert_eq!(entry.content, "test content");
    assert_eq!(entry.request_number, Some(5));
}

#[test]
fn test_log_entry_type_display() {
    assert_eq!(LogEntryType::UserPrompt.to_string(), "user_prompt");
    assert_eq!(LogEntryType::Planning.to_string(), "planning");
    assert_eq!(LogEntryType::Discovery.to_string(), "discovery");
    assert_eq!(LogEntryType::ExecutionStart.to_string(), "execution_start");
    assert_eq!(LogEntryType::RequestExec.to_string(), "request_exec");
    assert_eq!(LogEntryType::RequestResult.to_string(), "request_result");
}

#[test]
fn test_create_dummy_model() {
    let model = create_dummy_model();
    assert_eq!(model.requests.len(), 2);
    assert_eq!(model.selected_request_index, 1);
    assert!(model.log_entries.len() > 0);
    assert_eq!(model.input_mode, InputMode::Normal);
    assert_eq!(model.running_state, RunningState::Running);
}

#[test]
fn test_model_default() {
    let model = Model::default();
    assert_eq!(model.requests.len(), 0);
    assert_eq!(model.running_state, RunningState::Running);
}

#[test]
fn test_update_navigate_up() {
    let mut model = create_dummy_model();
    assert_eq!(model.selected_request_index, 1);

    update(&mut model, Message::NavigateUp);
    assert_eq!(model.selected_request_index, 0);
}

#[test]
fn test_update_navigate_down() {
    let mut model = create_dummy_model();
    model.selected_request_index = 0;

    update(&mut model, Message::NavigateDown);
    assert_eq!(model.selected_request_index, 1);
}

#[test]
fn test_update_navigate_up_at_boundary() {
    let mut model = create_dummy_model();
    model.selected_request_index = 0;

    update(&mut model, Message::NavigateUp);
    assert_eq!(model.selected_request_index, 0);
}

#[test]
fn test_update_navigate_down_at_boundary() {
    let mut model = create_dummy_model();
    model.selected_request_index = 1;

    update(&mut model, Message::NavigateDown);
    assert_eq!(model.selected_request_index, 1);
}

#[test]
fn test_update_navigate_empty_list() {
    let mut model = Model::new();
    assert_eq!(model.requests.len(), 0);

    update(&mut model, Message::NavigateUp);
    assert_eq!(model.selected_request_index, 0);

    update(&mut model, Message::NavigateDown);
    assert_eq!(model.selected_request_index, 0);
}

#[test]
fn test_update_enter_edit_mode() {
    let mut model = Model::new();
    assert_eq!(model.input_mode, InputMode::Normal);

    update(&mut model, Message::EnterEditMode);
    assert_eq!(model.input_mode, InputMode::Editing);
}

#[test]
fn test_update_exit_edit_mode() {
    let mut model = Model::new();
    model.input_mode = InputMode::Editing;

    update(&mut model, Message::ExitEditMode);
    assert_eq!(model.input_mode, InputMode::Normal);
}

#[test]
fn test_update_input_char() {
    let mut model = Model::new();
    assert_eq!(model.input, "");

    update(&mut model, Message::InputChar('h'));
    assert_eq!(model.input, "h");

    update(&mut model, Message::InputChar('i'));
    assert_eq!(model.input, "hi");
}

#[test]
fn test_update_delete_char() {
    let mut model = Model::new();
    model.input = "hello".to_string();

    update(&mut model, Message::DeleteChar);
    assert_eq!(model.input, "hell");

    update(&mut model, Message::DeleteChar);
    assert_eq!(model.input, "hel");
}

#[test]
fn test_update_delete_char_empty() {
    let mut model = Model::new();
    assert_eq!(model.input, "");

    update(&mut model, Message::DeleteChar);
    assert_eq!(model.input, "");
}

#[test]
fn test_update_submit_prompt_with_text() {
    let mut model = Model::new();
    model.input = "test prompt".to_string();
    model.input_mode = InputMode::Editing;
    let initial_log_count = model.log_entries.len();

    update(&mut model, Message::SubmitPrompt);

    assert_eq!(model.input, "");
    assert_eq!(model.input_mode, InputMode::Normal);
    assert_eq!(model.log_entries.len(), initial_log_count + 4);
    assert!(model
        .log_entries
        .iter()
        .any(|e| e.content.contains("test prompt")));
    assert!(model.log_entries.iter().any(|e| e.content.contains("Planning")));
}

#[test]
fn test_update_submit_prompt_empty() {
    let mut model = Model::new();
    model.input = "   ".to_string();
    model.input_mode = InputMode::Editing;
    let initial_log_count = model.log_entries.len();

    update(&mut model, Message::SubmitPrompt);

    assert_eq!(model.input, "");
    assert_eq!(model.input_mode, InputMode::Normal);
    assert_eq!(model.log_entries.len(), initial_log_count);
}

#[test]
fn test_update_quit() {
    let mut model = Model::new();
    assert_eq!(model.running_state, RunningState::Running);

    update(&mut model, Message::Quit);
    assert_eq!(model.running_state, RunningState::Done);
}

#[test]
fn test_update_returns_none() {
    let mut model = Model::new();

    assert_eq!(update(&mut model, Message::Quit), None);
    assert_eq!(update(&mut model, Message::NavigateUp), None);
    assert_eq!(update(&mut model, Message::NavigateDown), None);
    assert_eq!(update(&mut model, Message::EnterEditMode), None);
    assert_eq!(update(&mut model, Message::ExitEditMode), None);
    assert_eq!(update(&mut model, Message::InputChar('a')), None);
    assert_eq!(update(&mut model, Message::DeleteChar), None);
    assert_eq!(update(&mut model, Message::SubmitPrompt), None);
}

#[test]
fn submit_prompt_trims_and_logs_four_entries() {
    let mut model = Model::new();
    model.input = "  list users \n".to_string();
    update(&mut model, Message::SubmitPrompt);
    assert_eq!(model.log_entries.len(), 4);
    assert_eq!(model.log_entries[0].content, "");
    assert_eq!(model.log_entries[1].content, "> list users");
    assert_eq!(model.log_entries[1].entry_type, LogEntryType::UserPrompt);
    assert_eq!(model.log_entries[2].content, "");
    assert_eq!(model.log_entries[3].entry_type, LogEntryType::Planning);
    assert_eq!(model.log_entries[3].content, "\u{1F916} Planning...");
}

#[test]
fn delete_char_removes_a_whole_multibyte_character() {
    let mut model = Model::new();
    model.input = "caf\u{e9}".to_string();
    update(&mut model, Message::DeleteChar);
    assert_eq!(model.input, "caf");
}

#[test]
fn dummy_model_contents() {
    let model = create_dummy_model();
    assert_eq!(model.log_entries.len(), 11);
    assert_eq!(model.requests[0].method, "GET");
    assert_eq!(model.requests[0].url, "/api/users");
    assert_eq!(model.requests[0].duration_ms, Some(145));
    assert_eq!(model.requests[1].method, "POST");
    assert_eq!(model.log_entries[7].request_number, Some(1));
    assert_eq!(model.log_entries[10].request_number, Some(2));
}
