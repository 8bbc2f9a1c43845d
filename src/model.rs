//! The state of the request explorer: the executed requests, the log of the
//! run, the prompt being typed, and how it changes with each message.

use vstd::prelude::*;
use crate::events::Message;
use crate::text::{pop_char, push_char, trim_whitespace, trimmed};

verus! {

/// One HTTP request of an execution, with its response once there is one.
#[derive(Debug, Clone, PartialEq)]
pub struct ExecutionRequest {
    pub number: usize,
    pub method: String,
    pub url: String,
    pub headers: Vec<(String, String)>,
    pub body: Option<String>,
    pub status_code: Option<u16>,
    pub response_body: Option<String>,
    pub duration_ms: Option<u64>,
}

impl ExecutionRequest {
    /// Request `number`, with no headers, no body and no response yet.
    pub fn new(number: usize, method: String, url: String) -> (r: Self)
        ensures
            r.number == number,
            r.method == method,
            r.url == url,
            r.headers@.len() == 0,
            r.body is None,
            r.status_code is None,
            r.response_body is None,
            r.duration_ms is None,
    {
        ExecutionRequest {
            number,
            method,
            url,
            headers: Vec::new(),
            body: None,
            status_code: None,
            response_body: None,
            duration_ms: None,
        }
    }

    /// The same request with `headers`.
    pub fn with_headers(self, headers: Vec<(String, String)>) -> (r: Self)
        ensures
            r == (ExecutionRequest { headers, ..self }),
    {
        ExecutionRequest { headers, ..self }
    }

    /// The same request with `body`.
    pub fn with_body(self, body: String) -> (r: Self)
        ensures
            r == (ExecutionRequest { body: Some(body), ..self }),
    {
        ExecutionRequest { body: Some(body), ..self }
    }

    /// The same request with its response: status, body and duration.
    pub fn with_response(self, status_code: u16, response_body: String, duration_ms: u64) -> (r:
        Self)
        ensures
            r == (ExecutionRequest {
                status_code: Some(status_code),
                response_body: Some(response_body),
                duration_ms: Some(duration_ms),
                ..self
            }),
    {
        ExecutionRequest {
            status_code: Some(status_code),
            response_body: Some(response_body),
            duration_ms: Some(duration_ms),
            ..self
        }
    }
}

/// The kind of a log entry.
#[derive(Debug, Clone, Copy, PartialEq, Eq, Structural)]
pub enum LogEntryType {
    UserPrompt,
    Planning,
    Discovery,
    ExecutionStart,
    RequestExec,
    RequestResult,
}

/// The label of a log entry kind.
pub open spec fn entry_type_label(t: LogEntryType) -> Seq<char> {
    match t {
        LogEntryType::UserPrompt => "user_prompt"@,
        LogEntryType::Planning => "planning"@,
        LogEntryType::Discovery => "discovery"@,
        LogEntryType::ExecutionStart => "execution_start"@,
        LogEntryType::RequestExec => "request_exec"@,
        LogEntryType::RequestResult => "request_result"@,
    }
}

impl LogEntryType {
    /// The label of this kind.
    pub fn to_string(&self) -> (r: String)
        ensures
            r@ == entry_type_label(*self),
    {
        match self {
            LogEntryType::UserPrompt => "user_prompt".to_string(),
            LogEntryType::Planning => "planning".to_string(),
            LogEntryType::Discovery => "discovery".to_string(),
            LogEntryType::ExecutionStart => "execution_start".to_string(),
            LogEntryType::RequestExec => "request_exec".to_string(),
            LogEntryType::RequestResult => "request_result".to_string(),
        }
    }
}

/// One line of the execution log.
#[derive(Debug, Clone, PartialEq)]
pub struct LogEntry {
    pub entry_type: LogEntryType,
    pub content: String,
    pub request_number: Option<usize>,
}

impl LogEntry {
    /// An entry of the given kind, tied to no request.
    pub fn new(entry_type: LogEntryType, content: String) -> (r: Self)
        ensures
            r == (LogEntry { entry_type, content, request_number: None }),
    {
        LogEntry { entry_type, content, request_number: None }
    }

    /// The same entry, tied to request `request_number`.
    pub fn with_request_number(self, request_number: usize) -> (r: Self)
        ensures
            r == (LogEntry { request_number: Some(request_number), ..self }),
    {
        LogEntry { request_number: Some(request_number), ..self }
    }
}

/// Whether keys move the selection or type into the prompt.
#[derive(Debug, Clone, Copy, PartialEq, Eq, Structural)]
pub enum InputMode {
    Normal,
    Editing,
}

/// Whether the explorer keeps running.
#[derive(Debug, Clone, Copy, PartialEq, Eq, Structural)]
pub enum RunningState {
    Running,
    Done,
}

/// The whole state of the explorer.
#[derive(Debug)]
pub struct Model {
    pub requests: Vec<ExecutionRequest>,
    pub log_entries: Vec<LogEntry>,
    pub selected_request_index: usize,
    pub input: String,
    pub input_mode: InputMode,
    pub running_state: RunningState,
}

impl Model {
    /// An empty explorer: no requests, no log, an empty prompt, normal mode.
    pub fn new() -> (r: Self)
        ensures
            r.requests@.len() == 0,
            r.log_entries@.len() == 0,
            r.selected_request_index == 0,
            r.input@.len() == 0,
            r.input_mode == InputMode::Normal,
            r.running_state == RunningState::Running,
    {
        Model {
            requests: Vec::new(),
            log_entries: Vec::new(),
            selected_request_index: 0,
            input: String::new(),
            input_mode: InputMode::Normal,
            running_state: RunningState::Running,
        }
    }

    /// The selected request, when the selection points at one.
    pub fn get_selected_request(&self) -> (r: Option<&ExecutionRequest>)
        ensures
            self.selected_request_index < self.requests@.len() ==> r == Some(
                &self.requests@[self.selected_request_index as int],
            ),
            self.selected_request_index >= self.requests@.len() ==> r is None,
    {
        if self.selected_request_index < self.requests.len() {
            Some(&self.requests[self.selected_request_index])
        } else {
            None
        }
    }
}

impl Default for Model {
    fn default() -> (r: Self)
        ensures
            r.requests@.len() == 0,
            r.log_entries@.len() == 0,
            r.selected_request_index == 0,
            r.input@.len() == 0,
            r.input_mode == InputMode::Normal,
            r.running_state == RunningState::Running,
    {
        Model::new()
    }
}

/// Whether `after` is `before` with the four entries of a submitted prompt
/// appended: a blank line, the prompt behind `"> "`, a blank line and the
/// planning notice.
pub open spec fn prompt_logged(before: Seq<LogEntry>, after: Seq<LogEntry>, prompt: Seq<char>) -> bool {
    let n = before.len() as int;
    &&& after.len() == n + 4
    &&& forall|i: int| 0 <= i < n ==> after[i] == before[i]
    &&& after[n].entry_type == LogEntryType::UserPrompt
    &&& after[n].content@ == ""@
    &&& after[n + 1].entry_type == LogEntryType::UserPrompt
    &&& after[n + 1].content@ == "> "@ + prompt
    &&& after[n + 2].entry_type == LogEntryType::UserPrompt
    &&& after[n + 2].content@ == ""@
    &&& after[n + 3].entry_type == LogEntryType::Planning
    &&& after[n + 3].content@ == "\u{1F916} Planning..."@
    &&& forall|i: int| n <= i < n + 4 ==> after[i].request_number is None
}

/// Logs a submitted prompt.
pub fn submit_prompt(model: &mut Model, message: String)
    ensures
        prompt_logged(old(model).log_entries@, final(model).log_entries@, message@),
        final(model).requests == old(model).requests,
        final(model).selected_request_index == old(model).selected_request_index,
        final(model).input == old(model).input,
        final(model).input_mode == old(model).input_mode,
        final(model).running_state == old(model).running_state,
{
    model.log_entries.push(LogEntry::new(LogEntryType::UserPrompt, "".to_string()));
    model.log_entries.push(
        LogEntry::new(LogEntryType::UserPrompt, "> ".to_string().concat(message.as_str())),
    );
    model.log_entries.push(LogEntry::new(LogEntryType::UserPrompt, "".to_string()));
    model.log_entries.push(
        LogEntry::new(LogEntryType::Planning, "\u{1F916} Planning...".to_string()),
    );
}

/// The selection after moving up: one up, stopping at the first request.
pub open spec fn selection_up(i: usize) -> usize {
    if i > 0 {
        (i - 1) as usize
    } else {
        i
    }
}

/// The selection after moving down: one down, stopping at the last request.
pub open spec fn selection_down(i: usize, n: nat) -> usize {
    if n > 0 && i < n - 1 {
        (i + 1) as usize
    } else {
        i
    }
}

/// Applies a message to the explorer. No message leads to a further one.
pub fn update(model: &mut Model, msg: Message) -> (r: Option<Message>)
    ensures
        r is None,
        final(model).requests == old(model).requests,
        final(model).selected_request_index == match msg {
            Message::NavigateUp => selection_up(old(model).selected_request_index),
            Message::NavigateDown => selection_down(
                old(model).selected_request_index,
                old(model).requests@.len(),
            ),
            _ => old(model).selected_request_index,
        },
        final(model).input_mode == match msg {
            Message::EnterEditMode => InputMode::Editing,
            Message::ExitEditMode | Message::SubmitPrompt => InputMode::Normal,
            _ => old(model).input_mode,
        },
        final(model).input@ == match msg {
            Message::InputChar(c) => old(model).input@.push(c),
            Message::DeleteChar => if old(model).input@.len() > 0 {
                old(model).input@.drop_last()
            } else {
                old(model).input@
            },
            Message::SubmitPrompt => Seq::empty(),
            _ => old(model).input@,
        },
        final(model).running_state == match msg {
            Message::Quit => RunningState::Done,
            _ => old(model).running_state,
        },
        msg is SubmitPrompt && trimmed(old(model).input@).len() > 0 ==> prompt_logged(
            old(model).log_entries@,
            final(model).log_entries@,
            trimmed(old(model).input@),
        ),
        !(msg is SubmitPrompt && trimmed(old(model).input@).len() > 0) ==> final(model).log_entries
            == old(model).log_entries,
{
    match msg {
        Message::NavigateUp => {
            if model.selected_request_index > 0 {
                model.selected_request_index = model.selected_request_index - 1;
            }
        },
        Message::NavigateDown => {
            if model.requests.len() > 0 && model.selected_request_index < model.requests.len()
                - 1 {
                model.selected_request_index = model.selected_request_index + 1;
            }
        },
        Message::EnterEditMode => {
            model.input_mode = InputMode::Editing;
        },
        Message::ExitEditMode => {
            model.input_mode = InputMode::Normal;
        },
        Message::InputChar(c) => {
            push_char(&mut model.input, c);
        },
        Message::DeleteChar => {
            pop_char(&mut model.input);
        },
        Message::SubmitPrompt => {
            let message = trim_whitespace(model.input.as_str());
            if !message.as_str().is_empty() {
                submit_prompt(model, message);
            }
            model.input = String::new();
            model.input_mode = InputMode::Normal;
        },
        Message::Quit => {
            model.running_state = RunningState::Done;
        },
    }
    None
}

/// An explorer filled with a sample run: a prompt, its plan, the endpoints
/// found, and two executed requests, the second one selected.
pub fn create_dummy_model() -> (r: Model)
    ensures
        r.requests@.len() == 2,
        r.requests@[0].number == 1,
        r.requests@[0].status_code == Some(200u16),
        r.requests@[0].body is None,
        r.requests@[1].number == 2,
        r.requests@[1].status_code == Some(200u16),
        r.requests@[1].body is Some,
        r.log_entries@.len() == 11,
        r.selected_request_index == 1,
        r.input@.len() == 0,
        r.input_mode == InputMode::Normal,
        r.running_state == RunningState::Running,
{
    let mut model = Model::new();
    model.log_entries.push(
        LogEntry::new(
            LogEntryType::UserPrompt,
            "> get all users and update first email".to_string(),
        ),
    );
    model.log_entries.push(LogEntry::new(LogEntryType::UserPrompt, "".to_string()));
    model.log_entries.push(
        LogEntry::new(LogEntryType::Planning, "\u{1F916} Planning...".to_string()),
    );
    model.log_entries.push(
        LogEntry::new(LogEntryType::Discovery, "\u{2713} Found: GET /api/users".to_string()),
    );
    model.log_entries.push(
        LogEntry::new(LogEntryType::Discovery, "\u{2713} Found: POST /api/users".to_string()),
    );
    model.log_entries.push(LogEntry::new(LogEntryType::UserPrompt, "".to_string()));
    model.log_entries.push(
        LogEntry::new(LogEntryType::ExecutionStart, "\u{1F504} Executing:".to_string()),
    );
    model.log_entries.push(
        LogEntry::new(LogEntryType::RequestExec, "[1] GET /api/users".to_string())
            .with_request_number(1),
    );
    model.log_entries.push(
        LogEntry::new(LogEntryType::RequestResult, "    \u{2713} 200 OK (145ms)".to_string())
            .with_request_number(1),
    );
    model.log_entries.push(
        LogEntry::new(LogEntryType::RequestExec, "[2] POST /api/users/1".to_string())
            .with_request_number(2),
    );
    model.log_entries.push(
        LogEntry::new(LogEntryType::RequestResult, "    \u{2713} 200 OK (89ms)".to_string())
            .with_request_number(2),
    );
    let mut first_headers: Vec<(String, String)> = Vec::new();
    first_headers.push(("Content-Type".to_string(), "application/json".to_string()));
    model.requests.push(
        ExecutionRequest::new(1, "GET".to_string(), "/api/users".to_string())
            .with_headers(first_headers)
            .with_response(
                200,
                "[{\"id\": 1, \"email\": \"old@example.com\"}, ...]".to_string(),
                145,
            ),
    );
    let mut second_headers: Vec<(String, String)> = Vec::new();
    second_headers.push(("Content-Type".to_string(), "application/json".to_string()));
    model.requests.push(
        ExecutionRequest::new(2, "POST".to_string(), "/api/users/1".to_string())
            .with_headers(second_headers)
            .with_body("{\n  \"email\": \"new@example.com\"\n}".to_string())
            .with_response(
                200,
                "{\n  \"id\": 1,\n  \"email\": \"new@example.com\"\n}".to_string(),
                89,
            ),
    );
    model.selected_request_index = 1;
    model
}

} // verus!
