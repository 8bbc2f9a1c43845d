//! What the explorer's panels show: the colour of each log entry, the prompt
//! line, and the details of the selected request.

use vstd::prelude::*;
use crate::model::{ExecutionRequest, LogEntry, LogEntryType, Model};
use crate::text::{contains_char, decimal, decimal_digits, join_lines, joined, split_lines, text_lines};

verus! {

/// The colour a log line is drawn in.
#[derive(Debug, Clone, Copy, PartialEq, Eq, Structural)]
pub enum Tint {
    White,
    Cyan,
    Green,
    Blue,
    Red,
}

/// The colour of a log entry: by kind, and for a request result, green when
/// it carries a check mark and red otherwise.
pub open spec fn entry_tint_spec(kind: LogEntryType, content: Seq<char>) -> Tint {
    match kind {
        LogEntryType::UserPrompt => Tint::White,
        LogEntryType::Planning => Tint::Cyan,
        LogEntryType::Discovery => Tint::Green,
        LogEntryType::ExecutionStart => Tint::Blue,
        LogEntryType::RequestExec => Tint::Blue,
        LogEntryType::RequestResult => if content.contains('\u{2713}') {
            Tint::Green
        } else {
            Tint::Red
        },
    }
}

/// The colour of a log entry.
pub fn entry_tint(entry: &LogEntry) -> (r: Tint)
    ensures
        r == entry_tint_spec(entry.entry_type, entry.content@),
{
    match entry.entry_type {
        LogEntryType::UserPrompt => Tint::White,
        LogEntryType::Planning => Tint::Cyan,
        LogEntryType::Discovery => Tint::Green,
        LogEntryType::ExecutionStart => Tint::Blue,
        LogEntryType::RequestExec => Tint::Blue,
        LogEntryType::RequestResult => if contains_char(entry.content.as_str(), '\u{2713}') {
            Tint::Green
        } else {
            Tint::Red
        },
    }
}

/// The prompt line: the input behind `"> "`.
pub fn prompt_line(input: &str) -> (r: String)
    ensures
        r@ == "> "@ + input@,
{
    "> ".to_string().concat(input)
}

/// The line of one header.
pub open spec fn header_line(key: Seq<char>, value: Seq<char>) -> Seq<char> {
    "  "@ + key + ": "@ + value
}

/// The lines of the request section: title, blank line, headers, body.
pub open spec fn request_section(req: ExecutionRequest) -> Seq<Seq<char>> {
    seq![
        "["@ + decimal_digits(req.number as nat) + "] "@ + req.method@ + " "@ + req.url@,
        ""@,
        "\u{25BC} Request"@,
        "Headers:"@,
    ] + req.headers@.map_values(|h: (String, String)| header_line(h.0@, h.1@)) + match req.body {
        Some(b) => seq!["Body:"@] + text_lines(b@),
        None => seq!["Body: (None)"@],
    }
}

/// The lines of the response section: its title, the status when there is
/// one, and the response body's lines.
pub open spec fn response_section(req: ExecutionRequest) -> Seq<Seq<char>> {
    seq![""@, "\u{25BC} Response"@] + match req.status_code {
        Some(s) => seq!["Status: "@ + decimal_digits(s as nat) + " OK"@],
        None => Seq::empty(),
    } + match req.response_body {
        Some(b) => text_lines(b@),
        None => Seq::empty(),
    }
}

/// The lines of a request's details.
pub open spec fn request_detail_lines(req: ExecutionRequest) -> Seq<Seq<char>> {
    request_section(req) + response_section(req)
}

/// Appends the lines of `text` to `out`.
fn push_lines(out: &mut Vec<String>, text: &String)
    ensures
        final(out)@.map_values(|l: String| l@) == old(out)@.map_values(|l: String| l@)
            + text_lines(text@),
{
    let mut lines = split_lines(text.as_str());
    let ghost a = old(out)@;
    let ghost b = lines@;
    out.append(&mut lines);
    assert(out@.map_values(|l: String| l@) =~= a.map_values(|l: String| l@) + b.map_values(
        |l: String| l@,
    ));
}

/// The details of a request, one item per line: title, headers, body, status
/// and response body.
pub fn format_request_details(req: &ExecutionRequest) -> (r: String)
    ensures
        r@ == joined(request_detail_lines(*req)),
{
    let mut details: Vec<String> = Vec::new();
    let number = decimal(req.number as u64);
    let title = "[".to_string().concat(number.as_str()).concat("] ").concat(
        req.method.as_str(),
    ).concat(" ").concat(req.url.as_str());
    assert(title@ == "["@ + decimal_digits(req.number as nat) + "] "@ + req.method@ + " "@
        + req.url@);
    details.push(title);
    details.push("".to_string());
    details.push("\u{25BC} Request".to_string());
    details.push("Headers:".to_string());
    let ghost head = details@.map_values(|l: String| l@);
    assert(head =~= seq![
        "["@ + decimal_digits(req.number as nat) + "] "@ + req.method@ + " "@ + req.url@,
        ""@,
        "\u{25BC} Request"@,
        "Headers:"@,
    ]);
    let mut i: usize = 0;
    while i < req.headers.len()
        invariant
            i <= req.headers@.len(),
            details@.map_values(|l: String| l@) == head + req.headers@.take(i as int).map_values(
                |h: (String, String)| header_line(h.0@, h.1@),
            ),
        decreases req.headers@.len() - i,
    {
        let ghost before = details@.map_values(|l: String| l@);
        let (key, value) = &req.headers[i];
        details.push("  ".to_string().concat(key.as_str()).concat(": ").concat(value.as_str()));
        assert(req.headers@.take(i + 1) =~= req.headers@.take(i as int).push(req.headers@[i as int]));
        assert(details@.map_values(|l: String| l@) =~= before.push(header_line(key@, value@)));
        i += 1;
    }
    assert(req.headers@.take(req.headers@.len() as int) =~= req.headers@);
    let ghost with_headers = details@.map_values(|l: String| l@);
    match &req.body {
        Some(body) => {
            details.push("Body:".to_string());
            assert(details@.map_values(|l: String| l@) =~= with_headers + seq!["Body:"@]);
            push_lines(&mut details, body);
            assert(details@.map_values(|l: String| l@) =~= with_headers + (seq!["Body:"@]
                + text_lines(body@)));
        },
        None => {
            details.push("Body: (None)".to_string());
            assert(details@.map_values(|l: String| l@) =~= with_headers + seq!["Body: (None)"@]);
        },
    }
    let ghost request_part = details@.map_values(|l: String| l@);
    assert(request_part =~= request_section(*req));
    details.push("".to_string());
    details.push("\u{25BC} Response".to_string());
    assert(details@.map_values(|l: String| l@) =~= request_part + seq![
        ""@,
        "\u{25BC} Response"@,
    ]);
    let ghost titled = details@.map_values(|l: String| l@);
    match req.status_code {
        Some(status) => {
            let code = decimal(status as u64);
            details.push("Status: ".to_string().concat(code.as_str()).concat(" OK"));
            assert(details@.map_values(|l: String| l@) =~= titled + seq![
                "Status: "@ + decimal_digits(status as nat) + " OK"@,
            ]);
        },
        None => {
            assert(details@.map_values(|l: String| l@) =~= titled + Seq::<Seq<char>>::empty());
        },
    }
    let ghost with_status = details@.map_values(|l: String| l@);
    match &req.response_body {
        Some(body) => {
            push_lines(&mut details, body);
        },
        None => {
            assert(details@.map_values(|l: String| l@) =~= with_status + Seq::<Seq<char>>::empty());
        },
    }
    assert(details@.map_values(|l: String| l@) =~= request_section(*req) + response_section(*req));
    join_lines(&details)
}

/// The text of the details panel: the selected request's details, or a
/// notice that none is selected.
pub fn details_text(model: &Model) -> (r: String)
    ensures
        model.selected_request_index < model.requests@.len() ==> r@ == joined(
            request_detail_lines(model.requests@[model.selected_request_index as int]),
        ),
        model.selected_request_index >= model.requests@.len() ==> r@ == "No request selected"@,
{
    match model.get_selected_request() {
        Some(req) => format_request_details(req),
        None => "No request selected".to_string(),
    }
}

} // verus!
