//! What a provider's refusal says, in one line for the user.
use crate::json;
use crate::json::{Json, JsonView};
use crate::llm::arguments;
use crate::llm::response;
use crate::llm::sse;
use crate::text;
use vstd::prelude::*;

verus! {

/// An HTTP status code: three digits.
pub open spec fn is_status(code: u16) -> bool {
    100 <= code < 1000
}

/// The status says that the request succeeded.
pub open spec fn is_success(code: u16) -> bool {
    200 <= code < 300
}

/// Whether the status says that the request succeeded.
pub fn is_success_status(code: u16) -> (yes: bool)
    ensures
        yes == is_success(code),
{
    200 <= code && code < 300
}

/// A status as `reqwest::StatusCode` displays it: the code and its reason phrase.
pub uninterp spec fn status_line(code: u16) -> Seq<char>;

/// `reqwest::StatusCode::from_u16` and the display of its result, which depends on
/// the code alone. It accepts the codes from 100 to 999.
#[verifier::external_body]
pub(crate) fn show_status(code: u16) -> (line: String)
    requires
        is_status(code),
    ensures
        line@ == status_line(code),
{
    reqwest::StatusCode::from_u16(code).map(|status| status.to_string()).unwrap_or_default()
}

/// The message in an error's JSON: of the error itself, else the detail, else the
/// message.
pub open spec fn error_text(body: JsonView) -> Option<Seq<char>> {
    match body.at("error"@).at("message"@).text() {
        Some(t) => Some(t),
        None => match body.at("detail"@).text() {
            Some(t) => Some(t),
            None => body.at("message"@).text(),
        },
    }
}

/// The message in an error's JSON.
pub fn openai_error_message(body: &Json) -> (found: Option<String>)
    ensures
        text::view_of(found) == error_text(body@),
{
    let picked = match body.at("error").at("message").as_str() {
        Some(t) => Some(t),
        None => match body.at("detail").as_str() {
            Some(t) => Some(t),
            None => body.at("message").as_str(),
        },
    };
    match picked {
        Some(t) => Some(t.to_owned()),
        None => None,
    }
}

/// The message in an error's text: none where the text is no JSON.
pub open spec fn error_text_in(reading: Result<JsonView, Seq<char>>) -> Option<Seq<char>> {
    match reading {
        Ok(body) => error_text(body),
        Err(_) => None,
    }
}

/// The message in an error's text.
pub fn parse_openai_error_message(response_text: &str) -> (found: Option<String>)
    ensures
        text::view_of(found) == error_text_in(json::parsed(response_text@)),
{
    match Json::parse(response_text) {
        Ok(body) => openai_error_message(&body),
        Err(_) => None,
    }
}

/// What the upstream provider said, where a proxy passes it on: text unless it is
/// empty, and anything else but `null` as JSON.
pub open spec fn upstream_error(raw: JsonView) -> Option<Seq<char>> {
    match raw {
        JsonView::Str(t) => if t.len() > 0 {
            Some(t)
        } else {
            shown_unless_null(raw)
        },
        JsonView::Null => None,
        _ => shown_unless_null(raw),
    }
}

/// A value as JSON text, unless that is the text of `null`.
pub open spec fn shown_unless_null(raw: JsonView) -> Option<Seq<char>> {
    if json::printed(raw) == "null"@ {
        None
    } else {
        Some(json::printed(raw))
    }
}

/// An error reply in one line: the status, the message and, where a proxy tells,
/// the upstream provider and what it said.
pub open spec fn api_error(status: Seq<char>, body: JsonView) -> Seq<char> {
    let error = body.at("error"@);
    let start = status + ": "@ + response::text_or_other(error.at("message"@), "unknown error"@);
    let provider = match error.at("metadata"@).at("provider_name"@).text() {
        Some(name) => if name.len() > 0 {
            Some(name)
        } else {
            None
        },
        None => None,
    };
    match (provider, upstream_error(error.at("metadata"@).at("raw"@))) {
        (Some(name), Some(raw)) => start + " (upstream provider "@ + name + ": "@ + raw + ")"@,
        (Some(name), None) => start + " (upstream provider: "@ + name + ")"@,
        (None, Some(raw)) => start + " ("@ + raw + ")"@,
        (None, None) => start,
    }
}

/// A value as JSON text, unless that is the text of `null`.
fn show_unless_null(raw: &Json) -> (shown: Option<String>)
    ensures
        text::view_of(shown) == shown_unless_null(raw@),
{
    let t = raw.to_text();
    if text::same(t.as_str(), "null") {
        None
    } else {
        Some(t)
    }
}

/// What the upstream provider said.
fn upstream_message(raw: &Json) -> (shown: Option<String>)
    ensures
        text::view_of(shown) == upstream_error(raw@),
{
    match raw {
        Json::Str(t) => if t.as_str().is_empty() {
            show_unless_null(raw)
        } else {
            Some(t.clone())
        },
        Json::Null => None,
        _ => show_unless_null(raw),
    }
}

/// An error reply in one line.
pub fn format_api_error(status: u16, body: &Json) -> (line: String)
    requires
        is_status(status),
    ensures
        line@ == api_error(status_line(status), body@),
{
    let shown = show_status(status);
    format_error_line(shown, body)
}

/// An error reply in one line, with the status as it is shown.
pub fn format_error_line(status: String, body: &Json) -> (line: String)
    ensures
        line@ == api_error(status@, body@),
{
    let error = body.at("error");
    let message = match error.at("message").as_str() {
        Some(t) => t,
        None => "unknown error",
    };
    let start = status.concat(": ").concat(message);
    let provider = match error.at("metadata").at("provider_name").as_str() {
        Some(name) => if name.is_empty() {
            None
        } else {
            Some(name)
        },
        None => None,
    };
    let raw = upstream_message(error.at("metadata").at("raw"));
    match provider {
        Some(name) => match raw {
            Some(raw) => start.concat(" (upstream provider ").concat(name).concat(": ").concat(
                raw.as_str(),
            ).concat(")"),
            None => start.concat(" (upstream provider: ").concat(name).concat(")"),
        },
        None => match raw {
            Some(raw) => start.concat(" (").concat(raw.as_str()).concat(")"),
            None => start,
        },
    }
}

/// An error reply in one line, from what the reader makes of its text: text that
/// is no JSON stands as it is, cut short.
pub open spec fn api_error_in(
    status: Seq<char>,
    response_text: Seq<char>,
    reading: Result<JsonView, Seq<char>>,
) -> Seq<char> {
    match reading {
        Ok(body) => api_error(status, body),
        Err(_) => status + ": "@ + sse::truncated(response_text),
    }
}

/// An error reply in one line, from what the reader made of its text.
pub fn format_error_reading(
    status: String,
    response_text: &str,
    reading: Result<Json, String>,
) -> (line: String)
    ensures
        line@ == api_error_in(status@, response_text@, arguments::reading_view(reading)),
{
    match reading {
        Ok(body) => format_error_line(status, &body),
        Err(_) => {
            let body = sse::truncate_body(response_text);
            status.concat(": ").concat(body.as_str())
        },
    }
}

/// An error reply in one line.
pub fn format_api_error_from_response_text(status: u16, response_text: &str) -> (line: String)
    requires
        is_status(status),
    ensures
        line@ == api_error_in(status_line(status), response_text@, json::parsed(response_text@)),
{
    let shown = show_status(status);
    let reading = Json::parse(response_text);
    format_error_reading(shown, response_text, reading)
}

} // verus!
