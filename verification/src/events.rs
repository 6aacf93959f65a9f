//! The events that a session hands to the application besides the messages
//! of its server: diagnostics for lines that cannot be read, the lines of the
//! server's error stream, and the news that a session is connected.

use crate::json::{json_model, object, text, with_member, Json};
use crate::text::{blank, is_blank};
use serde_json::Value;
use vstd::prelude::*;

verus! {

/// An event for the application: a message, and the workspace whose session
/// it comes from.
pub struct AppServerEvent {
    pub workspace_id: String,
    pub message: Value,
}

/// A notification with the method `method` and the parameters `params`.
pub open spec fn notification_of(method: Seq<char>, params: Map<Seq<char>, Json>) -> Json {
    Json::Object(
        Map::<Seq<char>, Json>::empty().insert("method"@, Json::Text(method)).insert(
            "params"@,
            Json::Object(params),
        ),
    )
}

/// The diagnostic for a line that holds no JSON: the method `parse-error`,
/// with the parser's complaint and the line as it came.
pub open spec fn parse_error_of(raw: Seq<char>, error: Seq<char>) -> Json {
    notification_of(
        "parse-error"@,
        Map::<Seq<char>, Json>::empty().insert("error"@, Json::Text(error)).insert(
            "raw"@,
            Json::Text(raw),
        ),
    )
}

/// The event for a line of a server's error stream: the method
/// `codex/stderr`, with the line.
pub open spec fn stderr_of(line: Seq<char>) -> Json {
    notification_of(
        "codex/stderr"@,
        Map::<Seq<char>, Json>::empty().insert("message"@, Json::Text(line)),
    )
}

/// The event for a session that is ready: the method `codex/connected`, with
/// the id of the workspace.
pub open spec fn connected_of(workspace_id: Seq<char>) -> Json {
    notification_of(
        "codex/connected"@,
        Map::<Seq<char>, Json>::empty().insert("workspaceId"@, Json::Text(workspace_id)),
    )
}

fn notification(method: &str, params: Value) -> (message: Value)
    requires
        json_model(params) is Object,
    ensures
        json_model(message) == notification_of(method@, json_model(params)->Object_0),
{
    let message = with_member(object(), "method", text(method));
    with_member(message, "params", params)
}

/// The diagnostic for a line that holds no JSON.
pub fn parse_error_event(raw: &str, error: &str) -> (message: Value)
    ensures
        json_model(message) == parse_error_of(raw@, error@),
{
    let params = with_member(object(), "error", text(error));
    let params = with_member(params, "raw", text(raw));
    notification("parse-error", params)
}

/// The event for a line of a server's error stream. A blank line is no
/// event. The line is never read as a message of the protocol.
pub fn stderr_event(line: &str) -> (message: Option<Value>)
    ensures
        match message {
            Some(event) => !is_blank(line@) && json_model(event) == stderr_of(line@),
            None => is_blank(line@),
        },
{
    if blank(line) {
        return None;
    }
    let params = with_member(object(), "message", text(line));
    Some(notification("codex/stderr", params))
}

/// The event for a session that is ready.
pub fn connected_event(workspace_id: &str) -> (message: Value)
    ensures
        json_model(message) == connected_of(workspace_id@),
{
    let params = with_member(object(), "workspaceId", text(workspace_id));
    notification("codex/connected", params)
}

/// The event that carries `message` from the session of `workspace_id`.
pub fn event_for(workspace_id: &str, message: Value) -> (event: AppServerEvent)
    ensures
        event.workspace_id@ == workspace_id@,
        event.message == message,
{
    AppServerEvent { workspace_id: workspace_id.to_owned(), message }
}

} // verus!
