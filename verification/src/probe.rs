//! The rate-limit probe: a short conversation with a throw-away agent server
//! that is started for this one question.

use crate::json::{json_model, json_parsed, member, object, parse, text, with_member, Json};
use crate::text::{blank, is_blank, trim, trimmed};
use crate::usage::RateLimitSnapshot;
use crate::wire::{
    is_notification, is_request, notification_message, parse_rate_limits_from_container,
    rate_limits, request_message,
};
use serde_json::Value;
use vstd::prelude::*;

verus! {

/// The id under which a probe sends `initialize`.
pub const PROBE_INITIALIZE_ID: u64 = 1;

/// The id under which a probe asks for the rate limits.
pub const PROBE_READ_ID: u64 = 2;

/// What a line of a probe's output means for the probe.
#[derive(Clone, Copy, Debug, PartialEq, Eq)]
pub enum ProbeStep {
    /// The line does not answer the question: the next line is to be read.
    Continue,
    /// The line answers the question, with rate limits or with none.
    Done(Option<RateLimitSnapshot>),
}

/// Who a probe says it is.
pub open spec fn is_probe_identity(params: Json) -> bool {
    &&& params matches Json::Object(members)
    &&& members.dom() =~= set!["clientInfo"@]
    &&& members["clientInfo"@] matches Json::Object(info)
    &&& info.dom() =~= set!["name"@, "version"@]
    &&& info["name"@] == Json::Text("codexola"@)
    &&& info["version"@] == Json::Text("0.1.0"@)
}

/// The rate limits in the response to a request for them: those that its
/// member `result` holds.
pub open spec fn response_rate_limits(response: Json) -> Option<RateLimitSnapshot> {
    match response.get("result"@) {
        Some(result) => rate_limits(result),
        None => None,
    }
}

/// What a message with the id `id` means for a probe, that reports an error
/// or not and holds the rate limits `limits`: the message with the id 2 ends
/// the probe, with its rate limits, and with none where it reports an
/// error.
pub open spec fn step_of(id: Option<i64>, has_error: bool, limits: Option<RateLimitSnapshot>) -> ProbeStep {
    if id == Some(2i64) {
        if has_error {
            ProbeStep::Done(None)
        } else {
            ProbeStep::Done(limits)
        }
    } else {
        ProbeStep::Continue
    }
}

/// What a message means for a probe. The response to the probe's question
/// is the message whose id is the integer 2.
pub open spec fn message_step(message: Json) -> ProbeStep {
    step_of(
        match message.get("id"@) {
            Some(id) => id.as_i64(),
            None => None,
        },
        message.has("error"@),
        response_rate_limits(message),
    )
}

/// What a line of a probe's output means for the probe. Blank lines and
/// lines that hold no JSON are passed over.
pub open spec fn line_step(line: Seq<char>) -> ProbeStep {
    if is_blank(line) {
        ProbeStep::Continue
    } else {
        match json_parsed(trimmed(line)) {
            Some(message) => message_step(message),
            None => ProbeStep::Continue,
        }
    }
}

/// The three messages that a probe writes, in their order: `initialize`
/// under the id 1, the notification `initialized`, and the request for the
/// rate limits under the id 2.
pub fn probe_messages() -> (messages: Vec<Value>)
    ensures
        messages@.len() == 3,
        exists|identity: Json|
            is_probe_identity(identity) && is_request(
                json_model(messages@[0]),
                1,
                "initialize"@,
                identity,
            ),
        is_notification(json_model(messages@[1]), "initialized"@, None),
        is_request(
            json_model(messages@[2]),
            2,
            "account/rateLimits/read"@,
            Json::Object(Map::empty()),
        ),
{
    proof {
        reveal_strlit("name");
        reveal_strlit("version");
        assert("name"@.len() == 4);
        assert("version"@.len() == 7);
    }
    let info = with_member(object(), "name", text("codexola"));
    let info = with_member(info, "version", text("0.1.0"));
    let identity = with_member(object(), "clientInfo", info);
    assert(is_probe_identity(json_model(identity)));
    let mut messages: Vec<Value> = Vec::new();
    messages.push(request_message(PROBE_INITIALIZE_ID, "initialize", identity));
    messages.push(notification_message("initialized", None));
    messages.push(rate_limits_request(PROBE_READ_ID));
    messages
}

/// The request for the rate limits, under the id `id`.
pub fn rate_limits_request(id: u64) -> (message: Value)
    ensures
        is_request(
            json_model(message),
            id,
            "account/rateLimits/read"@,
            Json::Object(Map::empty()),
        ),
{
    request_message(id, "account/rateLimits/read", object())
}

/// The parameters of a request for the rate limits: none.
pub fn rate_limits_params() -> (params: Value)
    ensures
        json_model(params) == Json::Object(Map::empty()),
{
    object()
}

/// The rate limits in the response to a request for them.
pub fn rate_limits_of_response(response: &Value) -> (limits: Option<RateLimitSnapshot>)
    ensures
        limits == response_rate_limits(json_model(*response)),
{
    match member(response, "result") {
        Some(result) => parse_rate_limits_from_container(result),
        None => None,
    }
}

/// What a message with the id `id` means for a probe.
pub fn probe_answer(id: Option<i64>, has_error: bool, limits: Option<RateLimitSnapshot>) -> (step:
    ProbeStep)
    ensures
        step == step_of(id, has_error, limits),
{
    match id {
        Some(2) => if has_error {
            ProbeStep::Done(None)
        } else {
            ProbeStep::Done(limits)
        },
        _ => ProbeStep::Continue,
    }
}

/// What a message means for a probe.
pub fn probe_message_step(message: &Value) -> (step: ProbeStep)
    ensures
        step == message_step(json_model(*message)),
{
    let id = match member(message, "id") {
        Some(id) => id.as_i64(),
        None => None,
    };
    let has_error = member(message, "error").is_some();
    probe_answer(id, has_error, rate_limits_of_response(message))
}

/// What a line of a probe's output means for the probe.
pub fn probe_step(line: &str) -> (step: ProbeStep)
    ensures
        step == line_step(line@),
{
    if blank(line) {
        return ProbeStep::Continue;
    }
    let inner = trim(line);
    match parse(inner.as_str()) {
        Ok(message) => probe_message_step(&message),
        Err(_) => ProbeStep::Continue,
    }
}

/// The rate limits that a refresh goes on with after a source was asked: a
/// source that fails counts as one that has none.
pub fn settle(answer: Result<Option<RateLimitSnapshot>, String>) -> (limits: Option<
    RateLimitSnapshot,
>)
    ensures
        limits == match answer {
            Ok(found) => found,
            Err(_) => None,
        },
{
    match answer {
        Ok(found) => found,
        Err(_) => None,
    }
}

/// Whether a refresh is to probe: when no session gave rate limits.
pub fn needs_probe(from_session: &Option<RateLimitSnapshot>) -> (needed: bool)
    ensures
        needed == from_session is None,
{
    from_session.is_none()
}

} // verus!
