//! The wire protocol between a session and its agent server: one JSON
//! message per line.
//!
//! This module builds the three kinds of outbound message, frames them,
//! decodes inbound lines, sorts inbound messages by the fields they carry,
//! and reads the two notifications that feed the usage ledger.

use crate::json::{
    double_bits, error_text, json_model, json_parsed, json_text, member, object, parse, render,
    text, unsigned, with_member, Json,
};
use crate::rounding::{round_double, rounded_double};
use crate::text::{blank, is_blank, text_eq};
use crate::usage::{RateLimitSnapshot, RateLimitWindow};
use serde_json::Value;
use vstd::prelude::*;

verus! {

/// What an inbound message is, by the fields it carries.
#[derive(Clone, Copy, Debug, PartialEq, Eq)]
pub enum MessageKind {
    /// The answer to a request with this id.
    Response { id: u64 },
    /// A call from the server that waits for a reply under this id.
    ServerCall { id: u64 },
    /// A one-way notification from the server.
    Notification,
    /// Neither: the message carries no usable id and no method.
    Unroutable,
}

/// What an inbound message means for the usage ledger.
#[derive(Clone, Copy, Debug, PartialEq, Eq)]
pub enum UsageEffect {
    Nothing,
    /// A token delta to record.
    Tokens(i64),
    /// Rate limits to record.
    RateLimits(RateLimitSnapshot),
}

/// What one line of a server's output holds.
pub enum Inbound {
    /// Nothing but white space.
    Blank,
    /// A JSON message.
    Message(Value),
    /// Something that is not JSON: the line as it came, and what the parser
    /// said of it.
    Malformed { raw: String, error: String },
}

impl View for Inbound {
    type V = Decoded;

    open spec fn view(&self) -> Decoded {
        match self {
            Inbound::Blank => Decoded::Blank,
            Inbound::Message(message) => Decoded::Message(json_model(*message)),
            Inbound::Malformed { raw, .. } => Decoded::Malformed { raw: raw@ },
        }
    }
}

/// The kind of a message with the given id, if it has a usable one, that has
/// a method or not, and a result or an error or neither.
pub open spec fn kind_of(id: Option<u64>, has_method: bool, has_outcome: bool) -> MessageKind {
    match id {
        Some(id) => if has_outcome {
            MessageKind::Response { id }
        } else if has_method {
            MessageKind::ServerCall { id }
        } else {
            MessageKind::Response { id }
        },
        None => if has_method {
            MessageKind::Notification
        } else {
            MessageKind::Unroutable
        },
    }
}

/// The id of a message: its member `id`, if that is a non-negative integer.
pub open spec fn message_id(message: Json) -> Option<u64> {
    match message.get("id"@) {
        Some(id) => id.as_u64(),
        None => None,
    }
}

/// The method of a message: the text of its member `method`, or the empty
/// text where it has none.
pub open spec fn method_name(message: Json) -> Seq<char> {
    match message.get("method"@) {
        Some(method) => match method.as_text() {
            Some(name) => name,
            None => Seq::empty(),
        },
        None => Seq::empty(),
    }
}

/// Whether a message carries a result or an error.
pub open spec fn has_outcome(message: Json) -> bool {
    message.has("result"@) || message.has("error"@)
}

/// The kind of a message.
pub open spec fn message_kind(message: Json) -> MessageKind {
    kind_of(message_id(message), message.has("method"@), has_outcome(message))
}

/// `n` where it is positive.
pub open spec fn positive(n: Option<i64>) -> Option<i64> {
    match n {
        Some(count) => if count > 0 {
            Some(count)
        } else {
            None
        },
        None => None,
    }
}

/// The integer behind an optional member.
pub open spec fn integer_of(member: Option<Json>) -> Option<i64> {
    match member {
        Some(value) => value.as_i64(),
        None => None,
    }
}

/// The token delta of a token-usage notification: the positive integer at
/// `params.tokenUsage.last.totalTokens`, each name also in snake case.
pub open spec fn token_delta(message: Json) -> Option<i64> {
    match message.get("params"@) {
        Some(params) => match params.get_either("tokenUsage"@, "token_usage"@) {
            Some(usage) => match usage.get_either("last"@, "last_usage"@) {
                Some(last) => positive(
                    integer_of(last.get_either("totalTokens"@, "total_tokens"@)),
                ),
                None => None,
            },
            None => None,
        },
        None => None,
    }
}

/// The text behind an optional member.
pub open spec fn text_of_member(member: Option<Json>) -> Option<Seq<char>> {
    match member {
        Some(value) => value.as_text(),
        None => None,
    }
}

/// The token count of one entry of a session log: the positive integer at
/// `payload.info.last_token_usage.total_tokens` of an entry of type
/// `event_msg` whose payload is of type `token_count`.
pub open spec fn rollout_tokens(entry: Json) -> Option<i64> {
    if text_of_member(entry.get("type"@)) != Some("event_msg"@) {
        None
    } else {
        match entry.get("payload"@) {
            Some(payload) => if text_of_member(payload.get("type"@)) != Some("token_count"@) {
                None
            } else {
                match payload.get("info"@) {
                    Some(info) => match info.get_either("last_token_usage"@, "lastTokenUsage"@) {
                        Some(last) => positive(
                            integer_of(last.get_either("total_tokens"@, "totalTokens"@)),
                        ),
                        None => None,
                    },
                    None => None,
                }
            },
            None => None,
        }
    }
}

/// The first of two readings of a number that gives one.
pub open spec fn first_reading(exact: Option<i64>, rounded: Option<i64>) -> Option<i64> {
    match exact {
        Some(n) => Some(n),
        None => rounded,
    }
}

/// A number brought to an integer by rounding: the nearest integer, halves
/// away from zero, held to the range of `i64`.
pub open spec fn rounded_number(value: Json) -> Option<i64> {
    match value.as_bits() {
        Some(bits) => Some(rounded_double(bits)),
        None => None,
    }
}

/// A percentage: an integer as it stands, any other number rounded.
pub open spec fn used_percent(value: Json) -> Option<i64> {
    first_reading(value.as_i64(), rounded_number(value))
}

/// The window with the given parts, if it has a percentage.
pub open spec fn window_with(
    used: Option<i64>,
    window_duration_mins: Option<i64>,
    resets_at: Option<i64>,
) -> Option<RateLimitWindow> {
    match used {
        Some(used_percent) => Some(RateLimitWindow { used_percent, window_duration_mins, resets_at }),
        None => None,
    }
}

/// The quota window that a document describes. It needs a percentage under
/// `usedPercent`; `windowDurationMins` and `resetsAt` are taken where they
/// are integers. Each name is also read in snake case.
pub open spec fn rate_limit_window(value: Json) -> Option<RateLimitWindow> {
    window_with(
        match value.get_either("usedPercent"@, "used_percent"@) {
            Some(percent) => used_percent(percent),
            None => None,
        },
        integer_of(value.get_either("windowDurationMins"@, "window_duration_mins"@)),
        integer_of(value.get_either("resetsAt"@, "resets_at"@)),
    )
}

/// The window behind an optional member.
pub open spec fn window_of(member: Option<Json>) -> Option<RateLimitWindow> {
    match member {
        Some(value) => rate_limit_window(value),
        None => None,
    }
}

/// The rate limits that a container holds under `rateLimits` or
/// `rate_limits`: the windows under `primary` and `secondary`, each absent
/// where it is missing or cannot be read.
pub open spec fn rate_limits(container: Json) -> Option<RateLimitSnapshot> {
    match container.get_either("rateLimits"@, "rate_limits"@) {
        Some(limits) => Some(
            RateLimitSnapshot {
                primary: window_of(limits.get("primary"@)),
                secondary: window_of(limits.get("secondary"@)),
            },
        ),
        None => None,
    }
}

/// What one line of a server's output holds, as content.
pub enum Decoded {
    Blank,
    Message(Json),
    Malformed { raw: Seq<char> },
}

/// What a line holds: nothing where it is blank, the message where it is a
/// JSON document, and else the line itself, for the diagnostic.
pub open spec fn decoded(line: Seq<char>) -> Decoded {
    if is_blank(line) {
        Decoded::Blank
    } else {
        match json_parsed(line) {
            Some(message) => Decoded::Message(message),
            None => Decoded::Malformed { raw: line },
        }
    }
}

/// What a run of lines holds, line by line.
pub open spec fn decoded_all(lines: Seq<Seq<char>>) -> Seq<Decoded> {
    lines.map_values(|line: Seq<char>| decoded(line))
}

/// A line that cannot be read gives one diagnostic and harms no other line:
/// every line of a stream is read for itself, so that the lines after a
/// malformed one give what they would give without it.
pub proof fn law_malformed_lines_are_contained(
    before: Seq<Seq<char>>,
    bad: Seq<char>,
    after: Seq<Seq<char>>,
)
    requires
        !is_blank(bad),
        json_parsed(bad) is None,
    ensures
        decoded_all(before + seq![bad] + after) == decoded_all(before) + seq![
            Decoded::Malformed { raw: bad },
        ] + decoded_all(after),
{
    assert(decoded_all(before + seq![bad] + after) =~= decoded_all(before) + seq![
        Decoded::Malformed { raw: bad },
    ] + decoded_all(after));
}

/// What a message means for the usage ledger.
pub open spec fn usage_effect_of(message: Json) -> UsageEffect {
    if method_name(message) == "thread/tokenUsage/updated"@ {
        match token_delta(message) {
            Some(tokens) => UsageEffect::Tokens(tokens),
            None => UsageEffect::Nothing,
        }
    } else if method_name(message) == "account/rateLimits/updated"@ {
        match message.get("params"@) {
            Some(params) => match rate_limits(params) {
                Some(limits) => UsageEffect::RateLimits(limits),
                None => UsageEffect::Nothing,
            },
            None => UsageEffect::Nothing,
        }
    } else {
        UsageEffect::Nothing
    }
}

/// A request: an object with the members `id`, `method` and `params`, and no
/// others.
pub open spec fn is_request(message: Json, id: u64, method: Seq<char>, params: Json) -> bool {
    &&& message matches Json::Object(members)
    &&& members.dom() =~= set!["id"@, "method"@, "params"@]
    &&& members["id"@].is_integer(id as int)
    &&& members["method"@] == Json::Text(method)
    &&& members["params"@] == params
}

/// A notification: an object with the member `method`, the member `params`
/// where there are parameters, and no others.
pub open spec fn is_notification(message: Json, method: Seq<char>, params: Option<Json>) -> bool {
    &&& message matches Json::Object(members)
    &&& members.contains_key("method"@)
    &&& members["method"@] == Json::Text(method)
    &&& match params {
        Some(sent) => members.dom() =~= set!["method"@, "params"@] && members["params"@] == sent,
        None => members.dom() =~= set!["method"@],
    }
}

/// A reply to a call from the server: an object with the members `id` and
/// `result`, and no others.
pub open spec fn is_response(message: Json, id: u64, result: Json) -> bool {
    &&& message matches Json::Object(members)
    &&& members.dom() =~= set!["id"@, "result"@]
    &&& members["id"@].is_integer(id as int)
    &&& members["result"@] == result
}

/// The names of the fields that decide the kind of a message are five
/// different texts.
pub proof fn lemma_field_names_differ()
    ensures
        "id"@ != "method"@,
        "id"@ != "params"@,
        "id"@ != "result"@,
        "id"@ != "error"@,
        "method"@ != "params"@,
        "method"@ != "result"@,
        "method"@ != "error"@,
        "params"@ != "result"@,
        "params"@ != "error"@,
        "result"@ != "error"@,
{
    reveal_strlit("id");
    reveal_strlit("method");
    reveal_strlit("params");
    reveal_strlit("result");
    reveal_strlit("error");
    assert("id"@.len() == 2);
    assert("error"@.len() == 5);
    assert("method"@[0] == 'm');
    assert("params"@[0] == 'p');
    assert("result"@[0] == 'r');
}

/// What is sent comes back as what it is: a request reads as a call that
/// waits under its id, a notification as a notification, and a reply as the
/// response to its id.
pub proof fn law_outbound_shapes_are_told_apart(
    message: Json,
    id: u64,
    method: Seq<char>,
    params: Json,
    optional: Option<Json>,
)
    ensures
        is_request(message, id, method, params) ==> message_kind(message)
            == (MessageKind::ServerCall { id }) && method_name(message) == method,
        is_notification(message, method, optional) ==> message_kind(message)
            == MessageKind::Notification && method_name(message) == method,
        is_response(message, id, params) ==> message_kind(message) == (MessageKind::Response {
            id,
        }),
{
    lemma_field_names_differ();
    if is_request(message, id, method, params) {
        let members = message->Object_0;
        assert(members.dom().contains("id"@));
        assert(members.dom().contains("method"@));
        assert(!members.dom().contains("result"@));
        assert(!members.dom().contains("error"@));
    }
    if is_notification(message, method, optional) {
        let members = message->Object_0;
        assert(!members.dom().contains("id"@));
        assert(!members.dom().contains("result"@));
        assert(!members.dom().contains("error"@));
    }
    if is_response(message, id, params) {
        let members = message->Object_0;
        assert(members.dom().contains("id"@));
        assert(members.dom().contains("result"@));
    }
}

/// Sorting a message takes its id and the presence of three fields, nothing
/// else: with an id, a result or an error makes it a response, else a method
/// makes it a call from the server, and with neither it is still taken for a
/// response; without an id, a method makes it a notification.
pub fn sort_message(id: Option<u64>, has_method: bool, has_outcome: bool) -> (kind: MessageKind)
    ensures
        kind == kind_of(id, has_method, has_outcome),
{
    match id {
        Some(id) => if has_outcome {
            MessageKind::Response { id }
        } else if has_method {
            MessageKind::ServerCall { id }
        } else {
            MessageKind::Response { id }
        },
        None => if has_method {
            MessageKind::Notification
        } else {
            MessageKind::Unroutable
        },
    }
}

/// The kind of an inbound message.
pub fn classify(message: &Value) -> (kind: MessageKind)
    ensures
        kind == message_kind(json_model(*message)),
{
    let id = match member(message, "id") {
        Some(id) => id.as_u64(),
        None => None,
    };
    let has_method = member(message, "method").is_some();
    let has_outcome = member(message, "result").is_some() || member(message, "error").is_some();
    sort_message(id, has_method, has_outcome)
}

/// The member under `key`, or else the member under `alias`.
fn member_either<'a>(value: &'a Value, key: &str, alias: &str) -> (found: Option<&'a Value>)
    ensures
        match found {
            Some(inner) => json_model(*value).get_either(key@, alias@) == Some(json_model(*inner)),
            None => json_model(*value).get_either(key@, alias@) is None,
        },
{
    match member(value, key) {
        Some(inner) => Some(inner),
        None => member(value, alias),
    }
}

/// A count of tokens counts only where it is positive.
pub fn positive_count(count: Option<i64>) -> (kept: Option<i64>)
    ensures
        kept == positive(count),
{
    match count {
        Some(n) => if n > 0 {
            Some(n)
        } else {
            None
        },
        None => None,
    }
}

fn integer_member(found: Option<&Value>) -> (n: Option<i64>)
    ensures
        n == integer_of(
            match found {
                Some(inner) => Some(json_model(*inner)),
                None => None,
            },
        ),
{
    match found {
        Some(inner) => inner.as_i64(),
        None => None,
    }
}

/// The token delta that a token-usage notification reports, if it reports a
/// positive one.
pub fn extract_app_server_token_delta(message: &Value) -> (delta: Option<i64>)
    ensures
        delta == token_delta(json_model(*message)),
        delta matches Some(tokens) ==> tokens > 0,
{
    let params = match member(message, "params") {
        Some(params) => params,
        None => {
            return None;
        },
    };
    let usage = match member_either(params, "tokenUsage", "token_usage") {
        Some(usage) => usage,
        None => {
            return None;
        },
    };
    let last = match member_either(usage, "last", "last_usage") {
        Some(last) => last,
        None => {
            return None;
        },
    };
    positive_count(integer_member(member_either(last, "totalTokens", "total_tokens")))
}

/// Whether the member under `key` is a string with the text `expected`.
fn member_is_text(value: &Value, key: &str, expected: &str) -> (same: bool)
    ensures
        same == (text_of_member(json_model(*value).get(key@)) == Some(expected@)),
{
    match member(value, key) {
        Some(inner) => match inner.as_str() {
            Some(found) => text_eq(found, expected),
            None => false,
        },
        None => false,
    }
}

/// The token count that one entry of a session log reports, if it is a
/// token-count event with a positive count.
pub fn parse_token_count_from_rollout(value: &Value) -> (count: Option<i64>)
    ensures
        count == rollout_tokens(json_model(*value)),
        count matches Some(tokens) ==> tokens > 0,
{
    if !member_is_text(value, "type", "event_msg") {
        return None;
    }
    let payload = match member(value, "payload") {
        Some(payload) => payload,
        None => {
            return None;
        },
    };
    if !member_is_text(payload, "type", "token_count") {
        return None;
    }
    let info = match member(payload, "info") {
        Some(info) => info,
        None => {
            return None;
        },
    };
    let last = match member_either(info, "last_token_usage", "lastTokenUsage") {
        Some(last) => last,
        None => {
            return None;
        },
    };
    positive_count(integer_member(member_either(last, "total_tokens", "totalTokens")))
}

/// A number that was read twice, as an exact integer and rounded: the exact
/// reading counts where there is one.
pub fn prefer_exact(exact: Option<i64>, rounded: Option<i64>) -> (reading: Option<i64>)
    ensures
        reading == first_reading(exact, rounded),
{
    match exact {
        Some(n) => Some(n),
        None => rounded,
    }
}

/// The percentage that a document gives: an integer as it stands, any other
/// number rounded to the nearest integer.
pub fn parse_used_percent(value: &Value) -> (percent: Option<i64>)
    ensures
        percent == used_percent(json_model(*value)),
{
    let exact = value.as_i64();
    if exact.is_some() {
        return exact;
    }
    let rounded = match double_bits(value) {
        Some(bits) => Some(round_double(bits)),
        None => None,
    };
    prefer_exact(exact, rounded)
}

/// The quota window with the given parts. Without a percentage there is no
/// window.
pub fn rate_limit_window_of(
    used: Option<i64>,
    window_duration_mins: Option<i64>,
    resets_at: Option<i64>,
) -> (window: Option<RateLimitWindow>)
    ensures
        window == window_with(used, window_duration_mins, resets_at),
{
    match used {
        Some(used_percent) => Some(RateLimitWindow { used_percent, window_duration_mins, resets_at }),
        None => None,
    }
}

/// The quota window that a document describes, if it gives a percentage.
pub fn parse_rate_limit_window(value: &Value) -> (window: Option<RateLimitWindow>)
    ensures
        window == rate_limit_window(json_model(*value)),
{
    let used = match member_either(value, "usedPercent", "used_percent") {
        Some(percent) => parse_used_percent(percent),
        None => None,
    };
    if used.is_none() {
        return None;
    }
    let window_duration_mins = integer_member(
        member_either(value, "windowDurationMins", "window_duration_mins"),
    );
    let resets_at = integer_member(member_either(value, "resetsAt", "resets_at"));
    rate_limit_window_of(used, window_duration_mins, resets_at)
}

fn window_member(found: Option<&Value>) -> (window: Option<RateLimitWindow>)
    ensures
        window == window_of(
            match found {
                Some(inner) => Some(json_model(*inner)),
                None => None,
            },
        ),
{
    match found {
        Some(inner) => parse_rate_limit_window(inner),
        None => None,
    }
}

/// The rate limits that a container holds, if it holds any.
pub fn parse_rate_limits_from_container(container: &Value) -> (limits: Option<RateLimitSnapshot>)
    ensures
        limits == rate_limits(json_model(*container)),
{
    let inner = match member_either(container, "rateLimits", "rate_limits") {
        Some(inner) => inner,
        None => {
            return None;
        },
    };
    let primary = window_member(member(inner, "primary"));
    let secondary = window_member(member(inner, "secondary"));
    Some(RateLimitSnapshot { primary, secondary })
}

/// Whether the method of a message is `expected`.
fn method_is(message: &Value, expected: &str) -> (same: bool)
    ensures
        same == (method_name(json_model(*message)) == expected@),
{
    proof {
        reveal_strlit("");
        assert(""@ =~= Seq::<char>::empty());
    }
    match member(message, "method") {
        Some(method) => match method.as_str() {
            Some(name) => text_eq(name, expected),
            None => text_eq("", expected),
        },
        None => text_eq("", expected),
    }
}

/// What an inbound message means for the usage ledger: a token-usage
/// notification with a positive delta is tokens to record, a rate-limits
/// notification that holds rate limits is rate limits to record, and every
/// other message is nothing.
pub fn usage_effect(message: &Value) -> (effect: UsageEffect)
    ensures
        effect == usage_effect_of(json_model(*message)),
        effect matches UsageEffect::Tokens(tokens) ==> tokens > 0,
{
    if method_is(message, "thread/tokenUsage/updated") {
        match extract_app_server_token_delta(message) {
            Some(tokens) => UsageEffect::Tokens(tokens),
            None => UsageEffect::Nothing,
        }
    } else if method_is(message, "account/rateLimits/updated") {
        match member(message, "params") {
            Some(params) => match parse_rate_limits_from_container(params) {
                Some(limits) => UsageEffect::RateLimits(limits),
                None => UsageEffect::Nothing,
            },
            None => UsageEffect::Nothing,
        }
    } else {
        UsageEffect::Nothing
    }
}

/// Reads one line of a server's output. A line of white space is nothing, a
/// line that holds a JSON document is that message, and any other line is
/// handed on as it came, with the parser's complaint: a line that cannot be
/// read never stops the stream.
pub fn decode_line(line: &str) -> (inbound: Inbound)
    ensures
        inbound@ == decoded(line@),
{
    if blank(line) {
        return Inbound::Blank;
    }
    match parse(line) {
        Ok(message) => Inbound::Message(message),
        Err(error) => Inbound::Malformed { raw: line.to_owned(), error: error_text(&error) },
    }
}

/// The request `{id, method, params}`.
pub fn request_message(id: u64, method: &str, params: Value) -> (message: Value)
    ensures
        is_request(json_model(message), id, method@, json_model(params)),
{
    proof {
        lemma_field_names_differ();
    }
    let message = with_member(object(), "id", unsigned(id));
    let message = with_member(message, "method", text(method));
    with_member(message, "params", params)
}

/// The notification `{method}`, with `params` where there are any.
pub fn notification_message(method: &str, params: Option<Value>) -> (message: Value)
    ensures
        is_notification(
            json_model(message),
            method@,
            match params {
                Some(sent) => Some(json_model(sent)),
                None => None,
            },
        ),
{
    proof {
        lemma_field_names_differ();
    }
    let message = with_member(object(), "method", text(method));
    match params {
        Some(sent) => with_member(message, "params", sent),
        None => message,
    }
}

/// The reply `{id, result}` to a call from the server.
pub fn response_message(id: u64, result: Value) -> (message: Value)
    ensures
        is_response(json_model(message), id, json_model(result)),
{
    proof {
        lemma_field_names_differ();
    }
    let message = with_member(object(), "id", unsigned(id));
    with_member(message, "result", result)
}

/// The line that carries a message: the compact text of the message with a
/// newline at its end; nothing for a message that has no such text.
pub open spec fn framed(message: Value) -> Option<Seq<char>> {
    match json_text(message) {
        Some(rendered) => Some(rendered.push('\n')),
        None => None,
    }
}

/// Ends a rendered message with the newline that makes it a line.
pub fn end_line(rendered: String) -> (line: String)
    ensures
        line@ == rendered@.push('\n'),
{
    let mut line = rendered;
    line.push('\n');
    line
}

/// The line that carries `message`: its compact JSON text and one newline.
/// A message is framed exactly where its text can be made; where it cannot,
/// the error is the renderer's complaint.
pub fn frame(message: &Value) -> (line: Result<String, String>)
    ensures
        match line {
            Ok(sent) => framed(*message) == Some(sent@),
            Err(_) => framed(*message) is None,
        },
{
    match render(message) {
        Ok(rendered) => Ok(end_line(rendered)),
        Err(error) => Err(error_text(&error)),
    }
}

} // verus!
