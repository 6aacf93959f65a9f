use codexola::usage::{RateLimitSnapshot, RateLimitWindow};
use codexola::wire::{
    classify, decode_line, end_line, extract_app_server_token_delta, frame, notification_message,
    parse_rate_limit_window, parse_rate_limits_from_container, parse_token_count_from_rollout,
    parse_used_percent, positive_count, request_message, response_message, sort_message,
    usage_effect, Inbound, MessageKind, UsageEffect,
};
use serde_json::Value;

fn json(text: &str) -> Value {
    serde_json::from_str(text).unwrap()
}

#[test]
fn sorting_goes_by_id_method_and_outcome() {
    assert_eq!(sort_message(Some(3), false, true), MessageKind::Response { id: 3 });
    assert_eq!(sort_message(Some(3), true, true), MessageKind::Response { id: 3 });
    assert_eq!(sort_message(Some(3), true, false), MessageKind::ServerCall { id: 3 });
    assert_eq!(sort_message(Some(3), false, false), MessageKind::Response { id: 3 });
    assert_eq!(sort_message(None, true, false), MessageKind::Notification);
    assert_eq!(sort_message(None, true, true), MessageKind::Notification);
    assert_eq!(sort_message(None, false, true), MessageKind::Unroutable);
    assert_eq!(sort_message(None, false, false), MessageKind::Unroutable);
}

#[test]
fn classify_reads_the_fields_of_a_message() {
    assert_eq!(classify(&json("{\"id\":5,\"result\":null}")), MessageKind::Response { id: 5 });
    assert_eq!(classify(&json("{\"id\":5,\"error\":{}}")), MessageKind::Response { id: 5 });
    assert_eq!(
        classify(&json("{\"id\":5,\"method\":\"m\",\"result\":1}")),
        MessageKind::Response { id: 5 }
    );
    assert_eq!(classify(&json("{\"id\":5,\"method\":\"m\"}")), MessageKind::ServerCall { id: 5 });
    assert_eq!(classify(&json("{\"id\":5}")), MessageKind::Response { id: 5 });
    assert_eq!(classify(&json("{\"method\":\"m\"}")), MessageKind::Notification);
    assert_eq!(classify(&json("{\"method\":null}")), MessageKind::Notification);
    assert_eq!(classify(&json("{}")), MessageKind::Unroutable);
    assert_eq!(classify(&json("17")), MessageKind::Unroutable);
}

#[test]
fn id_counts_only_as_a_non_negative_integer() {
    assert_eq!(classify(&json("{\"id\":0,\"result\":1}")), MessageKind::Response { id: 0 });
    assert_eq!(
        classify(&json("{\"id\":18446744073709551615,\"result\":1}")),
        MessageKind::Response { id: u64::MAX }
    );
    assert_eq!(classify(&json("{\"id\":-1,\"method\":\"m\"}")), MessageKind::Notification);
    assert_eq!(classify(&json("{\"id\":1.0,\"method\":\"m\"}")), MessageKind::Notification);
    assert_eq!(classify(&json("{\"id\":\"1\",\"method\":\"m\"}")), MessageKind::Notification);
    assert_eq!(classify(&json("{\"id\":\"1\",\"result\":1}")), MessageKind::Unroutable);
}

#[test]
fn positive_counts_are_kept() {
    assert_eq!(positive_count(Some(1)), Some(1));
    assert_eq!(positive_count(Some(i64::MAX)), Some(i64::MAX));
    assert_eq!(positive_count(Some(0)), None);
    assert_eq!(positive_count(Some(-5)), None);
    assert_eq!(positive_count(None), None);
}

#[test]
fn token_delta_is_read_in_both_spellings() {
    let camel = json("{\"params\":{\"tokenUsage\":{\"last\":{\"totalTokens\":50}}}}");
    assert_eq!(extract_app_server_token_delta(&camel), Some(50));
    let snake = json("{\"params\":{\"token_usage\":{\"last_usage\":{\"total_tokens\":60}}}}");
    assert_eq!(extract_app_server_token_delta(&snake), Some(60));
    let mixed = json("{\"params\":{\"tokenUsage\":{\"last_usage\":{\"totalTokens\":70}}}}");
    assert_eq!(extract_app_server_token_delta(&mixed), Some(70));
}

#[test]
fn first_spelling_wins_where_both_are_there() {
    let both = json(
        "{\"params\":{\"tokenUsage\":{\"last\":{\"totalTokens\":1,\"total_tokens\":2}},\"token_usage\":{\"last\":{\"totalTokens\":3}}}}",
    );
    assert_eq!(extract_app_server_token_delta(&both), Some(1));
    let shadowed = json("{\"params\":{\"tokenUsage\":{\"last\":{\"totalTokens\":null,\"total_tokens\":2}}}}");
    assert_eq!(extract_app_server_token_delta(&shadowed), None);
}

#[test]
fn token_delta_of_zero_or_less_is_nothing() {
    for total in ["0", "-10", "1.5", "\"7\"", "null", "9223372036854775808"] {
        let message =
            json(&format!("{{\"params\":{{\"tokenUsage\":{{\"last\":{{\"totalTokens\":{}}}}}}}}}", total));
        assert_eq!(extract_app_server_token_delta(&message), None, "{}", total);
    }
    assert_eq!(extract_app_server_token_delta(&json("{}")), None);
    assert_eq!(extract_app_server_token_delta(&json("{\"params\":{}}")), None);
    assert_eq!(extract_app_server_token_delta(&json("{\"params\":{\"tokenUsage\":{}}}")), None);
    assert_eq!(
        extract_app_server_token_delta(&json("{\"params\":{\"tokenUsage\":{\"last\":{}}}}")),
        None
    );
}

#[test]
fn rollout_entry_needs_both_types() {
    let entry = json(
        "{\"type\":\"event_msg\",\"payload\":{\"type\":\"token_count\",\"info\":{\"last_token_usage\":{\"total_tokens\":12}}}}",
    );
    assert_eq!(parse_token_count_from_rollout(&entry), Some(12));
    let camel = json(
        "{\"type\":\"event_msg\",\"payload\":{\"type\":\"token_count\",\"info\":{\"lastTokenUsage\":{\"totalTokens\":13}}}}",
    );
    assert_eq!(parse_token_count_from_rollout(&camel), Some(13));
    let other_type = json(
        "{\"type\":\"response_item\",\"payload\":{\"type\":\"token_count\",\"info\":{\"last_token_usage\":{\"total_tokens\":12}}}}",
    );
    assert_eq!(parse_token_count_from_rollout(&other_type), None);
    let other_payload = json(
        "{\"type\":\"event_msg\",\"payload\":{\"type\":\"agent_message\",\"info\":{\"last_token_usage\":{\"total_tokens\":12}}}}",
    );
    assert_eq!(parse_token_count_from_rollout(&other_payload), None);
    let zero = json(
        "{\"type\":\"event_msg\",\"payload\":{\"type\":\"token_count\",\"info\":{\"last_token_usage\":{\"total_tokens\":0}}}}",
    );
    assert_eq!(parse_token_count_from_rollout(&zero), None);
    let no_info = json("{\"type\":\"event_msg\",\"payload\":{\"type\":\"token_count\",\"info\":null}}");
    assert_eq!(parse_token_count_from_rollout(&no_info), None);
    assert_eq!(parse_token_count_from_rollout(&json("{\"type\":7}")), None);
}

#[test]
fn used_percent_is_an_integer_or_a_rounded_number() {
    assert_eq!(parse_used_percent(&json("42")), Some(42));
    assert_eq!(parse_used_percent(&json("-3")), Some(-3));
    assert_eq!(parse_used_percent(&json("12.4")), Some(12));
    assert_eq!(parse_used_percent(&json("12.5")), Some(13));
    assert_eq!(parse_used_percent(&json("-12.5")), Some(-13));
    assert_eq!(parse_used_percent(&json("99.999")), Some(100));
    assert_eq!(parse_used_percent(&json("1e3")), Some(1000));
    assert_eq!(parse_used_percent(&json("18446744073709551615")), Some(i64::MAX));
    assert_eq!(parse_used_percent(&json("\"42\"")), None);
    assert_eq!(parse_used_percent(&json("null")), None);
    assert_eq!(parse_used_percent(&json("true")), None);
}

#[test]
fn rate_limit_window_needs_a_percentage() {
    let full = json("{\"usedPercent\":10,\"windowDurationMins\":300,\"resetsAt\":1700000000}");
    assert_eq!(
        parse_rate_limit_window(&full),
        Some(RateLimitWindow {
            used_percent: 10,
            window_duration_mins: Some(300),
            resets_at: Some(1700000000),
        })
    );
    let snake = json("{\"used_percent\":55.6,\"window_duration_mins\":60,\"resets_at\":5}");
    assert_eq!(
        parse_rate_limit_window(&snake),
        Some(RateLimitWindow { used_percent: 56, window_duration_mins: Some(60), resets_at: Some(5) })
    );
    let bare = json("{\"usedPercent\":0,\"windowDurationMins\":1.5,\"resetsAt\":\"soon\"}");
    assert_eq!(
        parse_rate_limit_window(&bare),
        Some(RateLimitWindow { used_percent: 0, window_duration_mins: None, resets_at: None })
    );
    assert_eq!(parse_rate_limit_window(&json("{\"windowDurationMins\":300}")), None);
    assert_eq!(parse_rate_limit_window(&json("{\"usedPercent\":\"10\"}")), None);
    assert_eq!(parse_rate_limit_window(&json("{\"usedPercent\":null,\"used_percent\":4}")), None);
    assert_eq!(parse_rate_limit_window(&json("[10]")), None);
}

#[test]
fn rate_limits_hold_the_windows_that_can_be_read() {
    let both = json(
        "{\"rateLimits\":{\"primary\":{\"usedPercent\":10},\"secondary\":{\"usedPercent\":20,\"resetsAt\":9}}}",
    );
    assert_eq!(
        parse_rate_limits_from_container(&both),
        Some(RateLimitSnapshot {
            primary: Some(RateLimitWindow {
                used_percent: 10,
                window_duration_mins: None,
                resets_at: None,
            }),
            secondary: Some(RateLimitWindow {
                used_percent: 20,
                window_duration_mins: None,
                resets_at: Some(9),
            }),
        })
    );
    let one = json("{\"rate_limits\":{\"secondary\":{\"used_percent\":20},\"primary\":7}}");
    assert_eq!(
        parse_rate_limits_from_container(&one),
        Some(RateLimitSnapshot {
            primary: None,
            secondary: Some(RateLimitWindow {
                used_percent: 20,
                window_duration_mins: None,
                resets_at: None,
            }),
        })
    );
    assert_eq!(
        parse_rate_limits_from_container(&json("{\"rateLimits\":null}")),
        Some(RateLimitSnapshot { primary: None, secondary: None })
    );
    assert_eq!(parse_rate_limits_from_container(&json("{}")), None);
    assert_eq!(parse_rate_limits_from_container(&json("null")), None);
}

#[test]
fn usage_effect_goes_by_the_method() {
    let tokens = json(
        "{\"method\":\"thread/tokenUsage/updated\",\"params\":{\"tokenUsage\":{\"last\":{\"totalTokens\":5}}}}",
    );
    assert_eq!(usage_effect(&tokens), UsageEffect::Tokens(5));
    let noise = json(
        "{\"method\":\"thread/tokenUsage/updated\",\"params\":{\"tokenUsage\":{\"last\":{\"totalTokens\":-5}}}}",
    );
    assert_eq!(usage_effect(&noise), UsageEffect::Nothing);
    let limits = json(
        "{\"method\":\"account/rateLimits/updated\",\"params\":{\"rateLimits\":{\"primary\":{\"usedPercent\":10}}}}",
    );
    assert_eq!(
        usage_effect(&limits),
        UsageEffect::RateLimits(RateLimitSnapshot {
            primary: Some(RateLimitWindow {
                used_percent: 10,
                window_duration_mins: None,
                resets_at: None,
            }),
            secondary: None,
        })
    );
    let no_params = json("{\"method\":\"account/rateLimits/updated\"}");
    assert_eq!(usage_effect(&no_params), UsageEffect::Nothing);
    let other = json("{\"method\":\"turn/completed\",\"params\":{\"tokenUsage\":{\"last\":{\"totalTokens\":5}}}}");
    assert_eq!(usage_effect(&other), UsageEffect::Nothing);
    let no_method = json("{\"params\":{\"tokenUsage\":{\"last\":{\"totalTokens\":5}}}}");
    assert_eq!(usage_effect(&no_method), UsageEffect::Nothing);
    let odd_method = json("{\"method\":7,\"params\":{\"tokenUsage\":{\"last\":{\"totalTokens\":5}}}}");
    assert_eq!(usage_effect(&odd_method), UsageEffect::Nothing);
}

#[test]
fn lines_are_decoded_one_by_one() {
    assert!(matches!(decode_line(""), Inbound::Blank));
    assert!(matches!(decode_line(" \t "), Inbound::Blank));
    match decode_line("{\"id\":1}") {
        Inbound::Message(message) => assert_eq!(message, json("{\"id\":1}")),
        _ => panic!("a JSON line is a message"),
    }
    match decode_line("  [1, 2]\r") {
        Inbound::Message(message) => assert_eq!(message, json("[1,2]")),
        _ => panic!("white space around a message is allowed"),
    }
    match decode_line("{not json") {
        Inbound::Malformed { raw, error } => {
            assert_eq!(raw, "{not json");
            assert!(!error.is_empty());
        }
        _ => panic!("a line that is no JSON is malformed"),
    }
    match decode_line("{\"a\":1} trailing") {
        Inbound::Malformed { raw, .. } => assert_eq!(raw, "{\"a\":1} trailing"),
        _ => panic!("a line with more than one document is malformed"),
    }
}

#[test]
fn outbound_messages_have_their_shape() {
    assert_eq!(
        request_message(9, "thread/start", json("{\"cwd\":\"/w\"}")),
        json("{\"id\":9,\"method\":\"thread/start\",\"params\":{\"cwd\":\"/w\"}}")
    );
    assert_eq!(
        request_message(u64::MAX, "m", json("null")),
        json("{\"id\":18446744073709551615,\"method\":\"m\",\"params\":null}")
    );
    assert_eq!(
        notification_message("initialized", None),
        json("{\"method\":\"initialized\"}")
    );
    assert_eq!(
        notification_message("n", Some(json("[1]"))),
        json("{\"method\":\"n\",\"params\":[1]}")
    );
    assert_eq!(response_message(4, json("true")), json("{\"id\":4,\"result\":true}"));
}

#[test]
fn outbound_messages_read_back_as_what_they_are() {
    assert_eq!(
        classify(&request_message(9, "m", json("{}"))),
        MessageKind::ServerCall { id: 9 }
    );
    assert_eq!(classify(&notification_message("m", None)), MessageKind::Notification);
    assert_eq!(classify(&response_message(9, json("{}"))), MessageKind::Response { id: 9 });
}

#[test]
fn frame_is_one_line_of_json() {
    let message = request_message(1, "say", json("{\"text\":\"two\\nlines\"}"));
    let line = frame(&message).unwrap();
    assert!(line.ends_with('\n'));
    assert_eq!(line.matches('\n').count(), 1);
    assert_eq!(&line[..line.len() - 1], serde_json::to_string(&message).unwrap());
    match decode_line(&line) {
        Inbound::Message(back) => assert_eq!(back, message),
        _ => panic!("a frame is read back as its message"),
    }
}

#[test]
fn end_line_appends_one_newline() {
    assert_eq!(end_line("{}".to_string()), "{}\n");
    assert_eq!(end_line(String::new()), "\n");
}
