use codexola::session::{initialize_params, Delivery, Phase, Received, Session, SessionError};
use codexola::wire::UsageEffect;
use serde_json::Value;

fn json(text: &str) -> Value {
    serde_json::from_str(text).unwrap()
}

fn ready() -> Session<&'static str> {
    let mut session = Session::new();
    let outbound = session.begin_initialize("init").unwrap();
    let answer = json(&format!("{{\"id\":{},\"result\":{{}}}}", outbound.id));
    assert!(matches!(session.route(answer), Delivery::Fulfil { slot: "init", .. }));
    session.complete_initialize().unwrap();
    session
}

#[test]
fn new_session_starts_at_id_one() {
    let session: Session<u8> = Session::new();
    assert_eq!(session.next_id(), 1);
    assert_eq!(session.phase(), Phase::Spawned);
    assert_eq!(session.pending_count(), 0);
    assert!(!session.is_pending(1));
}

#[test]
fn handshake_sends_initialize_then_initialized() {
    let mut session: Session<&str> = Session::new();
    let outbound = session.begin_initialize("slot").unwrap();
    assert_eq!(outbound.id, 1);
    assert_eq!(
        outbound.message,
        json(
            "{\"id\":1,\"method\":\"initialize\",\"params\":{\"clientInfo\":{\"name\":\"codexola\",\"title\":\"Codexola\",\"version\":\"0.1.0\"}}}"
        )
    );
    assert_eq!(session.phase(), Phase::Initializing { id: 1 });
    assert!(session.is_pending(1));

    // the notification is not handed out while the response is awaited
    assert_eq!(session.complete_initialize().unwrap_err(), SessionError::WrongPhase);

    let delivery = session.route(json("{\"id\":1,\"result\":{\"ok\":true}}"));
    match delivery {
        Delivery::Fulfil { id, slot, message } => {
            assert_eq!(id, 1);
            assert_eq!(slot, "slot");
            assert_eq!(message, json("{\"id\":1,\"result\":{\"ok\":true}}"));
        }
        _ => panic!("the response to initialize is delivered"),
    }
    let notification = session.complete_initialize().unwrap();
    assert_eq!(notification, json("{\"method\":\"initialized\"}"));
    assert_eq!(session.phase(), Phase::Ready);
}

#[test]
fn initialize_params_name_the_client() {
    assert_eq!(
        initialize_params(),
        json("{\"clientInfo\":{\"name\":\"codexola\",\"title\":\"Codexola\",\"version\":\"0.1.0\"}}")
    );
}

#[test]
fn requests_before_the_handshake_are_refused() {
    let mut session: Session<u8> = Session::new();
    let refused = session.begin_request("thread/start", json("{}"), 1);
    assert_eq!(refused.err(), Some(SessionError::WrongPhase));
    assert_eq!(session.notification("x", None).unwrap_err(), SessionError::WrongPhase);
    assert_eq!(session.response(1, json("null")).unwrap_err(), SessionError::WrongPhase);
    assert_eq!(session.next_id(), 1);
    assert_eq!(session.pending_count(), 0);
}

#[test]
fn second_handshake_is_refused() {
    let mut session = ready();
    assert_eq!(session.begin_initialize("again").err(), Some(SessionError::WrongPhase));
    assert_eq!(session.complete_initialize().unwrap_err(), SessionError::WrongPhase);
    assert_eq!(session.phase(), Phase::Ready);
}

#[test]
fn request_ids_increase_strictly() {
    let mut session = ready();
    let mut last = 1;
    for slot in ["a", "b", "c", "d"] {
        let outbound = session.begin_request("model/list", json("{}"), slot).unwrap();
        assert!(outbound.id > last);
        assert_eq!(outbound.id, last + 1);
        last = outbound.id;
        if outbound.id % 2 == 0 {
            // answering in between does not give an id out again
            session.route(json(&format!("{{\"id\":{},\"result\":1}}", outbound.id)));
        }
    }
    assert_eq!(session.next_id(), 6);
}

#[test]
fn request_message_carries_id_method_and_params() {
    let mut session = ready();
    let outbound =
        session.begin_request("thread/resume", json("{\"threadId\":\"t-1\"}"), "slot").unwrap();
    assert_eq!(outbound.id, 2);
    assert_eq!(
        outbound.message,
        json("{\"id\":2,\"method\":\"thread/resume\",\"params\":{\"threadId\":\"t-1\"}}")
    );
    assert!(session.is_pending(2));
    assert_eq!(session.pending_count(), 1);
}

#[test]
fn responses_are_matched_by_id_in_any_order() {
    let mut session = ready();
    let a = session.begin_request("m", json("1"), "a").unwrap().id;
    let b = session.begin_request("m", json("2"), "b").unwrap().id;
    let c = session.begin_request("m", json("3"), "c").unwrap().id;
    for (id, expected) in [(c, "c"), (a, "a"), (b, "b")] {
        let text = format!("{{\"id\":{},\"result\":\"for {}\"}}", id, expected);
        match session.route(json(&text)) {
            Delivery::Fulfil { id: answered, slot, message } => {
                assert_eq!(answered, id);
                assert_eq!(slot, expected);
                assert_eq!(message, json(&text));
            }
            _ => panic!("a waiting request gets its response"),
        }
    }
    assert_eq!(session.pending_count(), 0);
}

#[test]
fn error_responses_are_delivered_like_results() {
    let mut session = ready();
    let id = session.begin_request("m", json("{}"), "slot").unwrap().id;
    let text = format!("{{\"id\":{},\"error\":{{\"code\":-1}}}}", id);
    assert!(matches!(session.route(json(&text)), Delivery::Fulfil { slot: "slot", .. }));
}

#[test]
fn second_response_to_an_id_is_dropped() {
    let mut session = ready();
    let id = session.begin_request("m", json("{}"), "slot").unwrap().id;
    let text = format!("{{\"id\":{},\"result\":1}}", id);
    assert!(matches!(session.route(json(&text)), Delivery::Fulfil { .. }));
    assert!(matches!(session.route(json(&text)), Delivery::Dropped));
    assert!(matches!(session.route(json("{\"id\":999,\"result\":1}")), Delivery::Dropped));
}

#[test]
fn server_calls_and_notifications_are_forwarded() {
    let mut session = ready();
    let call = json("{\"id\":7,\"method\":\"approval/request\",\"params\":{}}");
    match session.route(call.clone()) {
        Delivery::Forward { message } => assert_eq!(message, call),
        _ => panic!("a call from the server is forwarded"),
    }
    let note = json("{\"method\":\"turn/completed\"}");
    match session.route(note.clone()) {
        Delivery::Forward { message } => assert_eq!(message, note),
        _ => panic!("a notification is forwarded"),
    }
}

#[test]
fn server_call_does_not_take_a_waiting_request() {
    let mut session = ready();
    let id = session.begin_request("m", json("{}"), "slot").unwrap().id;
    let call = json(&format!("{{\"id\":{},\"method\":\"approval/request\"}}", id));
    assert!(matches!(session.route(call), Delivery::Forward { .. }));
    assert!(session.is_pending(id));
}

#[test]
fn bare_id_is_taken_for_a_response() {
    let mut session = ready();
    let id = session.begin_request("m", json("{}"), "slot").unwrap().id;
    let bare = json(&format!("{{\"id\":{}}}", id));
    assert!(matches!(session.route(bare), Delivery::Fulfil { slot: "slot", .. }));
    assert!(matches!(session.route(json("{\"id\":12345}")), Delivery::Dropped));
}

#[test]
fn message_without_id_and_method_is_dropped() {
    let mut session = ready();
    assert!(matches!(session.route(json("{\"result\":1}")), Delivery::Dropped));
    assert!(matches!(session.route(json("[1,2]")), Delivery::Dropped));
    assert!(matches!(session.route(json("{\"id\":\"7\"}")), Delivery::Dropped));
    assert!(matches!(session.route(json("{\"id\":-3,\"result\":1}")), Delivery::Dropped));
}

#[test]
fn teardown_cancels_every_waiting_request() {
    let mut session = ready();
    let mut ids = Vec::new();
    for slot in ["a", "b", "c", "d", "e"] {
        ids.push((session.begin_request("m", json("{}"), slot).unwrap().id, slot));
    }
    session.route(json(&format!("{{\"id\":{},\"result\":1}}", ids[1].0)));
    ids.remove(1);

    let mut cancelled = session.teardown();
    cancelled.sort();
    assert_eq!(cancelled, ids);
    assert_eq!(session.pending_count(), 0);
    assert_eq!(session.phase(), Phase::Closed);
    for (id, _) in ids {
        assert!(!session.is_pending(id));
    }
}

#[test]
fn teardown_of_an_idle_session_cancels_nothing() {
    let mut session = ready();
    assert!(session.teardown().is_empty());
    assert!(session.teardown().is_empty());
    assert_eq!(session.phase(), Phase::Closed);
}

#[test]
fn teardown_during_the_handshake_cancels_it() {
    let mut session: Session<&str> = Session::new();
    session.begin_initialize("init").unwrap();
    assert_eq!(session.teardown(), vec![(1, "init")]);
    assert_eq!(session.complete_initialize().unwrap_err(), SessionError::Closed);
}

#[test]
fn closed_session_hands_out_nothing() {
    let mut session = ready();
    session.teardown();
    assert_eq!(session.begin_request("m", json("{}"), "x").err(), Some(SessionError::Closed));
    assert_eq!(session.begin_initialize("x").err(), Some(SessionError::Closed));
    assert_eq!(session.notification("m", None).unwrap_err(), SessionError::Closed);
    assert_eq!(session.response(1, json("1")).unwrap_err(), SessionError::Closed);
    assert!(matches!(session.route(json("{\"id\":2,\"result\":1}")), Delivery::Dropped));
}

#[test]
fn forgotten_request_no_longer_waits() {
    let mut session = ready();
    let id = session.begin_request("m", json("{}"), "slot").unwrap().id;
    assert_eq!(session.forget(id), Some("slot"));
    assert_eq!(session.forget(id), None);
    let late = json(&format!("{{\"id\":{},\"result\":1}}", id));
    assert!(matches!(session.route(late), Delivery::Dropped));
}

#[test]
fn notification_has_no_id() {
    let session = ready();
    assert_eq!(
        session.notification("turn/interrupt", Some(json("{\"a\":1}"))).unwrap(),
        json("{\"method\":\"turn/interrupt\",\"params\":{\"a\":1}}")
    );
    assert_eq!(session.notification("ping", None).unwrap(), json("{\"method\":\"ping\"}"));
    assert_eq!(session.next_id(), 2);
}

#[test]
fn response_to_a_server_call_carries_its_id() {
    let session = ready();
    assert_eq!(
        session.response(41, json("{\"decision\":\"accept\"}")).unwrap(),
        json("{\"id\":41,\"result\":{\"decision\":\"accept\"}}")
    );
}

#[test]
fn malformed_line_gives_one_diagnostic_and_the_next_line_is_read() {
    let mut session = ready();
    let id = session.begin_request("m", json("{}"), "slot").unwrap().id;

    match session.receive_line("{not json") {
        Received::Diagnostic { event } => {
            assert_eq!(event["method"], json("\"parse-error\""));
            assert_eq!(event["params"]["raw"], json("\"{not json\""));
            assert!(!event["params"]["error"].as_str().unwrap().is_empty());
            assert_eq!(event.as_object().unwrap().len(), 2);
            assert_eq!(event["params"].as_object().unwrap().len(), 2);
        }
        _ => panic!("a malformed line gives a diagnostic"),
    }
    assert!(session.is_pending(id));

    let line = format!("{{\"id\":{},\"result\":\"ok\"}}", id);
    match session.receive_line(&line) {
        Received::Message { usage, delivery } => {
            assert_eq!(usage, UsageEffect::Nothing);
            assert!(matches!(delivery, Delivery::Fulfil { slot: "slot", .. }));
        }
        _ => panic!("the line after a malformed one is read"),
    }
}

#[test]
fn blank_lines_are_nothing() {
    let mut session = ready();
    assert!(matches!(session.receive_line(""), Received::Nothing));
    assert!(matches!(session.receive_line("  \t\r"), Received::Nothing));
}

#[test]
fn token_usage_notification_feeds_the_ledger_and_is_forwarded() {
    let mut session = ready();
    let line = "{\"method\":\"thread/tokenUsage/updated\",\"params\":{\"tokenUsage\":{\"last\":{\"totalTokens\":321}}}}";
    match session.receive_line(line) {
        Received::Message { usage, delivery } => {
            assert_eq!(usage, UsageEffect::Tokens(321));
            assert!(matches!(delivery, Delivery::Forward { .. }));
        }
        _ => panic!("a notification is a message"),
    }
}
