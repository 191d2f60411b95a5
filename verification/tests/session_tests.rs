use logtux::session::{Inbound, MyWs, Outbound, SessionState};

const INCORRECT_FORMAT_REPLY: &str = "[\"error\", \"wrong-format\", \"incorrect format, please refer to: https://github.com/logux/logux/tree/master/protocol\"]";

fn send(session: &mut MyWs, text: &str) -> Outbound {
    session.handle(&Inbound::Text(text.to_string()), 2000, 2003)
}

#[test]
fn a_session_starts_out_awaiting_the_handshake() {
    let session = MyWs::new();
    assert_eq!(session.state, SessionState::AwaitingHandshake);
    assert!(!session.is_established());
}

#[test]
fn keep_alive_and_sync_are_refused_before_the_handshake() {
    let cases = [
        ("[\"ping\", 7]", "ping"),
        ("[\"pong\", 7]", "pong"),
        ("[\"sync\", 1, {}, {}]", "sync"),
        ("[\"synced\", 1]", "synced"),
        ("[\"ping\"]", "ping"),
    ];
    for (text, tag) in cases {
        let mut session = MyWs::new();
        assert_eq!(
            send(&mut session, text),
            Outbound::Text(format!("[\"error\", \"missed-auth\", \"{}\"]", tag))
        );
        assert!(!session.is_established());
    }
}

#[test]
fn connect_establishes_the_session() {
    let mut session = MyWs::new();
    assert_eq!(
        send(&mut session, "[\"connect\", 3, \"client:1\", 0]"),
        Outbound::Text("[ \"connected\", 3, \"server:sb7VjwpO\", [1999,2003], null ]".to_string())
    );
    assert!(session.is_established());
    assert_eq!(send(&mut session, "[\"ping\", 7]"), Outbound::Text("[ \"pong\", 7 ]".to_string()));
    assert_eq!(send(&mut session, "[\"pong\", 7]"), Outbound::Nothing);
    assert_eq!(send(&mut session, "[\"sync\", 1, {}, {}]"), Outbound::Nothing);
    assert_eq!(send(&mut session, "[\"synced\", 1]"), Outbound::Nothing);
    assert!(session.is_established());
}

#[test]
fn connected_establishes_the_session() {
    let mut session = MyWs::new();
    assert_eq!(send(&mut session, "[\"connected\", 3, \"server:x\", [1, 2]]"), Outbound::Nothing);
    assert!(session.is_established());
}

#[test]
fn a_malformed_handshake_establishes_nothing() {
    let mut session = MyWs::new();
    assert_eq!(
        send(&mut session, "[\"connect\", 3]"),
        Outbound::Text(
            "[\"error\", \"wrong-format\", \"Invalid connect type, please refer to the documentation.\"]"
                .to_string()
        )
    );
    assert!(!session.is_established());
    assert_eq!(
        send(&mut session, "[\"connected\", 3, \"s\", [1]]"),
        Outbound::Text(
            "[\"error\", \"wrong-format\", \"Invalid connected type, please refer to the documentation.\"]"
                .to_string()
        )
    );
    assert!(!session.is_established());
}

#[test]
fn a_second_connect_is_answered_again() {
    let mut session = MyWs::new();
    send(&mut session, "[\"connect\", 3, \"client:1\", 0]");
    assert_eq!(
        send(&mut session, "[\"connect\", 4, \"client:1\", 9]"),
        Outbound::Text("[ \"connected\", 4, \"server:sb7VjwpO\", [1999,2003], null ]".to_string())
    );
    assert!(session.is_established());
}

#[test]
fn other_kinds_are_dispatched_before_the_handshake() {
    let mut session = MyWs::new();
    assert_eq!(send(&mut session, "[\"debug\", 1]"), Outbound::Nothing);
    assert_eq!(
        send(&mut session, "[\"error\", \"timeout\"]"),
        Outbound::Text("[\"error\",\"wrong-format\"]".to_string())
    );
    assert_eq!(
        send(&mut session, "[\"nonsense\", 1, 2]"),
        Outbound::Text("[\"error\", \"unknown-message\", \"nonsense\"]".to_string())
    );
    assert_eq!(
        send(&mut session, "[]"),
        Outbound::Text("[\"error\", \"wrong-format\", \"array is empty\"]".to_string())
    );
    assert!(!session.is_established());
}

#[test]
fn text_that_is_no_json_array_is_answered_with_wrong_format() {
    for text in ["", "ping", "[\"ping\", ", "{\"a\": 1}", "7", "\"ping\"", "null", "[1] [2]"] {
        let mut session = MyWs::new();
        assert_eq!(
            send(&mut session, text),
            Outbound::Text(INCORRECT_FORMAT_REPLY.to_string()),
            "{:?}",
            text
        );
        assert!(!session.is_established());
    }
}

#[test]
fn a_probe_of_the_transport_is_answered_with_its_payload() {
    let mut session = MyWs::new();
    assert_eq!(
        session.handle(&Inbound::Ping(vec![1, 2, 3]), 5, 6),
        Outbound::Pong(vec![1, 2, 3])
    );
    assert!(!session.is_established());
}

#[test]
fn a_frame_that_is_no_text_is_answered_with_wrong_format() {
    let mut session = MyWs::new();
    assert_eq!(
        session.handle(&Inbound::Other, 5, 6),
        Outbound::Text("[\"error\",\"wrong-format\",\"not an array\"]".to_string())
    );
}

#[test]
fn the_steps_of_a_frame_agree_with_the_whole() {
    let mut by_text = MyWs::new();
    let mut by_json = MyWs::new();
    let mut by_array = MyWs::new();
    let text = "[\"connect\", 3, \"client:1\", 0]";
    let parsed = logtux::json_text::parse_json(text);
    let items = match &parsed {
        Some(logtux::json::JsonValue::Array(items)) => items.clone(),
        _ => panic!("not an array"),
    };
    let a = by_text.on_text(text, 10, 11);
    let b = by_json.on_json(&parsed, 10, 11);
    let c = by_array.on_array(&items, 10, 11);
    assert_eq!(a, b);
    assert_eq!(b, c);
    assert_eq!(a, Some("[ \"connected\", 3, \"server:sb7VjwpO\", [9,11], null ]".to_string()));
    assert!(by_text.is_established() && by_json.is_established() && by_array.is_established());
}

#[test]
fn an_idle_connection_is_told_of_the_timeout_and_closed() {
    let mut session = MyWs::new();
    assert_eq!(
        session.handle(&Inbound::Expired(60000), 5, 6),
        Outbound::Close("[\"error\", \"timeout\", \"60000\"]".to_string())
    );
    assert!(!session.is_established());
    let mut established = MyWs { state: SessionState::Established };
    assert_eq!(
        established.handle(&Inbound::Expired(0), 5, 6),
        Outbound::Close("[\"error\", \"timeout\", \"0\"]".to_string())
    );
    assert!(established.is_established());
}

#[test]
fn a_connect_at_time_zero_is_not_taken() {
    let mut session = MyWs::new();
    let connect = Inbound::Text("[\"connect\", 3, \"client:1\", 0]".to_string());
    assert_eq!(session.deliver(&connect, 0, 5), None);
    assert!(!session.is_established());
    assert_eq!(
        session.deliver(&connect, 1, 5),
        Some(Outbound::Text("[ \"connected\", 3, \"server:sb7VjwpO\", [0,5], null ]".to_string()))
    );
    assert!(session.is_established());
}

#[test]
fn every_other_frame_is_taken_at_time_zero() {
    let mut session = MyWs { state: SessionState::Established };
    assert_eq!(
        session.deliver(&Inbound::Text("[\"ping\", 7]".to_string()), 0, 0),
        Some(Outbound::Text("[ \"pong\", 7 ]".to_string()))
    );
    assert_eq!(
        session.handle(&Inbound::Text("[\"ping\", 7]".to_string()), 0, 0),
        Outbound::Text("[ \"pong\", 7 ]".to_string())
    );
    assert_eq!(
        session.deliver(&Inbound::Text("[\"connect\", 3]".to_string()), 0, 0),
        Some(Outbound::Text(
            "[\"error\", \"wrong-format\", \"Invalid connect type, please refer to the documentation.\"]"
                .to_string()
        ))
    );
    assert_eq!(session.deliver(&Inbound::Text("not json".to_string()), 0, 0), Some(Outbound::Text(INCORRECT_FORMAT_REPLY.to_string())));
    assert_eq!(session.deliver(&Inbound::Ping(vec![9]), 0, 0), Some(Outbound::Pong(vec![9])));
    assert_eq!(
        session.deliver(&Inbound::Other, 0, 0),
        Some(Outbound::Text("[\"error\",\"wrong-format\",\"not an array\"]".to_string()))
    );
    assert_eq!(
        session.deliver(&Inbound::Expired(1), 0, 0),
        Some(Outbound::Close("[\"error\", \"timeout\", \"1\"]".to_string()))
    );
}

#[test]
fn a_tag_with_a_quote_is_refused_in_json() {
    let mut session = MyWs::new();
    assert_eq!(
        session.deliver(&Inbound::Text("[\"pi\\\"ng\", 7]".to_string()), 5, 6),
        Some(Outbound::Text("[\"error\", \"unknown-message\", \"pi\\\"ng\"]".to_string()))
    );
}
