use logtux::domain::messages::connect::{decode_connect_message, ConnectMessage, OptionnalConnectMessage};
use logtux::domain::messages::connected::{
    decode_connected_message, ConnectedMessage, OptionnalConnectedMessage,
};
use logtux::domain::messages::ping::{decode_ping_message, PingMessage};
use logtux::domain::messages::pong::{decode_pong_message, PongMessage};
use logtux::domain::messages::sync::{decode_sync_message, decode_sync_message_with, OddActions};
use logtux::domain::messages::synced::{decode_synced_message, SyncedMessage};
use logtux::json::{JsonNumber, JsonValue};
use logtux::json_text::parse_json;

fn text(s: &str) -> JsonValue {
    JsonValue::String(s.to_string())
}

fn number(n: u64) -> JsonValue {
    JsonValue::Number(JsonNumber::Unsigned(n))
}

fn other_number(s: &str) -> JsonValue {
    JsonValue::Number(JsonNumber::Other(s.to_string()))
}

fn object(members: Vec<(&str, JsonValue)>) -> JsonValue {
    JsonValue::Object(members.into_iter().map(|(k, v)| (k.to_string(), v)).collect())
}

fn elements(json: &str) -> Vec<JsonValue> {
    match parse_json(json) {
        Some(JsonValue::Array(items)) => items,
        other => panic!("not a JSON array: {:?}", other),
    }
}

const INVALID_CONNECT: &str = "Invalid connect type, please refer to the documentation.";
const INVALID_CONNECTED: &str = "Invalid connected type, please refer to the documentation.";
const INVALID_SYNC_TIME: &str = "Invalid sync time format.";

#[test]
fn connect_of_four_elements_has_no_options() {
    let vec = vec![text("connect"), number(3), text("client:abc"), number(17)];
    assert_eq!(
        decode_connect_message(&vec),
        Ok(ConnectMessage {
            protocol: 3,
            node_id: "client:abc".to_string(),
            synced: 17,
            options: None,
        })
    );
}

#[test]
fn connect_holds_the_largest_integers() {
    let vec = vec![text("connect"), number(u64::MAX), text(""), number(0)];
    let message = decode_connect_message(&vec).expect("a connect");
    assert_eq!(message.protocol, u64::MAX);
    assert_eq!(message.node_id, "");
    assert_eq!(message.synced, 0);
    assert_eq!(message.options, None);
}

#[test]
fn connect_with_options_keeps_both_fields() {
    let vec = elements(
        "[\"connect\", 2, \"n\", 5, {\"subprotocol\": \"1.0.0\", \"credentials\": \"secret\"}]",
    );
    assert_eq!(
        decode_connect_message(&vec),
        Ok(ConnectMessage {
            protocol: 2,
            node_id: "n".to_string(),
            synced: 5,
            options: Some(OptionnalConnectMessage {
                subprotocol: Some("1.0.0".to_string()),
                credentials: Some("secret".to_string()),
            }),
        })
    );
}

#[test]
fn connect_accepts_an_unrelated_object_as_empty_options() {
    let vec = elements("[\"connect\", 124, \"nodeid\", 12, {\"de\": 1}]");
    let message = decode_connect_message(&vec).expect("a connect");
    assert_eq!(
        message.options,
        Some(OptionnalConnectMessage { subprotocol: None, credentials: None })
    );
}

#[test]
fn connect_reads_null_options_fields_as_absent() {
    let vec = vec![
        text("connect"),
        number(1),
        text("n"),
        number(0),
        object(vec![("subprotocol", JsonValue::Null), ("credentials", text("c"))]),
    ];
    let message = decode_connect_message(&vec).expect("a connect");
    assert_eq!(
        message.options,
        Some(OptionnalConnectMessage { subprotocol: None, credentials: Some("c".to_string()) })
    );
}

#[test]
fn connect_refuses_an_options_field_that_is_no_string() {
    let vec = elements("[\"connect\", 1, \"n\", 0, {\"subprotocol\": 5}]");
    let error = decode_connect_message(&vec).expect_err("no connect");
    assert_eq!(error.message, INVALID_CONNECT);
}

#[test]
fn connect_refuses_a_trailing_value_that_is_no_object() {
    for trailing in [number(5), JsonValue::Null, text("x"), JsonValue::Array(vec![])] {
        let vec = vec![text("connect"), number(1), text("n"), number(0), trailing];
        let error = decode_connect_message(&vec).expect_err("no connect");
        assert_eq!(error.message, INVALID_CONNECT);
    }
}

#[test]
fn connect_refuses_every_other_length() {
    let full = vec![
        text("connect"),
        number(1),
        text("n"),
        number(0),
        object(vec![]),
        number(9),
    ];
    for len in [0usize, 1, 2, 3, 6] {
        let error = decode_connect_message(&full[..len]).expect_err("no connect");
        assert_eq!(error.message, INVALID_CONNECT);
    }
    assert!(decode_connect_message(&full[..4]).is_ok());
    assert!(decode_connect_message(&full[..5]).is_ok());
}

#[test]
fn connect_refuses_wrong_types_at_each_position() {
    let good = || vec![text("connect"), number(1), text("n"), number(0)];
    let wrong: Vec<(usize, JsonValue)> = vec![
        (0, number(1)),
        (1, text("1")),
        (1, other_number("-1")),
        (1, other_number("1.5")),
        (2, number(7)),
        (2, JsonValue::Null),
        (3, text("0")),
        (3, other_number("18446744073709551616")),
        (3, JsonValue::Bool(true)),
    ];
    for (position, value) in wrong {
        let mut vec = good();
        vec[position] = value;
        let error = decode_connect_message(&vec).expect_err("no connect");
        assert_eq!(error.message, INVALID_CONNECT);
    }
}

#[test]
fn connected_of_four_elements_has_no_options() {
    let vec = elements("[\"connected\", 3, \"server:x\", [1000, 1005]]");
    assert_eq!(
        decode_connected_message(&vec),
        Ok(ConnectedMessage {
            protocol: 3,
            node_id: "server:x".to_string(),
            time_sync: [1000, 1005],
            options: None,
        })
    );
}

#[test]
fn connected_does_not_order_its_times() {
    let vec = elements("[\"connected\", 3, \"server:x\", [9, 2]]");
    let message = decode_connected_message(&vec).expect("a connected");
    assert_eq!(message.time_sync, [9, 2]);
}

#[test]
fn connected_with_options_keeps_both_fields() {
    let vec = elements(
        "[\"connected\", 3, \"s\", [1, 2], {\"credentials\": \"c\", \"subprotocol\": \"2.1.0\", \"x\": []}]",
    );
    let message = decode_connected_message(&vec).expect("a connected");
    assert_eq!(
        message.options,
        Some(OptionnalConnectedMessage {
            subprotocol: Some("2.1.0".to_string()),
            credentials: Some("c".to_string()),
        })
    );
}

#[test]
fn connected_refuses_a_wrong_shape() {
    let cases = [
        "[]",
        "[\"connected\"]",
        "[\"connected\", 3, \"s\"]",
        "[\"connected\", 3, \"s\", [1, 2], {}, 0]",
        "[7, 3, \"s\", [1, 2]]",
        "[\"connected\", \"3\", \"s\", [1, 2]]",
        "[\"connected\", -3, \"s\", [1, 2]]",
        "[\"connected\", 3, 4, [1, 2]]",
        "[\"connected\", 3, \"s\", 12]",
        "[\"connected\", 3, \"s\", [1]]",
        "[\"connected\", 3, \"s\", [1, 2, 3]]",
        "[\"connected\", 3, \"s\", [1, \"2\"]]",
        "[\"connected\", 3, \"s\", [null, 2], {}]",
    ];
    for case in cases {
        let error = decode_connected_message(&elements(case)).expect_err(case);
        assert_eq!(error.message, INVALID_CONNECTED, "{}", case);
    }
}

#[test]
fn connected_refuses_times_and_options_that_do_not_read() {
    let cases = [
        "[\"connected\", 3, \"s\", [-1, 2]]",
        "[\"connected\", 3, \"s\", [1, 2.5]]",
        "[\"connected\", 3, \"s\", [1, 18446744073709551616]]",
        "[\"connected\", 3, \"s\", [1, 2], 5]",
        "[\"connected\", 3, \"s\", [1, 2], {\"credentials\": {\"env\": \"development\"}}]",
    ];
    for case in cases {
        let error = decode_connected_message(&elements(case)).expect_err(case);
        assert_eq!(error.message, INVALID_SYNC_TIME, "{}", case);
    }
}

#[test]
fn ping_decodes_its_checkpoint() {
    assert_eq!(
        decode_ping_message(&[text("ping"), number(7)]),
        Ok(PingMessage { synced: 7 })
    );
    assert_eq!(
        decode_ping_message(&[text("ping"), number(u64::MAX)]),
        Ok(PingMessage { synced: u64::MAX })
    );
}

#[test]
fn ping_refuses_a_wrong_shape() {
    let cases = ["[]", "[\"ping\"]", "[\"ping\", 1, 2]", "[\"ping\", \"1\"]", "[\"ping\", -1]", "[\"ping\", 0.5]", "[1, 1]"];
    for case in cases {
        let error = decode_ping_message(&elements(case)).expect_err(case);
        assert_eq!(error.message, "Invalid ping type, please refer to the documentation.");
    }
}

#[test]
fn pong_decodes_its_checkpoint() {
    assert_eq!(
        decode_pong_message(&[text("pong"), number(0)]),
        Ok(PongMessage { synced: 0 })
    );
}

#[test]
fn pong_refuses_a_wrong_shape() {
    let cases = ["[]", "[\"pong\"]", "[\"pong\", 1, 2]", "[\"pong\", null]", "[\"pong\", [1]]"];
    for case in cases {
        let error = decode_pong_message(&elements(case)).expect_err(case);
        assert_eq!(error.message, "Invalid pong type, please refer to the documentation.");
    }
}

#[test]
fn pong_round_trips_through_its_wire_text() {
    let wire = PongMessage { synced: 5 }.encode();
    assert_eq!(wire, "[ \"pong\", 5 ]");
    assert_eq!(decode_pong_message(&elements(&wire)), Ok(PongMessage { synced: 5 }));
}

#[test]
fn pong_round_trips_the_extremes() {
    for synced in [0u64, 9, 10, 99, 100, 1234567890, u64::MAX] {
        let wire = PongMessage { synced }.encode();
        assert_eq!(wire, format!("[ \"pong\", {} ]", synced));
        assert_eq!(decode_pong_message(&elements(&wire)), Ok(PongMessage { synced }));
    }
}

#[test]
fn synced_decodes_its_checkpoint() {
    assert_eq!(
        decode_synced_message(&[text("synced"), number(12)]),
        Ok(SyncedMessage { synced: 12 })
    );
}

#[test]
fn synced_refuses_a_wrong_shape() {
    let cases = ["[]", "[\"synced\"]", "[\"synced\", 1, 2]", "[\"synced\", \"1\"]", "[\"synced\", -4]"];
    for case in cases {
        let error = decode_synced_message(&elements(case)).expect_err(case);
        assert_eq!(error.message, "Invalid synced type, please refer to the documentation.");
    }
}

#[test]
fn sync_keeps_its_actions_as_they_came() {
    let vec = elements("[\"sync\", 3, {\"type\":\"a\"}, {\"id\":1}]");
    let message = decode_sync_message(&vec).expect("a sync");
    assert_eq!(message.synced, 3);
    assert_eq!(message.actions.len(), 2);
    assert_eq!(message.actions[0], object(vec![("type", text("a"))]));
    assert_eq!(message.actions[1], object(vec![("id", number(1))]));
}

#[test]
fn sync_without_actions_is_empty() {
    let message = decode_sync_message(&elements("[\"sync\", 3]")).expect("a sync");
    assert_eq!(message.synced, 3);
    assert_eq!(message.actions, Vec::<JsonValue>::new());
}

#[test]
fn sync_accepts_an_odd_number_of_actions() {
    let vec = elements("[\"sync\", 1, {\"type\":\"a\"}, {\"id\":1}, 2.5]");
    let message = decode_sync_message(&vec).expect("a sync");
    assert_eq!(message.actions.len(), 3);
    assert_eq!(message.actions[2], other_number("2.5"));
}

#[test]
fn sync_refuses_a_missing_header() {
    for case in ["[]", "[\"sync\"]", "[5, 1]"] {
        let error = decode_sync_message(&elements(case)).expect_err(case);
        assert_eq!(error.message, "Invalid sync type, please refer to the documentation.");
    }
}

#[test]
fn sync_refuses_a_checkpoint_that_is_no_unsigned_integer() {
    for case in ["[\"sync\", \"3\"]", "[\"sync\", -3, {}, {}]", "[\"sync\", 1.5]", "[\"sync\", null]"] {
        let error = decode_sync_message(&elements(case)).expect_err(case);
        assert_eq!(error.message, "Invalid synced number, please refer to the documentation.");
    }
}

#[test]
fn connected_without_options_writes_null() {
    let message = ConnectedMessage {
        protocol: 3,
        node_id: "server:x".to_string(),
        time_sync: [1000, 1005],
        options: None,
    };
    assert_eq!(message.encode(), "[ \"connected\", 3, \"server:x\", [1000,1005], null ]");
}

#[test]
fn connected_decoded_then_encoded_keeps_null_options() {
    let vec = elements("[\"connected\", 12, \"server:y\", [0, 18446744073709551615]]");
    let message = decode_connected_message(&vec).expect("a connected");
    let wire = message.encode();
    assert_eq!(wire, "[ \"connected\", 12, \"server:y\", [0,18446744073709551615], null ]");
    assert!(wire.ends_with(", null ]"));
}

#[test]
fn connected_refuses_null_in_the_place_of_options() {
    let vec = elements("[ \"connected\", 12, \"server:y\", [0,1], null ]");
    let error = decode_connected_message(&vec).expect_err("no connected");
    assert_eq!(error.message, INVALID_SYNC_TIME);
}

#[test]
fn connected_with_options_writes_their_values() {
    let message = ConnectedMessage {
        protocol: 1,
        node_id: "s".to_string(),
        time_sync: [1, 2],
        options: Some(OptionnalConnectedMessage {
            subprotocol: Some("1.0.0".to_string()),
            credentials: None,
        }),
    };
    let wire = message.encode();
    assert_eq!(
        wire,
        "[ \"connected\", 1, \"s\", [1,2], {\"subprotocol\":\"1.0.0\",\"credentials\":null} ]"
    );
    assert_eq!(decode_connected_message(&elements(&wire)), Ok(message));
}

#[test]
fn connected_writes_its_node_id_as_a_json_string() {
    let message = ConnectedMessage {
        protocol: 1,
        node_id: "ser\"ver\\1\n".to_string(),
        time_sync: [1, 2],
        options: None,
    };
    let wire = message.encode();
    assert_eq!(wire, "[ \"connected\", 1, \"ser\\\"ver\\\\1\\n\", [1,2], null ]");
    let mut items = elements(&wire);
    assert_eq!(items.len(), 5);
    assert_eq!(items[2], text("ser\"ver\\1\n"));
    items.pop();
    assert_eq!(decode_connected_message(&items), Ok(message));
}

#[test]
fn options_are_written_with_json_escapes() {
    let options = OptionnalConnectedMessage {
        subprotocol: Some("a\"b".to_string()),
        credentials: Some("line\nbreak\\".to_string()),
    };
    assert_eq!(
        options.encode(),
        "{\"subprotocol\":\"a\\\"b\",\"credentials\":\"line\\nbreak\\\\\"}"
    );
}

#[test]
fn sync_rejects_an_odd_number_of_actions_on_request() {
    let odd = elements("[\"sync\", 1, {\"type\":\"a\"}, {\"id\":1}, {\"type\":\"b\"}]");
    let error = decode_sync_message_with(&odd, OddActions::Reject).expect_err("no sync");
    assert_eq!(error.message, "Invalid sync actions, please refer to the documentation.");
    assert_eq!(decode_sync_message_with(&odd, OddActions::Accept), decode_sync_message(&odd));
    assert_eq!(decode_sync_message(&odd).map(|m| m.actions.len()), Ok(3));

    let even = elements("[\"sync\", 1, {\"type\":\"a\"}, {\"id\":1}]");
    assert_eq!(decode_sync_message_with(&even, OddActions::Reject), decode_sync_message(&even));
    let none = elements("[\"sync\", 1]");
    assert_eq!(decode_sync_message_with(&none, OddActions::Reject).map(|m| m.actions.len()), Ok(0));
    let bad = elements("[\"sync\", -1, 4]");
    let error = decode_sync_message_with(&bad, OddActions::Reject).expect_err("no sync");
    assert_eq!(error.message, "Invalid synced number, please refer to the documentation.");
}
