//! Wire-format tests: exact outbound texts, escaping, and inbound
//! envelope decoding through the real JSON parser.

use walltaker_engine::walltaker::{
    announce_message, check_message, encode_outgoing, identifier_json, parse_identifier,
    parse_incoming, subscribe_message, subscribe_to, unsubscribe_from, unsubscribe_message,
    Identifier, Incoming, Outgoing,
};

#[test]
fn identifier_json_exact() {
    assert_eq!(identifier_json(42), "{\"channel\":\"LinkChannel\",\"id\":42}");
    assert_eq!(identifier_json(0), "{\"channel\":\"LinkChannel\",\"id\":0}");
    assert_eq!(
        identifier_json(u64::MAX),
        "{\"channel\":\"LinkChannel\",\"id\":18446744073709551615}"
    );
}

#[test]
fn subscribe_message_exact() {
    assert_eq!(
        subscribe_message(42),
        "{\"command\":\"subscribe\",\"identifier\":\"{\\\"channel\\\":\\\"LinkChannel\\\",\\\"id\\\":42}\"}"
    );
}

#[test]
fn unsubscribe_message_exact() {
    assert_eq!(
        unsubscribe_message(9),
        "{\"command\":\"unsubscribe\",\"identifier\":\"{\\\"channel\\\":\\\"LinkChannel\\\",\\\"id\\\":9}\"}"
    );
}

#[test]
fn check_message_exact() {
    assert_eq!(
        check_message(7),
        "{\"data\":\"{\\\"action\\\":\\\"check\\\"}\",\"identifier\":\"{\\\"channel\\\":\\\"LinkChannel\\\",\\\"id\\\":7}\",\"command\":\"message\"}"
    );
}

#[test]
fn announce_message_exact() {
    assert_eq!(
        announce_message(42),
        "{\"command\":\"message\",\"data\":\"{\\\"client\\\":\\\"WalltakerEngine/1.0\\\",\\\"action\\\":\\\"announce_client\\\"}\",\"identifier\":\"{\\\"channel\\\":\\\"LinkChannel\\\",\\\"id\\\":42}\"}"
    );
}

#[test]
fn subscribe_to_sends_subscribe_then_announce() {
    let msgs = subscribe_to(5);
    assert_eq!(msgs.len(), 2);
    assert_eq!(msgs[0], subscribe_message(5));
    assert_eq!(msgs[1], announce_message(5));
    assert_eq!(unsubscribe_from(5), unsubscribe_message(5));
}

#[test]
fn outbound_messages_are_valid_json_with_expected_fields() {
    let v: serde_json::Value = serde_json::from_str(&subscribe_message(42)).unwrap();
    assert_eq!(v["command"], "subscribe");
    assert_eq!(v["identifier"], "{\"channel\":\"LinkChannel\",\"id\":42}");

    let v: serde_json::Value = serde_json::from_str(&announce_message(42)).unwrap();
    assert_eq!(v["command"], "message");
    let data: serde_json::Value = serde_json::from_str(v["data"].as_str().unwrap()).unwrap();
    assert_eq!(data["action"], "announce_client");
    assert_eq!(data["client"], "WalltakerEngine/1.0");

    let v: serde_json::Value = serde_json::from_str(&check_message(7)).unwrap();
    assert_eq!(v["command"], "message");
    let data: serde_json::Value = serde_json::from_str(v["data"].as_str().unwrap()).unwrap();
    assert_eq!(data["action"], "check");
}

#[test]
fn encode_outgoing_escapes_like_json() {
    let tricky = String::from("a\"b\\c\nd\te\u{1}");
    let msg = encode_outgoing(&Outgoing::Subscribe {
        identifier: tricky.clone(),
    });
    // The real JSON parser must read the identifier back unchanged.
    let v: serde_json::Value = serde_json::from_str(&msg).unwrap();
    assert_eq!(v["identifier"].as_str().unwrap(), tricky);
    assert!(msg.contains("\\u0001"));
}

#[test]
fn announce_embedded_identifier_round_trips_for_42() {
    // Encode the subscription for id 42, then decode the identifier the
    // Announce embeds: it must come back as LinkChannel / 42.
    let msgs = subscribe_to(42);
    let announce: serde_json::Value = serde_json::from_str(&msgs[1]).unwrap();
    let embedded = announce["identifier"].as_str().unwrap();
    let ident = parse_identifier(embedded).unwrap();
    assert_eq!(
        ident,
        Identifier {
            channel: String::from("LinkChannel"),
            id: 42,
        }
    );
}

#[test]
fn parse_identifier_accepts_only_canonical_texts() {
    let ok = parse_identifier("{\"channel\":\"LinkChannel\",\"id\":123}").unwrap();
    assert_eq!(ok.id, 123);
    assert_eq!(ok.channel, "LinkChannel");

    let max = parse_identifier("{\"channel\":\"LinkChannel\",\"id\":18446744073709551615}");
    assert_eq!(max.unwrap().id, u64::MAX);

    // One past the largest id: rejected, not wrapped.
    assert!(parse_identifier("{\"channel\":\"LinkChannel\",\"id\":18446744073709551616}").is_none());
    // Leading zero is not canonical.
    assert!(parse_identifier("{\"channel\":\"LinkChannel\",\"id\":042}").is_none());
    // Zero itself is.
    assert_eq!(parse_identifier("{\"channel\":\"LinkChannel\",\"id\":0}").unwrap().id, 0);
    // Other channels, junk digits, missing brace.
    assert!(parse_identifier("{\"channel\":\"OtherChannel\",\"id\":1}").is_none());
    assert!(parse_identifier("{\"channel\":\"LinkChannel\",\"id\":12a}").is_none());
    assert!(parse_identifier("{\"channel\":\"LinkChannel\",\"id\":12").is_none());
    assert!(parse_identifier("").is_none());
}

#[test]
fn decodes_welcome() {
    assert_eq!(parse_incoming("{\"type\":\"welcome\"}"), Some(Incoming::Welcome));
}

#[test]
fn decodes_ping() {
    let m = parse_incoming("{\"type\":\"ping\",\"message\":1761616426}");
    assert_eq!(m, Some(Incoming::Ping { message: 1761616426 }));
    // A ping whose payload is not a non-negative integer is malformed.
    assert_eq!(parse_incoming("{\"type\":\"ping\",\"message\":\"hi\"}"), None);
    assert_eq!(parse_incoming("{\"type\":\"ping\"}"), None);
    assert_eq!(parse_incoming("{\"type\":\"ping\",\"message\":-3}"), None);
}

#[test]
fn decodes_confirm_subscription() {
    let m = parse_incoming(
        "{\"type\":\"confirm_subscription\",\"identifier\":\"{\\\"channel\\\":\\\"LinkChannel\\\",\\\"id\\\":42}\"}",
    );
    assert_eq!(
        m,
        Some(Incoming::ConfirmSubscription {
            identifier: String::from("{\"channel\":\"LinkChannel\",\"id\":42}"),
        })
    );
}

#[test]
fn decodes_disconnect() {
    let m = parse_incoming("{\"type\":\"disconnect\",\"reason\":\"server_restart\",\"reconnect\":true}");
    assert_eq!(
        m,
        Some(Incoming::Disconnect {
            reason: String::from("server_restart"),
            reconnect: true,
        })
    );
    assert_eq!(parse_incoming("{\"type\":\"disconnect\",\"reason\":\"x\"}"), None);
}

#[test]
fn decodes_untagged_update() {
    let m = parse_incoming(
        "{\"identifier\":\"{\\\"channel\\\":\\\"LinkChannel\\\",\\\"id\\\":42}\",\"message\":{\"id\":42,\"post_url\":\"https://example.org/a.webm\",\"set_by\":\"alice\"}}",
    );
    match m {
        Some(Incoming::Message { message, .. }) => {
            assert_eq!(message.id, 42);
            assert_eq!(message.post_url.as_deref(), Some("https://example.org/a.webm"));
            assert_eq!(message.set_by.as_deref(), Some("alice"));
        }
        other => panic!("expected an update, got {:?}", other),
    }
}

#[test]
fn update_with_absent_or_null_url_is_valid() {
    let m = parse_incoming("{\"identifier\":\"x\",\"message\":{\"id\":7}}");
    match m {
        Some(Incoming::Message { message, .. }) => {
            assert_eq!(message.id, 7);
            assert_eq!(message.post_url, None);
            assert_eq!(message.set_by, None);
        }
        other => panic!("expected an update, got {:?}", other),
    }
    let m = parse_incoming("{\"identifier\":\"x\",\"message\":{\"id\":7,\"post_url\":null}}");
    match m {
        Some(Incoming::Message { message, .. }) => assert_eq!(message.post_url, None),
        other => panic!("expected an update, got {:?}", other),
    }
}

#[test]
fn unknown_tag_is_tried_as_update() {
    let m = parse_incoming("{\"type\":\"novelty\",\"identifier\":\"x\",\"message\":{\"id\":1}}");
    assert!(matches!(m, Some(Incoming::Message { .. })));
    assert_eq!(parse_incoming("{\"type\":\"novelty\"}"), None);
}

#[test]
fn malformed_messages_decode_to_nothing() {
    assert_eq!(parse_incoming("{nope"), None);
    assert_eq!(parse_incoming(""), None);
    assert_eq!(parse_incoming("[1,2,3]"), None);
    assert_eq!(parse_incoming("\"welcome\""), None);
    assert_eq!(parse_incoming("{\"type\":12}"), None);
    assert_eq!(
        parse_incoming("{\"identifier\":\"x\",\"message\":{\"id\":\"seven\"}}"),
        None
    );
    assert_eq!(
        parse_incoming("{\"identifier\":\"x\",\"message\":{\"id\":1,\"post_url\":7}}"),
        None
    );
}
