//! Dispatcher tests: what each envelope and UI message makes the event
//! loop do, and that malformed inbound text never stalls it.

use walltaker_engine::dispatch::{
    handle_envelope, handle_text, handle_texts, handle_ui_message, notification_text, Step,
    UiMessage, CHECK_DELAY_MS,
};
use walltaker_engine::settings::Settings;
use walltaker_engine::walltaker::{
    check_message, parse_incoming, subscribe_message, announce_message, unsubscribe_message,
};

fn settings(ids: &[u64], notifications: bool) -> Settings {
    Settings {
        subscribed: ids.to_vec(),
        method: walltaker_engine::wallpaper::METHOD_FILL,
        notifications,
    }
}

#[test]
fn welcome_with_three_ids_sends_three_pairs_then_one_check() {
    let st = settings(&[10, 20, 30], true);
    let env = parse_incoming("{\"type\":\"welcome\"}").unwrap();
    let steps = handle_envelope(&st, &env);
    assert_eq!(steps.len(), 8);
    assert_eq!(steps[0], Step::Send(subscribe_message(10)));
    assert_eq!(steps[1], Step::Send(announce_message(10)));
    assert_eq!(steps[2], Step::Send(subscribe_message(20)));
    assert_eq!(steps[3], Step::Send(announce_message(20)));
    assert_eq!(steps[4], Step::Send(subscribe_message(30)));
    assert_eq!(steps[5], Step::Send(announce_message(30)));
    assert_eq!(steps[6], Step::Sleep(CHECK_DELAY_MS));
    // Exactly one Check, for the last id in the list.
    assert_eq!(steps[7], Step::Send(check_message(30)));
}

#[test]
fn welcome_with_no_ids_does_nothing() {
    let st = settings(&[], true);
    let env = parse_incoming("{\"type\":\"welcome\"}").unwrap();
    assert_eq!(handle_envelope(&st, &env), Vec::<Step>::new());
}

#[test]
fn ping_and_confirmation_produce_nothing() {
    let st = settings(&[1], true);
    let ping = parse_incoming("{\"type\":\"ping\",\"message\":5}").unwrap();
    assert!(handle_envelope(&st, &ping).is_empty());
    let confirm =
        parse_incoming("{\"type\":\"confirm_subscription\",\"identifier\":\"x\"}").unwrap();
    assert!(handle_envelope(&st, &confirm).is_empty());
}

#[test]
fn disconnect_without_reconnect_is_fatal() {
    let st = settings(&[1], true);
    let env = parse_incoming("{\"type\":\"disconnect\",\"reason\":\"banned\",\"reconnect\":false}")
        .unwrap();
    assert_eq!(
        handle_envelope(&st, &env),
        vec![Step::Fatal { reason: String::from("banned") }]
    );
    let env = parse_incoming("{\"type\":\"disconnect\",\"reason\":\"moving\",\"reconnect\":true}")
        .unwrap();
    assert!(handle_envelope(&st, &env).is_empty());
}

#[test]
fn update_without_url_produces_zero_calls() {
    let st = settings(&[42], true);
    let env = parse_incoming("{\"identifier\":\"x\",\"message\":{\"id\":42}}").unwrap();
    assert_eq!(handle_envelope(&st, &env), Vec::<Step>::new());
}

#[test]
fn update_with_url_shows_media_then_notifies() {
    let st = settings(&[42], true);
    let env = parse_incoming(
        "{\"identifier\":\"x\",\"message\":{\"id\":42,\"post_url\":\"https://example.org/w.webm\",\"set_by\":\"alice\"}}",
    )
    .unwrap();
    let steps = handle_envelope(&st, &env);
    assert_eq!(steps.len(), 2);
    assert_eq!(steps[0], Step::ShowMedia { url: String::from("https://example.org/w.webm") });
    assert_eq!(
        steps[1],
        Step::Notify { text: String::from("alice changed your wallpaper via link 42! \u{2764}\u{fe0f}") }
    );
}

#[test]
fn update_with_extensionless_url_is_skipped() {
    let st = settings(&[42], true);
    // The final path segment carries no extension: the event is
    // recoverable and skipped whole — no wallpaper change, no toast.
    let env = parse_incoming(
        "{\"identifier\":\"x\",\"message\":{\"id\":42,\"post_url\":\"https://example.org/posts/4f2a\",\"set_by\":\"alice\"}}",
    )
    .unwrap();
    assert_eq!(handle_envelope(&st, &env), Vec::<Step>::new());
    // A dot in the host alone does not make an extension.
    let env = parse_incoming(
        "{\"identifier\":\"x\",\"message\":{\"id\":42,\"post_url\":\"https://example.org/file\"}}",
    )
    .unwrap();
    assert_eq!(handle_envelope(&st, &env), Vec::<Step>::new());
    // A dotted final segment does.
    let env = parse_incoming(
        "{\"identifier\":\"x\",\"message\":{\"id\":42,\"post_url\":\"https://example.org/a.png\"}}",
    )
    .unwrap();
    assert_eq!(handle_envelope(&st, &env).len(), 2);
}

#[test]
fn notifications_toggle_suppresses_the_toast() {
    let st = settings(&[42], false);
    let env = parse_incoming(
        "{\"identifier\":\"x\",\"message\":{\"id\":42,\"post_url\":\"https://example.org/w.webm\"}}",
    )
    .unwrap();
    let steps = handle_envelope(&st, &env);
    assert_eq!(steps.len(), 1);
    assert!(matches!(steps[0], Step::ShowMedia { .. }));
}

#[test]
fn anonymous_notification_text() {
    assert_eq!(
        notification_text(&None, 0),
        "Anonymous changed your wallpaper via link 0! \u{2764}\u{fe0f}"
    );
    assert_eq!(
        notification_text(&Some(String::from("bob")), 7),
        "bob changed your wallpaper via link 7! \u{2764}\u{fe0f}"
    );
}

#[test]
fn malformed_text_produces_nothing_and_the_loop_goes_on() {
    let st = settings(&[42], true);
    let bad = String::from("{definitely not json");
    let good = String::from(
        "{\"identifier\":\"x\",\"message\":{\"id\":42,\"post_url\":\"https://example.org/w.webm\"}}",
    );
    assert!(handle_text(&st, &bad).is_empty());
    // A malformed message followed by a well-formed one: the well-formed
    // one is still handled, exactly as if the malformed one never came.
    let both = handle_texts(&st, &vec![bad, good.clone()]);
    let alone = handle_texts(&st, &vec![good.clone()]);
    assert_eq!(both, alone);
    assert_eq!(both.len(), 2);
    assert!(matches!(both[0], Step::ShowMedia { .. }));
}

#[test]
fn ui_messages_map_to_their_sends() {
    let on = settings(&[], true);
    let off = settings(&[], false);
    assert_eq!(
        handle_ui_message(&on, &UiMessage::TestNotification),
        vec![Step::Notify {
            text: String::from("Anonymous changed your wallpaper via link 0! \u{2764}\u{fe0f}"),
        }]
    );
    assert!(handle_ui_message(&off, &UiMessage::TestNotification).is_empty());
    assert!(handle_ui_message(&on, &UiMessage::UpdateSettings).is_empty());
    assert_eq!(
        handle_ui_message(&on, &UiMessage::SubscribeTo(6)),
        vec![Step::Send(subscribe_message(6)), Step::Send(announce_message(6))]
    );
    assert_eq!(
        handle_ui_message(&on, &UiMessage::UnsubscribeFrom(6)),
        vec![Step::Send(unsubscribe_message(6))]
    );
}
