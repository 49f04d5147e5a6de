//! Settings tests: the default record and the messages that keep the
//! server's subscription set in step with a save.

use walltaker_engine::settings::{sync_messages, Settings};
use walltaker_engine::walltaker::{
    announce_message, subscribe_message, unsubscribe_message,
};
use walltaker_engine::wallpaper::METHOD_FILL;

fn record(ids: &[u64]) -> Settings {
    Settings { subscribed: ids.to_vec(), method: METHOD_FILL, notifications: true }
}

#[test]
fn missing_record_falls_back_to_defaults() {
    let s = Settings::load_or_new(None);
    assert!(s.subscribed.is_empty());
    assert_eq!(s.method, METHOD_FILL);
    assert!(s.notifications);
}

#[test]
fn present_record_is_kept() {
    let s = Settings::load_or_new(Some(record(&[3, 4])));
    assert_eq!(s.subscribed, vec![3, 4]);
}

#[test]
fn a_save_subscribes_added_ids_and_unsubscribes_removed_ones() {
    let before = record(&[1, 2, 3]);
    let after = record(&[2, 3, 4]);
    let msgs = sync_messages(&before, &after);
    assert_eq!(
        msgs,
        vec![
            subscribe_message(4),
            announce_message(4),
            unsubscribe_message(1),
        ]
    );
}

#[test]
fn an_unchanged_save_sends_nothing() {
    let before = record(&[5, 6]);
    let after = record(&[5, 6]);
    assert!(sync_messages(&before, &after).is_empty());
}

#[test]
fn a_first_save_subscribes_everything() {
    let before = record(&[]);
    let after = record(&[8, 9]);
    let msgs = sync_messages(&before, &after);
    assert_eq!(
        msgs,
        vec![
            subscribe_message(8),
            announce_message(8),
            subscribe_message(9),
            announce_message(9),
        ]
    );
}
