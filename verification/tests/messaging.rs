use wirecli::events::{event_message, event_severity, ConnectionEvent, Severity};
use wirecli::subjects::SubjectTracker;
use wirecli::subscribe::{handle_message, SubscribeConfig, SubscribeError};

#[test]
fn text_payload_is_decoded() {
    let r = handle_message(b"hello".to_vec(), false).unwrap();
    assert_eq!(r.text, "hello");
}

#[test]
fn watch_off_is_done_after_one_message() {
    let r = handle_message(b"one".to_vec(), false).unwrap();
    assert!(r.done);
}

#[test]
fn watch_on_keeps_listening() {
    let r = handle_message(b"one".to_vec(), true).unwrap();
    assert!(!r.done);
}

#[test]
fn non_text_payload_fails() {
    let r = handle_message(vec![0xff, 0xfe, 0x01], false);
    assert_eq!(r.unwrap_err(), SubscribeError::PayloadNotText);
}

#[test]
fn empty_payload_is_text() {
    let r = handle_message(Vec::new(), false).unwrap();
    assert_eq!(r.text, "");
}

#[test]
fn non_ascii_text_payload_is_decoded() {
    let r = handle_message("grüß".as_bytes().to_vec(), true).unwrap();
    assert_eq!(r.text, "grüß");
}

#[test]
fn payload_failure_message() {
    assert_eq!(
        SubscribeError::PayloadNotText.describe(),
        "Unable to parse message into utf-8. Please petition to authors to display raw bytes."
    );
}

#[test]
fn subscribe_flags_default_to_false() {
    let c = SubscribeConfig::new(None, None);
    assert!(!c.watch);
    assert!(!c.verbose);
}

#[test]
fn subscribe_flags_keep_given_values() {
    let c = SubscribeConfig::new(Some(true), Some(true));
    assert!(c.watch);
    assert!(c.verbose);
}

#[test]
fn subject_is_printed_once() {
    let mut t = SubjectTracker::new();
    let subject = "metrics.cpu".to_string();
    assert!(t.observe(&subject, false));
    assert!(!t.observe(&subject, false));
    assert!(!t.observe(&subject, false));
    assert_eq!(t.printed_count(), 1);
}

#[test]
fn distinct_subjects_are_each_printed() {
    let mut t = SubjectTracker::new();
    assert!(t.observe(&"a.b".to_string(), true));
    assert!(t.observe(&"a.c".to_string(), true));
    assert_eq!(t.printed_count(), 2);
}

#[test]
fn filter_suppresses_inbox_subjects() {
    let mut t = SubjectTracker::new();
    assert!(!t.observe(&"_INBOX.abcdef.1".to_string(), true));
    assert!(!t.observe(&"_INBOX".to_string(), true));
    assert_eq!(t.printed_count(), 0);
}

#[test]
fn without_filter_inbox_subjects_are_printed() {
    let mut t = SubjectTracker::new();
    assert!(t.observe(&"_INBOX.abcdef.1".to_string(), false));
    assert_eq!(t.printed_count(), 1);
}

#[test]
fn short_prefix_lookalike_is_not_inbox() {
    let mut t = SubjectTracker::new();
    assert!(t.observe(&"_INBO".to_string(), true));
    assert!(t.observe(&"_INBOY.xyz".to_string(), true));
    assert_eq!(t.printed_count(), 2);
}

#[test]
fn disconnect_and_reconnect_are_informational() {
    assert_eq!(event_severity(&ConnectionEvent::Disconnected), Severity::Info);
    assert_eq!(event_severity(&ConnectionEvent::Reconnected), Severity::Info);
}

#[test]
fn client_errors_are_errors() {
    let e = ConnectionEvent::ClientError("broken pipe".to_string());
    assert_eq!(event_severity(&e), Severity::Error);
    assert_eq!(event_message(&e), "Nats client received error: broken pipe");
}

#[test]
fn other_events_are_warnings() {
    let e = ConnectionEvent::Other("lame duck mode".to_string());
    assert_eq!(event_severity(&e), Severity::Warn);
    assert_eq!(event_message(&e), "Nats client unused event: lame duck mode");
}

#[test]
fn fixed_event_messages() {
    assert_eq!(
        event_message(&ConnectionEvent::Disconnected),
        "Disconnected nats connection"
    );
    assert_eq!(
        event_message(&ConnectionEvent::Reconnected),
        "Nats client reconnected"
    );
}

#[test]
fn wildcard_subject_matches_all_traffic() {
    assert_eq!(wirecli::subjects::all_subjects_wildcard(), ">");
}
