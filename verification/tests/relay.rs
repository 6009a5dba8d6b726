use sidecar_supervisor::relay::{
    channel_name, relay_batch, relay_step, ChildEvent, RelayAction, StreamKind,
};

#[test]
fn forwards_stdout_and_stderr_in_write_order() {
    let events = vec![
        ChildEvent::Stdout(b"hello\n".to_vec()),
        ChildEvent::Stderr(b"warn\n".to_vec()),
    ];
    let out = relay_batch(&events);
    assert_eq!(out.len(), 2);
    assert_eq!(out[0].stream, StreamKind::Stdout);
    assert_eq!(out[0].payload, "hello\n");
    assert_eq!(channel_name(out[0].stream), "sidecar-stdout");
    assert_eq!(out[1].stream, StreamKind::Stderr);
    assert_eq!(out[1].payload, "warn\n");
    assert_eq!(channel_name(out[1].stream), "sidecar-stderr");
}

#[test]
fn malformed_bytes_are_replaced_not_rejected() {
    // 0xFF can begin no UTF-8 sequence; the relay must still forward one
    // event, with a replacement character in place of the invalid portion.
    let action = relay_step(&ChildEvent::Stdout(vec![b'h', 0xFF, b'i']));
    match action {
        RelayAction::Emit(out) => {
            assert_eq!(out.stream, StreamKind::Stdout);
            assert_eq!(out.payload, "h\u{FFFD}i");
        }
        RelayAction::Ignore => panic!("an output chunk must be forwarded"),
    }
}

#[test]
fn lone_invalid_byte_still_produces_an_event() {
    let action = relay_step(&ChildEvent::Stderr(vec![0xC3]));
    match action {
        RelayAction::Emit(out) => {
            assert_eq!(out.stream, StreamKind::Stderr);
            assert_eq!(out.payload, "\u{FFFD}");
        }
        RelayAction::Ignore => panic!("an output chunk must be forwarded"),
    }
}

#[test]
fn other_channel_messages_are_ignored() {
    assert!(matches!(relay_step(&ChildEvent::Other), RelayAction::Ignore));
}

#[test]
fn empty_chunk_forwards_an_empty_payload() {
    let action = relay_step(&ChildEvent::Stdout(Vec::new()));
    match action {
        RelayAction::Emit(out) => {
            assert_eq!(out.stream, StreamKind::Stdout);
            assert_eq!(out.payload, "");
        }
        RelayAction::Ignore => panic!("an output chunk must be forwarded"),
    }
}

#[test]
fn ignored_messages_do_not_disturb_per_stream_order() {
    let events = vec![
        ChildEvent::Stdout(b"one".to_vec()),
        ChildEvent::Other,
        ChildEvent::Stderr(b"two".to_vec()),
        ChildEvent::Stdout(b"three".to_vec()),
        ChildEvent::Other,
    ];
    let out = relay_batch(&events);
    assert_eq!(out.len(), 3);
    assert_eq!(out[0].stream, StreamKind::Stdout);
    assert_eq!(out[0].payload, "one");
    assert_eq!(out[1].stream, StreamKind::Stderr);
    assert_eq!(out[1].payload, "two");
    assert_eq!(out[2].stream, StreamKind::Stdout);
    assert_eq!(out[2].payload, "three");
}

#[test]
fn relay_batch_of_an_empty_log_is_empty() {
    let out = relay_batch(&Vec::new());
    assert!(out.is_empty());
}
