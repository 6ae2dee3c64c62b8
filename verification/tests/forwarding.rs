use ringtostdout::errors::Error;
use ringtostdout::forward::PollEvent;
use ringtostdout::forward::PollStatus;
use ringtostdout::forward::classify_poll;
use ringtostdout::forward::forwarded_bytes;
use ringtostdout::forward::transfer_buffer;

#[test]
fn round_trip_concatenates_chunks_in_order() {
    let events = vec![
        PollEvent::Data(vec![1, 2, 3]),
        PollEvent::Data(vec![]),
        PollEvent::Data(vec![4, 5]),
    ];
    let (out, stopped) = forwarded_bytes(&events);
    assert_eq!(out, vec![1, 2, 3, 4, 5]);
    assert!(!stopped);
}

#[test]
fn over_cap_input_drains_across_polls() {
    let first = vec![7u8; 1024 * 1024];
    let second = vec![8u8; 10];
    let events = vec![
        PollEvent::Data(first.clone()),
        PollEvent::Timeout,
        PollEvent::Data(second.clone()),
    ];
    let (out, stopped) = forwarded_bytes(&events);
    let mut expected = first;
    expected.extend_from_slice(&second);
    assert_eq!(out, expected);
    assert!(!stopped);
}

#[test]
fn timeouts_emit_nothing_and_do_not_terminate() {
    let events = vec![
        PollEvent::Timeout,
        PollEvent::Timeout,
        PollEvent::Data(vec![9]),
        PollEvent::Timeout,
        PollEvent::Data(vec![10]),
    ];
    let (out, stopped) = forwarded_bytes(&events);
    assert_eq!(out, vec![9, 10]);
    assert!(!stopped);
}

#[test]
fn a_long_idle_stretch_emits_nothing_and_keeps_running() {
    let mut events = Vec::new();
    for _ in 0..1000 {
        events.push(PollEvent::Timeout);
    }
    let (out, stopped) = forwarded_bytes(&events);
    assert!(out.is_empty());
    assert!(!stopped);
    events.push(PollEvent::Data(vec![42]));
    let (out, stopped) = forwarded_bytes(&events);
    assert_eq!(out, vec![42]);
    assert!(!stopped);
}

#[test]
fn empty_run_emits_nothing() {
    let (out, stopped) = forwarded_bytes(&vec![]);
    assert!(out.is_empty());
    assert!(!stopped);
}

#[test]
fn fatal_stops_the_stream_after_prior_bytes() {
    let events = vec![
        PollEvent::Data(vec![1, 2]),
        PollEvent::Timeout,
        PollEvent::Fatal(String::from("ring torn down")),
        PollEvent::Data(vec![3, 4]),
    ];
    let (out, stopped) = forwarded_bytes(&events);
    assert_eq!(out, vec![1, 2]);
    assert!(stopped);
}

#[test]
fn transfer_buffer_is_one_mebibyte() {
    assert_eq!(transfer_buffer().len(), 1024 * 1024);
}

#[test]
fn a_timeout_turn_keeps_streaming() {
    assert_eq!(classify_poll(PollStatus::TimedOut, true), None);
    assert_eq!(classify_poll(PollStatus::TimedOut, false), None);
}

#[test]
fn a_delivered_turn_keeps_streaming_when_the_sink_accepts() {
    assert_eq!(classify_poll(PollStatus::Got(5), true), None);
    assert_eq!(classify_poll(PollStatus::Got(0), true), None);
}

#[test]
fn a_refused_sink_write_is_fatal() {
    assert_eq!(
        classify_poll(PollStatus::Got(5), false),
        Some(Error::ForwardingFatalError(String::from(
            "failed to write to the downstream sink"
        )))
    );
}

#[test]
fn a_fatal_poll_ends_the_stream_with_its_detail() {
    assert_eq!(
        classify_poll(PollStatus::Fatal(String::from("ring torn down")), true),
        Some(Error::ForwardingFatalError(String::from("ring torn down")))
    );
}
