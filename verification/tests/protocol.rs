use ringtostdout::errors::Error;
use ringtostdout::protocol::Role;
use ringtostdout::protocol::classify_reply;
use ringtostdout::protocol::connect_request;
use ringtostdout::protocol::ring_name;

#[test]
fn consumer_request_line() {
    let r = connect_request("events", Role::Consumer(3), 1234);
    assert_eq!(r, "CONNECT events consumer.3 1234\n");
}

#[test]
fn producer_request_line() {
    let r = connect_request("events", Role::Producer, 1234);
    assert_eq!(r, "CONNECT events producer 1234\n");
}

#[test]
fn request_with_zero_pid() {
    let r = connect_request("r", Role::Producer, 0);
    assert_eq!(r, "CONNECT r producer 0\n");
}

#[test]
fn request_with_largest_slot() {
    let r = connect_request("r", Role::Consumer(u32::MAX), 7);
    assert_eq!(r, "CONNECT r consumer.4294967295 7\n");
}

#[test]
fn reply_ok_succeeds() {
    assert!(classify_reply(String::from("OK")).is_ok());
}

#[test]
fn reply_ok_with_newline_succeeds() {
    assert!(classify_reply(String::from("OK\n")).is_ok());
}

#[test]
fn reply_ok_with_surrounding_whitespace_succeeds() {
    assert!(classify_reply(String::from(" \tOK \r\n")).is_ok());
}

#[test]
fn reply_other_line_is_rejected_with_detail() {
    let r = classify_reply(String::from("ERROR ring busy"));
    assert_eq!(
        r,
        Err(Error::RegistrationRejected(String::from("ERROR ring busy")))
    );
}

#[test]
fn reply_classification_is_case_sensitive() {
    let r = classify_reply(String::from("Ok\n"));
    assert_eq!(r, Err(Error::RegistrationRejected(String::from("Ok\n"))));
}

#[test]
fn reply_with_extra_token_is_rejected() {
    let r = classify_reply(String::from("OK extra\n"));
    assert!(matches!(r, Err(Error::RegistrationRejected(_))));
}

#[test]
fn empty_reply_is_rejected() {
    assert!(classify_reply(String::new()).is_err());
}

#[test]
fn ring_name_strips_directory() {
    assert_eq!(ring_name("/dev/shm/events"), "events");
}

#[test]
fn ring_name_keeps_bare_name() {
    assert_eq!(ring_name("events"), "events");
}

#[test]
fn ring_name_of_trailing_slash_is_empty() {
    assert_eq!(ring_name("/dev/shm/"), "");
}

#[test]
fn ring_name_of_empty_path_is_empty() {
    assert_eq!(ring_name(""), "");
}
