use sgx_tcp::{other, would_block, State};
use std::io::ErrorKind;

#[test]
fn other_is_generic_and_carries_the_message() {
    let e = other("the proxy hung up");
    assert_eq!(e.kind(), ErrorKind::Other);
    assert_eq!(e.to_string(), "the proxy hung up");
    let payload = e.get_ref().expect("made with a payload");
    assert_eq!(payload.to_string(), "the proxy hung up");
}

#[test]
fn other_with_an_empty_message() {
    let e = other("");
    assert_eq!(e.kind(), ErrorKind::Other);
    assert_eq!(e.to_string(), "");
    assert!(e.get_ref().is_some());
}

#[test]
fn other_keeps_each_message_apart() {
    assert_eq!(other("first").to_string(), "first");
    assert_eq!(other("second").to_string(), "second");
}

#[test]
fn would_block_is_known_by_its_kind() {
    let e = would_block();
    assert_eq!(e.kind(), ErrorKind::WouldBlock);
    assert!(e.get_ref().is_none());
    assert!(e.raw_os_error().is_none());
}

#[test]
fn would_block_and_other_differ_in_kind() {
    assert_ne!(would_block().kind(), other("would block").kind());
}

#[test]
fn both_errors_travel_through_a_state_unchanged() {
    let mut s: State<(), (), ()> = State::from(Err(other("kept as it is")));
    let e = s.take_error(State::Error(would_block())).expect("an error went in");
    assert_eq!(e.kind(), ErrorKind::Other);
    assert_eq!(e.to_string(), "kept as it is");
    let e = s.take_error(State::New(())).expect("the replacement was an error");
    assert_eq!(e.kind(), ErrorKind::WouldBlock);
    assert!(s.is_new());
}
