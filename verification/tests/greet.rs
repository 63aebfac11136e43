use rust_wasm::greet;
use rust_wasm::greeting;
use rust_wasm::RecordingHost;

#[test]
fn greet_hands_one_message_to_host() {
    let mut host = RecordingHost::new();
    greet(&mut host, "World");
    assert_eq!(1, host.messages().len());
    assert_eq!("Hello, World!", host.messages()[0]);
}

#[test]
fn greet_empty_name() {
    let mut host = RecordingHost::new();
    greet(&mut host, "");
    assert_eq!(1, host.messages().len());
    assert_eq!("Hello, !", host.messages()[0]);
}

#[test]
fn greet_placeholder_characters_stay_literal() {
    let mut host = RecordingHost::new();
    greet(&mut host, "{}");
    assert_eq!(1, host.messages().len());
    assert_eq!("Hello, {}!", host.messages()[0]);
}

#[test]
fn greet_records_in_call_order() {
    let mut host = RecordingHost::new();
    greet(&mut host, "Ada");
    greet(&mut host, "Alan");
    assert_eq!(2, host.messages().len());
    assert_eq!("Hello, Ada!", host.messages()[0]);
    assert_eq!("Hello, Alan!", host.messages()[1]);
}

#[test]
fn greeting_builds_the_text() {
    assert_eq!("Hello, Ferris!", greeting("Ferris"));
}
