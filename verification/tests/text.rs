use grpc_simulation::text::{
    decimal_padded_string, decimal_string, greeting_text, join_texts, joined_greeting_text,
    stream_reply_text, unary_reply_text,
};

#[test]
fn decimal_numerals() {
    assert_eq!(decimal_string(0), "0");
    assert_eq!(decimal_string(7), "7");
    assert_eq!(decimal_string(10), "10");
    assert_eq!(decimal_string(120), "120");
    assert_eq!(decimal_string(9007199254740993), "9007199254740993");
    assert_eq!(decimal_string(usize::MAX), usize::MAX.to_string());
}

#[test]
fn decimal_numerals_on_two_places() {
    assert_eq!(decimal_padded_string(0), "00");
    assert_eq!(decimal_padded_string(1), "01");
    assert_eq!(decimal_padded_string(9), "09");
    assert_eq!(decimal_padded_string(10), "10");
    assert_eq!(decimal_padded_string(17), "17");
    assert_eq!(decimal_padded_string(100), "100");
}

#[test]
fn reply_texts() {
    assert_eq!(unary_reply_text("TestUser"), "You got, TestUser message!");
    assert_eq!(unary_reply_text(""), "You got,  message!");
    assert_eq!(greeting_text("User1"), "Hello, User1!");
    assert_eq!(stream_reply_text("StreamUser", 1), "Hello, StreamUser! (1 times)");
    assert_eq!(stream_reply_text("StreamUser", 3), "Hello, StreamUser! (3 times)");
    assert_eq!(stream_reply_text("ü", 12), "Hello, ü! (12 times)");
}

#[test]
fn joined_texts() {
    let none: Vec<String> = Vec::new();
    assert_eq!(join_texts(&none, ", "), "");
    assert_eq!(join_texts(&vec!["Alice".to_string()], ", "), "Alice");
    let three = vec!["Alice".to_string(), "Bob".to_string(), "Charlie".to_string()];
    assert_eq!(join_texts(&three, ", "), "Alice, Bob, Charlie");
    assert_eq!(join_texts(&three, ""), "AliceBobCharlie");
    let with_empty = vec!["".to_string(), "Bob".to_string(), "".to_string()];
    assert_eq!(join_texts(&with_empty, "-"), "-Bob-");
    assert_eq!(joined_greeting_text(&three), "Hello, Alice, Bob, Charlie!");
    assert_eq!(joined_greeting_text(&none), "Hello, !");
}
