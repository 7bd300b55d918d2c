use sleepd::log::{LogEvent, Severity};
use sleepd::text::{decimal, hex, push_decimal, push_hex};

#[test]
fn hex_of_five_is_0x05() {
    assert_eq!(hex(0x05), "0x05");
}

#[test]
fn hex_pads_and_uses_lowercase() {
    assert_eq!(hex(0x00), "0x00");
    assert_eq!(hex(0x0a), "0x0a");
    assert_eq!(hex(0x10), "0x10");
    assert_eq!(hex(0x77), "0x77");
    assert_eq!(hex(0xab), "0xab");
    assert_eq!(hex(0xff), "0xff");
}

#[test]
fn hex_agrees_with_the_standard_formatter_on_every_byte() {
    for byte in 0..=255u8 {
        assert_eq!(hex(byte), format!("{:#04x}", byte));
    }
}

#[test]
fn push_hex_appends() {
    let mut out = String::from("byte ");
    push_hex(&mut out, 0x3c);
    assert_eq!(out, "byte 0x3c");
    push_hex(&mut out, 0x01);
    assert_eq!(out, "byte 0x3c0x01");
}

#[test]
fn decimal_of_small_and_large_numbers() {
    assert_eq!(decimal(0), "0");
    assert_eq!(decimal(7), "7");
    assert_eq!(decimal(10), "10");
    assert_eq!(decimal(99), "99");
    assert_eq!(decimal(100), "100");
    assert_eq!(decimal(8080), "8080");
    assert_eq!(decimal(8253), "8253");
    assert_eq!(decimal(65535), "65535");
}

#[test]
fn decimal_agrees_with_the_standard_formatter_on_every_port() {
    for n in 0..=u16::MAX {
        assert_eq!(decimal(n), format!("{}", n));
    }
}

#[test]
fn push_decimal_appends() {
    let mut out = String::from("port ");
    push_decimal(&mut out, 8253);
    assert_eq!(out, "port 8253");
    push_decimal(&mut out, 0);
    assert_eq!(out, "port 82530");
}

#[test]
fn message_of_listening_names_the_port() {
    assert_eq!(LogEvent::Listening { port: 8253 }.message(), "Listening on port: 8253");
    assert_eq!(LogEvent::Listening { port: 8080 }.message(), "Listening on port: 8080");
    assert_eq!(LogEvent::Listening { port: 0 }.message(), "Listening on port: 0");
}

#[test]
fn message_of_fixed_lines() {
    assert_eq!(LogEvent::ConnectionAccepted.message(), "Got a connection");
    assert_eq!(LogEvent::SleepIntent.message(), "Putting the server to sleep");
    assert_eq!(LogEvent::Awake.message(), "Server is now awake");
}

#[test]
fn message_of_unknown_command_shows_the_byte_in_hex() {
    assert_eq!(LogEvent::UnknownCommand { byte: 0x05 }.message(), "Unknown command: 0x05");
    assert_eq!(LogEvent::UnknownCommand { byte: 0x00 }.message(), "Unknown command: 0x00");
    assert_eq!(LogEvent::UnknownCommand { byte: 0xfe }.message(), "Unknown command: 0xfe");
}

#[test]
fn message_of_unknown_command_contains_hex_of_every_byte() {
    for byte in 0..=255u8 {
        let message = LogEvent::UnknownCommand { byte }.message();
        assert!(message.contains(&format!("{:#04x}", byte)));
        assert!(message.ends_with(&hex(byte)));
    }
}

#[test]
fn only_unknown_command_is_an_error() {
    assert_eq!(LogEvent::Listening { port: 8253 }.severity(), Severity::Info);
    assert_eq!(LogEvent::ConnectionAccepted.severity(), Severity::Info);
    assert_eq!(LogEvent::SleepIntent.severity(), Severity::Info);
    assert_eq!(LogEvent::Awake.severity(), Severity::Info);
    assert_eq!(LogEvent::UnknownCommand { byte: 5 }.severity(), Severity::Error);
}
