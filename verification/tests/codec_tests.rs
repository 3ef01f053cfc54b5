use notify_relay::codec::{decode, decode_record, encode, Notification};

#[test]
fn decode_ready_line() {
    assert_eq!(decode("READY=1"), Notification::Ready);
}

#[test]
fn decode_stopping_line() {
    assert_eq!(decode("STOPPING=1"), Notification::Stopping);
}

#[test]
fn decode_watchdog_line() {
    assert_eq!(decode("WATCHDOG=1"), Notification::Watchdog);
}

#[test]
fn decode_status_keeps_the_whole_line() {
    assert_eq!(
        decode("STATUS=Installing packages"),
        Notification::Status("STATUS=Installing packages".to_string())
    );
    assert_eq!(decode("STATUS="), Notification::Status("STATUS=".to_string()));
}

#[test]
fn decode_anything_else_is_a_message() {
    assert_eq!(decode("MAINPID=12"), Notification::Message("MAINPID=12".to_string()));
    assert_eq!(decode("READY=0"), Notification::Message("READY=0".to_string()));
    assert_eq!(decode("READY=1 "), Notification::Message("READY=1 ".to_string()));
    assert_eq!(decode("ready=1"), Notification::Message("ready=1".to_string()));
    assert_eq!(decode("STATUS"), Notification::Message("STATUS".to_string()));
    assert_eq!(decode("EXIT:3"), Notification::Message("EXIT:3".to_string()));
    assert_eq!(decode(""), Notification::Message(String::new()));
}

#[test]
fn decode_keeps_text_beyond_ascii() {
    assert_eq!(decode("STATUS=caf\u{e9}"), Notification::Status("STATUS=caf\u{e9}".to_string()));
    assert_eq!(decode("\u{4f60}\u{597d}"), Notification::Message("\u{4f60}\u{597d}".to_string()));
}

#[test]
fn encode_sentinels_as_bare_tags() {
    assert_eq!(encode(&Notification::Ready), "READY");
    assert_eq!(encode(&Notification::Stopping), "STOPPING");
    assert_eq!(encode(&Notification::Watchdog), "WATCHDOG");
}

#[test]
fn encode_status_and_message_behind_their_tags() {
    assert_eq!(encode(&Notification::Status("STATUS=up".to_string())), "STATUS:STATUS=up");
    assert_eq!(encode(&Notification::Message("hello".to_string())), "MESSAGE:hello");
    assert_eq!(encode(&Notification::Status(String::new())), "STATUS:");
}

#[test]
fn encode_exit_codes_in_decimal() {
    assert_eq!(encode(&Notification::Exit(42)), "EXIT:42");
    assert_eq!(encode(&Notification::Exit(0)), "EXIT:0");
    assert_eq!(encode(&Notification::Exit(7)), "EXIT:7");
    assert_eq!(encode(&Notification::Exit(100)), "EXIT:100");
    assert_eq!(encode(&Notification::Exit(-1)), "EXIT:-1");
    assert_eq!(encode(&Notification::Exit(i32::MAX)), "EXIT:2147483647");
    assert_eq!(encode(&Notification::Exit(i32::MIN)), "EXIT:-2147483648");
}

#[test]
fn decode_record_reads_the_tags() {
    assert_eq!(decode_record("READY"), Some(Notification::Ready));
    assert_eq!(decode_record("STOPPING"), Some(Notification::Stopping));
    assert_eq!(decode_record("WATCHDOG"), Some(Notification::Watchdog));
}

#[test]
fn decode_record_strips_one_envelope() {
    assert_eq!(
        decode_record("STATUS:STATUS=Installing packages"),
        Some(Notification::Status("STATUS=Installing packages".to_string()))
    );
    assert_eq!(decode_record("STATUS:"), Some(Notification::Status(String::new())));
    assert_eq!(
        decode_record("MESSAGE:MESSAGE:x"),
        Some(Notification::Message("MESSAGE:x".to_string()))
    );
}

#[test]
fn decode_record_reads_exit_codes() {
    assert_eq!(decode_record("EXIT:42"), Some(Notification::Exit(42)));
    assert_eq!(decode_record("EXIT:0"), Some(Notification::Exit(0)));
    assert_eq!(decode_record("EXIT:+7"), Some(Notification::Exit(7)));
    assert_eq!(decode_record("EXIT:-3"), Some(Notification::Exit(-3)));
    assert_eq!(decode_record("EXIT:007"), Some(Notification::Exit(7)));
    assert_eq!(decode_record("EXIT:2147483647"), Some(Notification::Exit(i32::MAX)));
    assert_eq!(decode_record("EXIT:-2147483648"), Some(Notification::Exit(i32::MIN)));
}

#[test]
fn decode_record_refuses_bad_exit_codes() {
    assert_eq!(decode_record("EXIT:"), None);
    assert_eq!(decode_record("EXIT:-"), None);
    assert_eq!(decode_record("EXIT:+"), None);
    assert_eq!(decode_record("EXIT:abc"), None);
    assert_eq!(decode_record("EXIT:4 2"), None);
    assert_eq!(decode_record("EXIT: 42"), None);
    assert_eq!(decode_record("EXIT:2147483648"), None);
    assert_eq!(decode_record("EXIT:-2147483649"), None);
    assert_eq!(decode_record("EXIT:99999999999999999999999"), None);
    assert_eq!(decode_record("EXIT:--1"), None);
}

#[test]
fn decode_record_knows_no_other_record() {
    assert_eq!(decode_record("STARTING"), None);
    assert_eq!(decode_record(""), None);
    assert_eq!(decode_record("READY=1"), None);
    assert_eq!(decode_record("ready"), None);
    assert_eq!(decode_record("STATUS"), None);
    assert_eq!(decode_record("READY "), None);
}

#[test]
fn every_notification_is_read_back_from_its_record() {
    let all = vec![
        Notification::Ready,
        Notification::Stopping,
        Notification::Watchdog,
        Notification::Status("STATUS=half way".to_string()),
        Notification::Message("MAINPID=1".to_string()),
        Notification::Exit(42),
        Notification::Exit(-128),
        Notification::Exit(i32::MIN),
    ];
    for n in all {
        assert_eq!(decode_record(&encode(&n)), Some(n));
    }
}

#[test]
fn sentinel_lines_survive_both_sides() {
    assert_eq!(decode_record(&encode(&decode("READY=1"))), Some(Notification::Ready));
    assert_eq!(decode_record(&encode(&decode("STOPPING=1"))), Some(Notification::Stopping));
    assert_eq!(decode_record(&encode(&decode("WATCHDOG=1"))), Some(Notification::Watchdog));
}

#[test]
fn status_round_trip_keeps_the_inner_prefix() {
    let record = encode(&decode("STATUS=Installing packages"));
    assert_eq!(record, "STATUS:STATUS=Installing packages");
    assert_eq!(
        decode_record(&record),
        Some(Notification::Status("STATUS=Installing packages".to_string()))
    );
}
