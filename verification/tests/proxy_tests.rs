use notify_relay::codec::{decode, encode};
use notify_relay::proxy::{
    process_datagram, process_message, role_after_split, Role, GRACE_MILLIS, RECEIVE_BUFFER_SIZE,
};
use notify_relay::share::{starting_record, ShareLocation};

#[test]
fn one_entry_gives_one_record() {
    assert_eq!(process_message("READY=1"), vec!["READY".to_string()]);
    assert_eq!(process_message("READY=1\n"), vec!["READY".to_string()]);
    assert_eq!(process_message("STOPPING=1"), vec!["STOPPING".to_string()]);
    assert_eq!(process_message("WATCHDOG=1"), vec!["WATCHDOG".to_string()]);
}

#[test]
fn empty_payloads_give_no_record() {
    assert_eq!(process_message(""), Vec::<String>::new());
    assert_eq!(process_message("\n"), Vec::<String>::new());
    assert_eq!(process_message("  \n\t\n \r\n"), Vec::<String>::new());
}

#[test]
fn entries_are_trimmed() {
    assert_eq!(process_message("  READY=1 \t"), vec!["READY".to_string()]);
    assert_eq!(process_message("READY=1\r\n"), vec!["READY".to_string()]);
    assert_eq!(process_message("\u{a0}hello\u{3000}"), vec!["MESSAGE:hello".to_string()]);
    assert_eq!(process_message(" STATUS=a b  "), vec!["STATUS:STATUS=a b".to_string()]);
}

#[test]
fn each_entry_gives_a_record_in_order() {
    assert_eq!(
        process_message("STATUS=booting\nMAINPID=5\n\n  \nREADY=1\n"),
        vec!["STATUS:STATUS=booting".to_string(), "MESSAGE:MAINPID=5".to_string(), "READY".to_string()]
    );
}

#[test]
fn the_last_entry_wins() {
    let records = process_message("READY=1\nSTATUS=late\n\n");
    assert_eq!(records.last(), Some(&"STATUS:STATUS=late".to_string()));
    let records = process_message("STATUS=early\nWATCHDOG=1");
    assert_eq!(records.last(), Some(&"WATCHDOG".to_string()));
    let records = process_message("hello\nREADY=1\n   \n");
    assert_eq!(records.last(), Some(&"READY".to_string()));
}

#[test]
fn datagrams_are_read_as_text() {
    assert_eq!(process_datagram(b"READY=1\n"), vec!["READY".to_string()]);
    assert_eq!(
        process_datagram(b"STATUS=Installing packages"),
        vec!["STATUS:STATUS=Installing packages".to_string()]
    );
    assert_eq!(process_datagram(b""), Vec::<String>::new());
}

#[test]
fn bytes_that_are_no_text_are_replaced() {
    assert_eq!(process_datagram(&[0x61, 0xff, 0x62]), vec!["MESSAGE:a\u{fffd}b".to_string()]);
}

#[test]
fn the_split_decides_the_role() {
    assert_eq!(role_after_split(-1), Role::Failed);
    assert_eq!(role_after_split(0), Role::Listener);
    assert_eq!(role_after_split(1), Role::Launcher);
    assert_eq!(role_after_split(4711), Role::Launcher);
    assert_eq!(role_after_split(-2), Role::Launcher);
}

#[test]
fn the_shared_directory_names_its_files() {
    let share = ShareLocation::new("/run/relay");
    assert_eq!(share.dir(), "/run/relay");
    assert_eq!(share.endpoint(), "/run/relay/notify.sock");
    assert_eq!(share.status_record(), "/run/relay/container-status");
    assert_eq!(share.liveness_record(), "/run/relay/container-pid");
}

#[test]
fn each_side_has_its_default_directory() {
    assert_eq!(ShareLocation::sandbox_default().dir(), "/shared");
    assert_eq!(ShareLocation::host_default().dir(), "/tmp/container-notify");
}

#[test]
fn the_record_starts_as_starting() {
    assert_eq!(starting_record(), "STARTING");
}

#[test]
fn a_full_buffer_is_one_payload() {
    assert_eq!(RECEIVE_BUFFER_SIZE, 4096);
    assert_eq!(GRACE_MILLIS, 200);
    let mut bytes = vec![b' '; RECEIVE_BUFFER_SIZE - 8];
    bytes.extend_from_slice(b"READY=1\n");
    assert_eq!(bytes.len(), RECEIVE_BUFFER_SIZE);
    assert_eq!(process_datagram(&bytes), vec!["READY".to_string()]);
}

#[test]
fn entries_are_the_trimmed_lines_that_hold_text() {
    let payloads = [
        "",
        "\n",
        "READY=1",
        "READY=1\n",
        "a\r\nb\r\n",
        "a\rb",
        "\r",
        " a \n\n b \n",
        "STATUS=x\nREADY=1\n\u{2003}\nlast",
        "one\u{2028}two",
        "\u{feff}READY=1",
        "tab\there\n\tWATCHDOG=1\t",
    ];
    for payload in payloads {
        let mut expected: Vec<String> = Vec::new();
        for line in payload.lines() {
            let line = line.trim();
            if !line.is_empty() {
                expected.push(encode(&decode(line)));
            }
        }
        assert_eq!(process_message(payload), expected);
    }
}
