use acme_bot_remote::commands::Command;
use acme_bot_remote::numfmt::format_duration;

#[test]
fn volume_payload_matches_wire_format() {
    let payload = Command::Volume { value: 57 }.to_json(482913);
    assert_eq!(payload, "{\"op\":\"volume\",\"code\":482913,\"value\":57}");
}

#[test]
fn code_only_payloads_match_wire_format() {
    assert_eq!(Command::Resume.to_json(7), "{\"op\":\"resume\",\"code\":7}");
    assert_eq!(Command::Pause.to_json(7), "{\"op\":\"pause\",\"code\":7}");
    assert_eq!(Command::Stop.to_json(7), "{\"op\":\"stop\",\"code\":7}");
    assert_eq!(Command::Clear.to_json(7), "{\"op\":\"clear\",\"code\":7}");
    assert_eq!(Command::Skip.to_json(7), "{\"op\":\"skip\",\"code\":7}");
    assert_eq!(Command::Prev.to_json(7), "{\"op\":\"prev\",\"code\":7}");
}

#[test]
fn loop_payload_carries_flag() {
    assert_eq!(
        Command::Loop { enabled: true }.to_json(42),
        "{\"op\":\"loop\",\"code\":42,\"enabled\":true}"
    );
    assert_eq!(
        Command::Loop { enabled: false }.to_json(42),
        "{\"op\":\"loop\",\"code\":42,\"enabled\":false}"
    );
}

#[test]
fn move_and_remove_payloads_carry_offset_and_id() {
    let cmd = Command::Move {
        offset: 3,
        id: "dQw4w9WgXcQ".to_string(),
    };
    assert_eq!(
        cmd.to_json(482913),
        "{\"op\":\"move\",\"code\":482913,\"offset\":3,\"id\":\"dQw4w9WgXcQ\"}"
    );
    let cmd = Command::Remove {
        offset: 0,
        id: "abc".to_string(),
    };
    assert_eq!(
        cmd.to_json(1),
        "{\"op\":\"remove\",\"code\":1,\"offset\":0,\"id\":\"abc\"}"
    );
}

#[test]
fn payload_id_is_json_escaped() {
    let cmd = Command::Move {
        offset: 1,
        id: "a\"b\\c\nd\te\u{1}".to_string(),
    };
    assert_eq!(
        cmd.to_json(5),
        "{\"op\":\"move\",\"code\":5,\"offset\":1,\"id\":\"a\\\"b\\\\c\\nd\\te\\u0001\"}"
    );
}

#[test]
fn negative_access_code_is_rendered_with_sign() {
    assert_eq!(Command::Pause.to_json(-12), "{\"op\":\"pause\",\"code\":-12}");
    assert_eq!(
        Command::Pause.to_json(i64::MIN),
        "{\"op\":\"pause\",\"code\":-9223372036854775808}"
    );
}

#[test]
fn durations_format_like_a_clock() {
    assert_eq!(format_duration(0), "0:00");
    assert_eq!(format_duration(59), "0:59");
    assert_eq!(format_duration(60), "1:00");
    assert_eq!(format_duration(252), "4:12");
    assert_eq!(format_duration(3599), "59:59");
    assert_eq!(format_duration(3600), "1:00:00");
    assert_eq!(format_duration(3661), "1:01:01");
    assert_eq!(format_duration(86399), "23:59:59");
}
