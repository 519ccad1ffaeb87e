use mt::error::{ConnectError, PairingHint};
use mt::text::{contains_str, parse_unsigned, str_eq, to_ascii_upper, trim};
use mt::transport::ble::map_connect_error;
use mt::transport::mock::Script;

#[test]
fn trimming_and_case() {
    assert_eq!(trim("  a b \t\n"), "a b");
    assert_eq!(trim(""), "");
    assert_eq!(to_ascii_upper("aBc-ä"), "ABC-ä");
    assert!(contains_str("hello world", "o w"));
    assert!(!contains_str("hello", "world"));
    assert!(contains_str("x", ""));
    assert!(str_eq("abc", "abc"));
    assert!(!str_eq("abc", "abd"));
}

#[test]
fn unsigned_parsing_matches_str_parse() {
    for s in ["0", "42", "+7", "65535", "65536", "", "+", "-1", "1 2", "007"] {
        let expected = s.parse::<u16>().ok().map(u64::from);
        assert_eq!(parse_unsigned(s, 65535), expected, "input {s:?}");
    }
    assert_eq!(parse_unsigned("18446744073709551615", u64::MAX), Some(u64::MAX));
    assert_eq!(parse_unsigned("18446744073709551616", u64::MAX), None);
}

#[test]
fn ble_connect_errors() {
    assert!(matches!(
        map_connect_error("Authentication failed", PairingHint::Macos),
        ConnectError::BlePairingRequired(PairingHint::Macos)
    ));
    assert!(matches!(
        map_connect_error("insufficient AUTHorization", PairingHint::LinuxBluetoothctl),
        ConnectError::BlePairingRequired(PairingHint::LinuxBluetoothctl)
    ));
    match map_connect_error("device went away", PairingHint::Windows) {
        ConnectError::BleGatt(m) => assert_eq!(m, "device went away"),
        other => panic!("unexpected {other:?}"),
    }
}

#[test]
fn mock_script_keeps_frames() {
    let s = Script::from_frames(vec![vec![1], vec![2, 3]]);
    assert_eq!(s.frames, vec![vec![1], vec![2, 3]]);
}
