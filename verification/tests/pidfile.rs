use whatmedoin::pidfile::{is_running, pid_file_contents, read_pid, PidError};

fn std_reading(s: &str) -> Option<i32> {
    s.trim().parse::<i32>().ok()
}

#[test]
fn reads_plain_pid() {
    assert_eq!(read_pid(Some("1234")), Ok(1234));
}

#[test]
fn reads_pid_with_trailing_newline() {
    assert_eq!(read_pid(Some("1234\n")), Ok(1234));
}

#[test]
fn reads_signed_pids() {
    assert_eq!(read_pid(Some("  -7 ")), Ok(-7));
    assert_eq!(read_pid(Some("+5")), Ok(5));
}

#[test]
fn trims_unicode_white_space() {
    assert_eq!(read_pid(Some("\u{A0}42\u{3000}\r\n")), Ok(42));
}

#[test]
fn missing_file_is_unreadable() {
    assert_eq!(read_pid(None), Err(PidError::Unreadable));
}

#[test]
fn garbage_is_malformed() {
    for s in ["", "   ", "abc", "12 34", "-", "+", "1.5", "0x10", "--3", "+-3", "٣"] {
        assert_eq!(read_pid(Some(s)), Err(PidError::Malformed), "input {:?}", s);
    }
}

#[test]
fn i32_bounds() {
    assert_eq!(read_pid(Some("2147483647")), Ok(i32::MAX));
    assert_eq!(read_pid(Some("-2147483648")), Ok(i32::MIN));
    assert_eq!(read_pid(Some("2147483648")), Err(PidError::Malformed));
    assert_eq!(read_pid(Some("-2147483649")), Err(PidError::Malformed));
    assert_eq!(read_pid(Some("99999999999999999999")), Err(PidError::Malformed));
    assert_eq!(read_pid(Some("00000000000000000042")), Ok(42));
}

#[test]
fn agrees_with_std_trim_and_parse() {
    let inputs = [
        "0", "7", " 8 ", "\t-19\n", "+0", "-0", "2147483647", "2147483648", "-2147483648",
        "-2147483649", "4294967296", "1 ", " 1", "1\u{85}", "\u{2028}3", "\u{200B}3", "3\u{FEFF}",
        "12a", "a12", "", "\n", "+", "-", "++1", "1_000", "٣", "00", "-00012",
    ];
    for s in inputs {
        let ours = read_pid(Some(s)).ok();
        assert_eq!(ours, std_reading(s), "input {:?}", s);
    }
}

#[test]
fn running_iff_pid_readable() {
    assert!(is_running(Some("31337\n")));
    assert!(!is_running(Some("not a pid")));
    assert!(!is_running(None));
}

#[test]
fn pid_file_holds_decimal() {
    assert_eq!(pid_file_contents(0), "0");
    assert_eq!(pid_file_contents(4242), "4242");
    assert_eq!(pid_file_contents(u32::MAX), u32::MAX.to_string());
}

#[test]
fn pid_file_round_trip() {
    for pid in [0u32, 1, 9, 10, 99, 100, 12345, 65535, 2147483647] {
        let written = pid_file_contents(pid);
        assert_eq!(read_pid(Some(&written)), Ok(pid as i32));
        let with_newline = format!("{}\n", written);
        assert_eq!(read_pid(Some(&with_newline)), Ok(pid as i32));
        assert!(is_running(Some(&written)));
    }
}

#[test]
fn pid_above_i32_does_not_round_trip() {
    let written = pid_file_contents(3_000_000_000);
    assert_eq!(read_pid(Some(&written)), Err(PidError::Malformed));
}
