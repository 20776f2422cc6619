use proctop::text::{decimal, join, pad_left, parse_u32, two_digits, uptime};

#[test]
fn decimals_are_as_the_standard_library_writes_them() {
    for n in [0u64, 1, 9, 10, 11, 99, 100, 101, 1009, 65535, 4294967296, u64::MAX - 1, u64::MAX] {
        assert_eq!(decimal(n), n.to_string());
        assert_eq!(two_digits(n), format!("{:02}", n));
    }
}

#[test]
fn uptimes() {
    assert_eq!(uptime(0), "00d 00h 00m 00s");
    assert_eq!(uptime(59), "00d 00h 00m 59s");
    assert_eq!(uptime(3661), "00d 01h 01m 01s");
    assert_eq!(uptime(86399), "00d 23h 59m 59s");
    assert_eq!(uptime(86400 * 123 + 3600 * 4 + 60 * 5 + 6), "123d 04h 05m 06s");
    let max = u64::MAX;
    assert_eq!(
        uptime(max),
        format!(
            "{:02}d {:02}h {:02}m {:02}s",
            max / 86400,
            (max % 86400) / 3600,
            (max % 3600) / 60,
            max % 60
        )
    );
}

#[test]
fn padding() {
    assert_eq!(pad_left("7.25", 6), "  7.25");
    assert_eq!(pad_left("100.00", 6), "100.00");
    assert_eq!(pad_left("1000.00", 6), "1000.00");
    assert_eq!(pad_left("", 3), "   ");
    assert_eq!(pad_left("─", 3), "  ─");
    assert_eq!(pad_left("x", 0), "x");
    for value in [0.0f64, 7.256, 99.999, 12345678.9] {
        assert_eq!(pad_left(&format!("{:.2}", value), 8), format!("{:>8.2}", value));
    }
}

#[test]
fn joining() {
    let parts: Vec<String> = ["a", "", "c d"].iter().map(|s| s.to_string()).collect();
    assert_eq!(join(&parts, " "), "a  c d");
    assert_eq!(join(&vec![], " "), "");
    assert_eq!(join(&vec!["only".to_string()], " "), "only");
}

#[test]
fn parsing_agrees_with_the_standard_library() {
    for text in [
        "", "+", "-", "0", "+0", "-0", "7", "+7", "++7", "007", "12a", "a12", " 1", "1 ", "4294967295",
        "4294967296", "42949672950", "99999999999999999999999", "+4294967295", "9999999999x", "٣",
    ] {
        assert_eq!(parse_u32(text), text.parse::<u32>().ok(), "{:?}", text);
    }
}

#[test]
fn decimals_read_back() {
    for n in [0u32, 5, 10, 4096, u32::MAX] {
        assert_eq!(parse_u32(&decimal(n as u64)), Some(n));
    }
}
