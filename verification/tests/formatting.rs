use presence_core::shared::{format_bytes, format_duration, u64_to_string};

#[test]
fn numbers_render_in_decimal() {
    assert_eq!(u64_to_string(0), "0");
    assert_eq!(u64_to_string(7), "7");
    assert_eq!(u64_to_string(10), "10");
    assert_eq!(u64_to_string(1234567890), "1234567890");
    assert_eq!(u64_to_string(u64::MAX), "18446744073709551615");
}

#[test]
fn durations_render_by_magnitude() {
    assert_eq!(format_duration(0), "0s");
    assert_eq!(format_duration(5), "5s");
    assert_eq!(format_duration(59), "59s");
    assert_eq!(format_duration(60), "1m");
    assert_eq!(format_duration(90), "1m 30s");
    assert_eq!(format_duration(3599), "59m 59s");
    assert_eq!(format_duration(3600), "1h");
    assert_eq!(format_duration(3720), "1h 2m");
    assert_eq!(format_duration(86400), "24h");
}

#[test]
fn byte_counts_render_scaled() {
    assert_eq!(format_bytes(0), "0 B");
    assert_eq!(format_bytes(512), "512 B");
    assert_eq!(format_bytes(1023), "1023 B");
    assert_eq!(format_bytes(1024), "1.0 KB");
    assert_eq!(format_bytes(1536), "1.5 KB");
    assert_eq!(format_bytes(2048), "2.0 KB");
    assert_eq!(format_bytes(3 * 1024 * 1024 + 512 * 1024), "3.5 MB");
    assert_eq!(format_bytes(1024 * 1024 * 1024), "1.0 GB");
    assert_eq!(format_bytes(10 * 1024 * 1024 * 1024 + 200 * 1024 * 1024), "10.2 GB");
}

#[test]
fn byte_count_ties_round_to_even() {
    // 1280 B is exactly 1.25 KB: the tenth below is even, so it stays.
    assert_eq!(format_bytes(1280), "1.2 KB");
    assert_eq!(format_bytes(2304), "2.2 KB");
    assert_eq!(format_bytes(1310720), "1.2 MB");
    // 1792 B is exactly 1.75 KB: the tenth below is odd, so it rounds up.
    assert_eq!(format_bytes(1792), "1.8 KB");
    // The same values through one-decimal float formatting agree.
    for bytes in [1280u64, 2304, 1310720, 1792] {
        let unit = if bytes >= 1024 * 1024 { 1024.0 * 1024.0 } else { 1024.0 };
        let suffix = if bytes >= 1024 * 1024 { "MB" } else { "KB" };
        let expected = format!("{:.1} {}", bytes as f64 / unit, suffix);
        assert_eq!(format_bytes(bytes), expected);
    }
}
