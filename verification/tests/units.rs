use computer_specs::text::{format_size, u64_to_string};
use computer_specs::units::bytes_to_readable;

#[test]
fn zero_bytes_is_zero_b() {
    assert_eq!(bytes_to_readable(0), (0, "B"));
}

#[test]
fn below_one_kb_stays_bytes() {
    assert_eq!(bytes_to_readable(1023), (1023, "B"));
}

#[test]
fn exactly_one_kb() {
    assert_eq!(bytes_to_readable(1024), (1, "KB"));
}

#[test]
fn exactly_one_tb() {
    assert_eq!(bytes_to_readable(1099511627776), (1, "TB"));
}

#[test]
fn rounds_half_up() {
    // 1536 bytes is 1.5 KB; ties round up.
    assert_eq!(bytes_to_readable(1536), (2, "KB"));
}

#[test]
fn rounds_down_below_half() {
    // 1535 bytes is just under 1.5 KB.
    assert_eq!(bytes_to_readable(1535), (1, "KB"));
}

#[test]
fn five_gib() {
    assert_eq!(bytes_to_readable(5 * 1024 * 1024 * 1024), (5, "GB"));
}

#[test]
fn megabyte_rounding() {
    // 2.25 MiB rounds to 2 MB.
    assert_eq!(bytes_to_readable(2359296), (2, "MB"));
}

#[test]
fn decimal_zero() {
    assert_eq!(u64_to_string(0), "0");
}

#[test]
fn decimal_digits_in_order() {
    assert_eq!(u64_to_string(1234567890), "1234567890");
}

#[test]
fn decimal_max() {
    assert_eq!(u64_to_string(u64::MAX), "18446744073709551615");
}

#[test]
fn format_size_zero() {
    assert_eq!(format_size(0), "0 B");
}

#[test]
fn format_size_rounded_kb() {
    assert_eq!(format_size(1536), "2 KB");
}

#[test]
fn format_size_gb() {
    assert_eq!(format_size(8 * 1024 * 1024 * 1024), "8 GB");
}
