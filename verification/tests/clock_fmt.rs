use oled_clock::clock::format_ms;

#[test]
fn format_zero() {
    assert_eq!(format_ms(0), "00:00.00");
}

#[test]
fn format_one_centisecond() {
    assert_eq!(format_ms(10), "00:00.01");
}

#[test]
fn format_just_under_a_second() {
    assert_eq!(format_ms(999), "00:00.99");
}

#[test]
fn format_one_second() {
    assert_eq!(format_ms(1_000), "00:01.00");
}

#[test]
fn format_just_under_a_minute() {
    assert_eq!(format_ms(59_999), "00:59.99");
}

#[test]
fn format_one_minute() {
    assert_eq!(format_ms(60_000), "01:00.00");
}

#[test]
fn format_sixty_minutes() {
    assert_eq!(format_ms(3_600_000), "60:00.00");
}

#[test]
fn format_wraps_at_one_hundred_minutes() {
    assert_eq!(format_ms(6_000_000), "00:00.00");
}

#[test]
fn format_just_under_the_wrap() {
    assert_eq!(format_ms(5_999_999), "99:59.99");
}

#[test]
fn format_sub_centisecond_truncates() {
    assert_eq!(format_ms(9), "00:00.00");
}
