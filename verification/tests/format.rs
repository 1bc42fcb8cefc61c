use elapsed::Alignment;
use elapsed::Elapsed;
use elapsed::TimeUnit;

#[test]
fn accessors_scale_one_value() {
    let d = Elapsed::new(1, 300_000_000);
    assert_eq!(d.seconds(), 1);
    assert_eq!(d.millis(), 1_300);
    assert_eq!(d.micros(), 1_300_000);
    assert_eq!(d.nanos(), 1_300_000_000);
}

#[test]
fn accessors_agree_under_division() {
    let d = Elapsed::new(7, 654_321_098);
    assert_eq!(d.millis(), d.micros() / 1_000);
    assert_eq!(d.micros(), d.nanos() / 1_000);
    assert_eq!(d.millis(), d.nanos() / 1_000_000);
    assert_eq!(d.seconds(), d.nanos() / 1_000_000_000);
    assert_eq!(d.seconds(), d.millis() / 1_000);
}

#[test]
fn accessors_truncate_not_round() {
    let d = Elapsed::new(0, 999_999);
    assert_eq!(d.seconds(), 0);
    assert_eq!(d.millis(), 0);
    assert_eq!(d.micros(), 999);
    assert_eq!(d.nanos(), 999_999);
}

#[test]
fn unit_selection_is_coarsest_first() {
    assert_eq!(Elapsed::new(1, 0).unit(), TimeUnit::Seconds);
    assert_eq!(Elapsed::new(3, 999_999_999).unit(), TimeUnit::Seconds);
    assert_eq!(Elapsed::new(0, 5_000_000).unit(), TimeUnit::Millis);
    assert_eq!(Elapsed::new(0, 999_999_999).unit(), TimeUnit::Millis);
    assert_eq!(Elapsed::new(0, 5_000).unit(), TimeUnit::Micros);
    assert_eq!(Elapsed::new(0, 999_999).unit(), TimeUnit::Micros);
    assert_eq!(Elapsed::new(0, 5).unit(), TimeUnit::Nanos);
    assert_eq!(Elapsed::new(0, 999).unit(), TimeUnit::Nanos);
    assert_eq!(Elapsed::new(0, 0).unit(), TimeUnit::Nanos);
}

#[test]
fn format_one_second() {
    assert_eq!(Elapsed::new(1, 0).format(), "1.00 s");
}

#[test]
fn format_one_point_three_seconds() {
    assert_eq!(Elapsed::new(1, 300_000_000).format(), "1.30 s");
}

#[test]
fn format_milliseconds() {
    assert_eq!(Elapsed::new(0, 1_300_000).format(), "1.30 ms");
}

#[test]
fn format_microseconds() {
    assert_eq!(Elapsed::new(0, 1_300).format(), "1.30 μs");
}

#[test]
fn format_one_nanosecond() {
    assert_eq!(Elapsed::new(0, 1).format(), "1.00 ns");
}

#[test]
fn format_twenty_point_three_seconds() {
    assert_eq!(Elapsed::new(20, 300_000_000).format(), "20.30 s");
}

#[test]
fn format_zero() {
    assert_eq!(Elapsed::new(0, 0).format(), "0.00 ns");
}

#[test]
fn format_truncates_the_third_subunit_digit() {
    assert_eq!(Elapsed::new(123, 456_789_123).format(), "123.45 s");
    assert_eq!(Elapsed::new(0, 999_999_999).format(), "999.99 ms");
    assert_eq!(Elapsed::new(0, 1_999).format(), "1.99 μs");
}

#[test]
fn padding_in_a_width_twenty_field() {
    let d = Elapsed::new(20, 0);
    assert_eq!(d.format(), "20.00 s");
    assert_eq!(
        d.format_padded(20, Alignment::Right, ' '),
        "             20.00 s"
    );
    assert_eq!(
        d.format_padded(20, Alignment::Left, ' '),
        "20.00 s             "
    );
    assert_eq!(
        d.format_padded(20, Alignment::Center, ' '),
        "      20.00 s       "
    );
}

#[test]
fn padding_matches_the_standard_formatter() {
    let d = Elapsed::new(20, 0);
    let s = d.format();
    assert_eq!(d.format_padded(20, Alignment::Right, ' '), format!("{:>20}", s));
    assert_eq!(d.format_padded(20, Alignment::Left, ' '), format!("{:<20}", s));
    assert_eq!(d.format_padded(20, Alignment::Center, ' '), format!("{:^20}", s));
    assert_eq!(d.format_padded(12, Alignment::Center, '*'), format!("{:*^12}", s));
}

#[test]
fn padding_counts_characters_not_bytes() {
    let d = Elapsed::new(0, 1_300);
    assert_eq!(d.format_padded(10, Alignment::Right, ' '), format!("{:>10}", "1.30 μs"));
}

#[test]
fn padding_leaves_a_wide_enough_string_alone() {
    let d = Elapsed::new(1, 0);
    assert_eq!(d.format_padded(3, Alignment::Center, '-'), "1.00 s");
}

#[test]
fn overflow_is_reported_not_silently_wrong() {
    let d = Elapsed::new(u64::MAX, 999_999_999);
    assert_eq!(d.checked_millis(), None);
    assert_eq!(d.checked_micros(), None);
    assert_eq!(d.checked_nanos(), None);
    assert_eq!(d.checked_format(), None);
}

#[test]
fn near_the_overflow_boundary_formatting_still_works() {
    let secs = u64::MAX / 1_000;
    let d = Elapsed::new(secs, 0);
    assert_eq!(d.checked_millis(), Some(secs * 1_000));
    assert_eq!(d.checked_format(), Some(format!("{}.00 s", secs)));
    let over = Elapsed::new(secs + 1, 0);
    assert_eq!(over.checked_millis(), None);
    assert_eq!(over.checked_format(), None);
}

#[test]
fn checked_accessors_agree_with_the_plain_ones() {
    let d = Elapsed::new(4, 123_456_789);
    assert_eq!(d.checked_millis(), Some(d.millis()));
    assert_eq!(d.checked_micros(), Some(d.micros()));
    assert_eq!(d.checked_nanos(), Some(d.nanos()));
}
