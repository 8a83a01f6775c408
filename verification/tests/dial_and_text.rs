use attack_simulator::intensity::{Intensity, DEFAULT_TENTHS, MAX_TENTHS};
use attack_simulator::text::{append_decimal, append_fixed1, append_fixed2, to_mib_hundredths};

fn decimal(n: u64) -> String {
    let mut s = String::new();
    append_decimal(&mut s, n);
    s
}

fn fixed1(n: u64) -> String {
    let mut s = String::new();
    append_fixed1(&mut s, n);
    s
}

fn fixed2(n: u64) -> String {
    let mut s = String::new();
    append_fixed2(&mut s, n);
    s
}

#[test]
fn dial_keeps_values_inside_the_range() {
    assert_eq!(Intensity::from_tenths(0).tenths(), 0);
    assert_eq!(Intensity::from_tenths(305).tenths(), 305);
    assert_eq!(Intensity::from_tenths(1000).tenths(), 1000);
}

#[test]
fn dial_clamps_below_zero() {
    assert_eq!(Intensity::from_tenths(-1).tenths(), 0);
    assert_eq!(Intensity::from_tenths(i64::MIN).tenths(), 0);
}

#[test]
fn dial_clamps_above_one_hundred_percent() {
    assert_eq!(Intensity::from_tenths(1001).tenths(), MAX_TENTHS);
    assert_eq!(Intensity::from_tenths(i64::MAX).tenths(), MAX_TENTHS);
}

#[test]
fn dial_from_percent() {
    assert_eq!(Intensity::from_percent(0).tenths(), 0);
    assert_eq!(Intensity::from_percent(30).tenths(), 300);
    assert_eq!(Intensity::from_percent(100).tenths(), 1000);
    assert_eq!(Intensity::from_percent(101).tenths(), 1000);
    assert_eq!(Intensity::from_percent(u32::MAX).tenths(), 1000);
}

#[test]
fn dial_default_is_fifty_percent() {
    assert_eq!(Intensity::default().tenths(), DEFAULT_TENTHS);
    assert_eq!(Intensity::default(), Intensity::from_percent(50));
}

#[test]
fn decimal_matches_std_formatting() {
    for n in [0u64, 1, 9, 10, 11, 99, 100, 255, 1000, 65535, 1234567890, u64::MAX] {
        assert_eq!(decimal(n), format!("{}", n));
    }
}

#[test]
fn decimal_appends_to_what_is_there() {
    let mut s = String::from("port ");
    append_decimal(&mut s, 8080);
    assert_eq!(s, "port 8080");
}

#[test]
fn fixed_point_with_one_place() {
    assert_eq!(fixed1(0), "0.0");
    assert_eq!(fixed1(5), "0.5");
    assert_eq!(fixed1(300), "30.0");
    assert_eq!(fixed1(305), "30.5");
    assert_eq!(fixed1(1000), "100.0");
}

#[test]
fn fixed_point_with_two_places() {
    assert_eq!(fixed2(0), "0.00");
    assert_eq!(fixed2(7), "0.07");
    assert_eq!(fixed2(70), "0.70");
    assert_eq!(fixed2(715), "7.15");
    assert_eq!(fixed2(2000), "20.00");
    assert_eq!(fixed2(123456), "1234.56");
}

#[test]
fn megabytes_round_to_the_nearest_hundredth() {
    assert_eq!(to_mib_hundredths(0), 0);
    assert_eq!(to_mib_hundredths(1048576), 100);
    assert_eq!(to_mib_hundredths(7_500_000), 715);
    assert_eq!(to_mib_hundredths(20 * 1048576), 2000);
    // 5242 bytes are 0.4999... hundredths, 5243 bytes are just over a half
    assert_eq!(to_mib_hundredths(5242), 0);
    assert_eq!(to_mib_hundredths(5243), 1);
    assert_eq!(to_mib_hundredths(u64::MAX), 1759218604441600);
}
