use ssh_probe::human_readable_unit::HumanReadableUnit;

fn show(n: u64) -> String {
    HumanReadableUnit::new(n).to_string()
}

#[test]
fn units_of_documented_values() {
    assert_eq!(show(999), "999B");
    assert_eq!(show(1500), "1.5K");
    assert_eq!(show(2_500_000), "2.5M");
    assert_eq!(show(3_000_000_000), "3G");
}

#[test]
fn units_at_bucket_edges() {
    assert_eq!(show(0), "0B");
    assert_eq!(show(1000), "1K");
    assert_eq!(show(999_999), "999.999K");
    assert_eq!(show(1_000_000), "1M");
    assert_eq!(show(999_999_999), "999.999999M");
    assert_eq!(show(1_000_000_000), "1G");
}

#[test]
fn units_keep_inner_zeros() {
    assert_eq!(show(1_005), "1.005K");
    assert_eq!(show(1_050), "1.05K");
    assert_eq!(show(20_000_001), "20.000001M");
    assert_eq!(show(409_600), "409.6K");
}

#[test]
fn units_of_largest_count() {
    assert_eq!(show(u64::MAX), "18446744073.709551615G");
}

#[test]
fn units_are_stable() {
    let u = HumanReadableUnit::new(123_456_789);
    assert_eq!(u.to_string(), "123.456789M");
    assert_eq!(u.to_string(), u.to_string());
    assert_eq!(u.bytes(), 123_456_789);
}
