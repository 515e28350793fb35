use llmup::human::{bench_duration_units, duration_units, repeated_div, repeated_div_by, size_units};

#[test]
fn test_repeated_div() {
    let mut out = [0, 0, 0];
    let rem = repeated_div_by(&mut out, 1_234_456_789, &[1000, 1000, 1000]);

    assert_eq!(rem, 1);
    assert_eq!(out[2], 234);
    assert_eq!(out[1], 456);
    assert_eq!(out[0], 789);
}

#[test]
fn repeated_div_gives_base_digits() {
    let mut out = [0u64; 4];
    repeated_div(&mut out, 0x1234, 16);
    assert_eq!(out, [4, 3, 2, 1]);
}

#[test]
fn size_units_in_bytes() {
    assert_eq!(size_units(0), "0 B");
    assert_eq!(size_units(1023), "1023 B");
}

#[test]
fn size_units_in_larger_units() {
    assert_eq!(size_units(1024), "1.000 KiB");
    assert_eq!(size_units(1536), "1.512 KiB");
    assert_eq!(size_units(5 * 1024 * 1024 + 3 * 1024), "5.003 MiB");
    assert_eq!(size_units(3 * 1024 * 1024 * 1024 + 45 * 1024 * 1024), "3.045 GiB");
    assert_eq!(size_units(2 * 1024u64.pow(4) + 1023 * 1024u64.pow(3)), "2.1023 TiB");
}

#[test]
fn duration_units_below_a_day() {
    assert_eq!(duration_units(0), "0 seconds");
    assert_eq!(duration_units(59), "59 seconds");
    assert_eq!(duration_units(60), "1 minutes");
    assert_eq!(duration_units(3599), "59 minutes");
    assert_eq!(duration_units(3600), "1 hours");
}

#[test]
fn duration_units_in_days_and_more() {
    assert_eq!(duration_units(86_400), "1 days");
    assert_eq!(duration_units(14 * 86_400), "2 weeks");
    assert_eq!(duration_units(60 * 86_400), "2 months");
    assert_eq!(duration_units(365 * 86_400), "12 months");
    assert_eq!(duration_units(366 * 86_400), "1 years");
}

#[test]
fn bench_duration_units_picks_the_largest_unit() {
    assert_eq!(bench_duration_units(5), "  5 ns");
    assert_eq!(bench_duration_units(1_234_567), "1.234 ms");
    assert_eq!(bench_duration_units(2_050), "2. 50 us");
    assert_eq!(bench_duration_units(1_005_000_000), "1.  5 s");
}
