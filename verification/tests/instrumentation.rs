use garage_beam::instrumentation::{monotonic_ns, percentile, ClockReading, Instrumentation, Sample};

#[test]
fn from_value_accepts_truthy_in_any_case() {
    for value in ["1", "true", "yes", "on", "TRUE", "Yes", "ON", "TrUe"] {
        assert!(
            Instrumentation::from_value(Some(value)).enabled(),
            "expected {value:?} to enable instrumentation"
        );
    }
}

#[test]
fn from_value_trims_surrounding_whitespace() {
    assert!(Instrumentation::from_value(Some("  true  ")).enabled());
    assert!(Instrumentation::from_value(Some("\tON\n")).enabled());
}

#[test]
fn from_value_rejects_falsy_empty_and_unknown() {
    for value in [
        "0", "false", "no", "off", "", "  ", "garbage", "2", "trueish",
    ] {
        assert!(
            !Instrumentation::from_value(Some(value)).enabled(),
            "expected {value:?} to disable instrumentation"
        );
    }
    assert!(!Instrumentation::from_value(None).enabled());
}

#[test]
fn from_value_trims_white_space_beyond_ascii() {
    assert!(Instrumentation::from_value(Some("\u{3000}yes\u{2003}")).enabled());
    assert!(!Instrumentation::from_value(Some("\u{200b}yes")).enabled());
}

#[test]
fn percentile_single_element() {
    let values = [42];
    assert_eq!(percentile(&values, 0), 42);
    assert_eq!(percentile(&values, 50), 42);
    assert_eq!(percentile(&values, 95), 42);
    assert_eq!(percentile(&values, 99), 42);
    assert_eq!(percentile(&values, 100), 42);
}

#[test]
fn percentile_four_elements() {
    let values = [10, 20, 30, 40];
    assert_eq!(percentile(&values, 0), 10);
    assert_eq!(percentile(&values, 50), 20);
    assert_eq!(percentile(&values, 95), 40);
    assert_eq!(percentile(&values, 99), 40);
    assert_eq!(percentile(&values, 100), 40);
}

#[test]
fn percentile_hundred_elements() {
    let values: Vec<u64> = (1..=100).collect();
    assert_eq!(percentile(&values, 0), 1);
    assert_eq!(percentile(&values, 50), 50);
    assert_eq!(percentile(&values, 95), 95);
    assert_eq!(percentile(&values, 99), 99);
    assert_eq!(percentile(&values, 100), 100);
}

#[test]
fn percentile_empty_is_zero() {
    assert_eq!(percentile(&[], 0), 0);
    assert_eq!(percentile(&[], 50), 0);
    assert_eq!(percentile(&[], 100), 0);
}

#[test]
fn percentile_beyond_hundred_is_the_last() {
    assert_eq!(percentile(&[10, 20, 30], 101), 30);
    assert_eq!(percentile(&[10, 20, 30], 255), 30);
}

#[test]
fn percentile_does_not_fall_with_p() {
    let values = [3, 5, 8, 13, 21, 34, 55];
    let mut previous = percentile(&values, 0);
    for p in 1..=255 {
        let current = percentile(&values, p);
        assert!(current >= previous);
        previous = current;
    }
    assert_eq!(percentile(&values, 14), 3);
    assert_eq!(percentile(&values, 15), 5);
}

fn reading(origin: std::time::Instant) -> Option<ClockReading> {
    let span = origin.elapsed();
    Some(ClockReading {
        secs: span.as_secs() as i64,
        nanos: span.subsec_nanos() as i64,
    })
}

#[test]
fn monotonic_ns_is_non_decreasing() {
    let origin = std::time::Instant::now();
    let first = monotonic_ns(reading(origin));
    let mut spin = 0u64;
    for i in 0..100_000u64 {
        spin = spin.wrapping_add(i);
    }
    std::hint::black_box(spin);
    let second = monotonic_ns(reading(origin));
    assert!(second >= first, "clock went backwards: {first} -> {second}");
}

#[test]
fn monotonic_ns_counts_seconds_and_nanoseconds() {
    assert_eq!(
        monotonic_ns(Some(ClockReading {
            secs: 12,
            nanos: 345
        })),
        12_000_000_345
    );
    assert_eq!(
        monotonic_ns(Some(ClockReading {
            secs: 1,
            nanos: 2_500_000_000
        })),
        3_500_000_000
    );
    assert_eq!(monotonic_ns(None), 0);
}

#[test]
fn samples_saturate_at_zero() {
    let sample = Sample::of_write(100, 250);
    assert_eq!(sample.edge_to_write_ns, 150);
    assert_eq!(sample.write_to_read_ns, None);
    assert_eq!(sample.with_read_back(300, 420).write_to_read_ns, Some(120));
    assert_eq!(sample.with_read_back(300, 420).edge_to_write_ns, 150);
    assert_eq!(Sample::of_write(250, 100).edge_to_write_ns, 0);
    assert_eq!(sample.with_read_back(420, 300).write_to_read_ns, Some(0));
}
