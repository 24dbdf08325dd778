use duckgpt::metrics::decimal_str;
use duckgpt::metrics::duration_str;
use duckgpt::metrics::format_centi;
use duckgpt::metrics::throughput_centi;

#[test]
fn duration_of_one_and_a_half_seconds() {
    assert_eq!(duration_str(1_500_000_000), "1.50s");
}

#[test]
fn duration_edge_values() {
    assert_eq!(duration_str(0), "0.00s");
    assert_eq!(duration_str(9_999_999), "0.00s");
    assert_eq!(duration_str(10_000_000), "0.01s");
    assert_eq!(duration_str(59_990_000_000), "59.99s");
    assert_eq!(duration_str(u64::MAX), "18446744073.70s");
}

#[test]
fn throughput_of_one_hundred_tokens_in_two_seconds() {
    // 100 tokens over 2s is 50.00 tokens per second.
    let centi = throughput_centi(100, 2_000_000_000).unwrap();
    assert_eq!(centi, 5000);
    assert_eq!(format_centi(centi), "50.00");
}

#[test]
fn throughput_is_undefined_on_zero_duration() {
    assert_eq!(throughput_centi(100, 0), None);
    assert_eq!(throughput_centi(0, 0), None);
}

#[test]
fn throughput_truncates_toward_zero() {
    // 1 token over 3s is 0.33… tokens per second.
    let centi = throughput_centi(1, 3_000_000_000).unwrap();
    assert_eq!(centi, 33);
    assert_eq!(format_centi(centi), "0.33");
}

#[test]
fn throughput_of_the_largest_count_does_not_overflow() {
    let centi = throughput_centi(u64::MAX, 1).unwrap();
    assert_eq!(centi, u64::MAX as u128 * 100_000_000_000);
}

#[test]
fn decimal_rendering() {
    assert_eq!(decimal_str(0), "0");
    assert_eq!(decimal_str(7), "7");
    assert_eq!(decimal_str(10), "10");
    assert_eq!(decimal_str(120340), "120340");
    assert_eq!(decimal_str(u128::MAX), "340282366920938463463374607431768211455");
}

#[test]
fn centi_rendering_pads_the_fraction() {
    assert_eq!(format_centi(0), "0.00");
    assert_eq!(format_centi(5), "0.05");
    assert_eq!(format_centi(50), "0.50");
    assert_eq!(format_centi(150), "1.50");
    assert_eq!(format_centi(10001), "100.01");
}
