use system_monitor::ratio::Ratio;
use system_monitor::readings::{disk_totals, kilobytes_to_bytes, Volume};

#[test]
fn a_ratio_needs_a_whole_above_zero() {
    assert_eq!(Ratio::new(0, 0), None);
    assert_eq!(Ratio::new(1, 0), None);
    assert_eq!(Ratio::new(u64::MAX, 0), None);
    assert!(Ratio::new(0, 1).is_some());
}

#[test]
fn a_ratio_keeps_its_part_and_its_whole() {
    let ratio = Ratio::new(3, 8).expect("the whole is not zero");
    assert_eq!(ratio.part(), 3);
    assert_eq!(ratio.whole(), 8);
    let improper = Ratio::new(9, 2).expect("the whole is not zero");
    assert_eq!(improper.part(), 9);
    assert_eq!(improper.whole(), 2);
}

fn hundredths(part: u64, whole: u64) -> u128 {
    Ratio::new(part, whole).expect("the whole is not zero").hundredths_of_percent()
}

#[test]
fn hundredths_of_percent_of_plain_fractions() {
    assert_eq!(hundredths(0, 1), 0);
    assert_eq!(hundredths(1, 1), 10_000);
    assert_eq!(hundredths(1, 2), 5_000);
    assert_eq!(hundredths(1, 10), 1_000);
    assert_eq!(hundredths(1, 4), 2_500);
    assert_eq!(hundredths(3, 2), 15_000);
}

#[test]
fn hundredths_of_percent_round_to_the_nearest() {
    assert_eq!(hundredths(1, 3), 3_333);
    assert_eq!(hundredths(2, 3), 6_667);
    assert_eq!(hundredths(1, 7), 1_429);
    assert_eq!(hundredths(1, 30_000), 0);
    assert_eq!(hundredths(1, 19_999), 1);
}

#[test]
fn hundredths_of_percent_round_an_exact_half_up() {
    assert_eq!(hundredths(1, 20_000), 1);
    assert_eq!(hundredths(3, 20_000), 2);
    assert_eq!(hundredths(1, 20_001), 0);
}

#[test]
fn hundredths_of_percent_of_the_largest_amounts() {
    assert_eq!(hundredths(u64::MAX, u64::MAX), 10_000);
    assert_eq!(hundredths(u64::MAX, 1), u64::MAX as u128 * 10_000);
    assert_eq!(hundredths(1, u64::MAX), 0);
}

#[test]
fn used_bytes_of_a_volume() {
    assert_eq!(Volume { total_bytes: 100, available_bytes: 30 }.used_bytes(), 70);
    assert_eq!(Volume { total_bytes: 100, available_bytes: 100 }.used_bytes(), 0);
    assert_eq!(Volume { total_bytes: 100, available_bytes: 0 }.used_bytes(), 100);
    assert_eq!(Volume { total_bytes: 100, available_bytes: 101 }.used_bytes(), 0);
}

#[test]
fn disk_totals_add_up_all_volumes() {
    assert_eq!(disk_totals(&Vec::new()), (0, 0));
    assert_eq!(disk_totals(&vec![Volume { total_bytes: 100, available_bytes: 30 }]), (70, 100));
    let volumes = vec![
        Volume { total_bytes: 100, available_bytes: 30 },
        Volume { total_bytes: 50, available_bytes: 50 },
        Volume { total_bytes: 8, available_bytes: 9 },
        Volume { total_bytes: 1_000, available_bytes: 1 },
    ];
    assert_eq!(disk_totals(&volumes), (1_069, 1_158));
}

#[test]
fn disk_totals_stop_at_the_largest_amount() {
    let full = Volume { total_bytes: u64::MAX, available_bytes: 0 };
    assert_eq!(disk_totals(&vec![full, full]), (u64::MAX, u64::MAX));
    let empty = Volume { total_bytes: u64::MAX, available_bytes: u64::MAX };
    assert_eq!(disk_totals(&vec![empty, empty, empty]), (0, u64::MAX));
    let half = Volume { total_bytes: u64::MAX, available_bytes: u64::MAX - 5 };
    assert_eq!(disk_totals(&vec![half, half]), (10, u64::MAX));
    let below = vec![
        Volume { total_bytes: u64::MAX - 1, available_bytes: 0 },
        Volume { total_bytes: 1, available_bytes: 1 },
    ];
    assert_eq!(disk_totals(&below), (u64::MAX - 1, u64::MAX));
}

#[test]
fn kilobytes_are_a_thousand_bytes() {
    assert_eq!(kilobytes_to_bytes(0), 0);
    assert_eq!(kilobytes_to_bytes(1), 1_000);
    assert_eq!(kilobytes_to_bytes(16_384_000), 16_384_000_000);
}

#[test]
fn kilobytes_stop_at_the_largest_amount() {
    let last_exact = u64::MAX / 1_000;
    assert_eq!(kilobytes_to_bytes(last_exact), last_exact * 1_000);
    assert_eq!(kilobytes_to_bytes(last_exact + 1), u64::MAX);
    assert_eq!(kilobytes_to_bytes(u64::MAX), u64::MAX);
}
