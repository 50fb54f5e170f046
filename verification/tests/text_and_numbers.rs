use waqf_satellite::fixed::{
    mul_div_floor, mul_div_nonnegative, NANOS_PER_DAY, NANOS_PER_MONTH, PERCENT_FULL, SCALE,
    TOLERANCE,
};
use waqf_satellite::text::{
    chars_of, contains_char, format_amount, format_fixed, is_blank_text, is_text, parse_u64,
    same_text, trim, u128_to_string, u64_to_string,
};
use waqf_satellite::vocabulary::{SpendingSchedule, TrancheStatus, WaqfStatus};

#[test]
fn constants_agree() {
    assert_eq!(TOLERANCE * 100, SCALE);
    assert_eq!(PERCENT_FULL, 100 * SCALE);
    assert_eq!(NANOS_PER_DAY, 24 * 60 * 60 * 1_000_000_000);
    assert_eq!(NANOS_PER_MONTH, 30 * NANOS_PER_DAY);
}

#[test]
fn products_are_rounded_down() {
    assert_eq!(mul_div_floor(7, 3, 2), Some(10));
    assert_eq!(mul_div_floor(-7, 3, 2), Some(-11));
    assert_eq!(mul_div_floor(7, -3, 2), Some(-11));
    assert_eq!(mul_div_floor(-7, -3, 2), Some(10));
    assert_eq!(mul_div_floor(0, i64::MIN, 1), Some(0));
    assert_eq!(mul_div_floor(i64::MAX, i64::MAX, i64::MAX), Some(i64::MAX));
    assert_eq!(mul_div_floor(i64::MIN, i64::MIN, i64::MAX), None);
    assert_eq!(mul_div_floor(i64::MAX, 2, 1), None);
    assert_eq!(mul_div_floor(i64::MIN, 1, 1), Some(i64::MIN));
    assert_eq!(mul_div_floor(i64::MIN, 2, 1), None);
    assert_eq!(mul_div_floor(1_000_000_000, 50_000_000, 100_000_000), Some(500_000_000));
}

#[test]
fn clamped_products_never_fall_below_zero() {
    assert_eq!(mul_div_nonnegative(7, 3, 2), Some(10));
    assert_eq!(mul_div_nonnegative(-7, 3, 2), Some(0));
    assert_eq!(mul_div_nonnegative(i64::MIN, i64::MAX, 1), Some(0));
    assert_eq!(mul_div_nonnegative(i64::MIN, i64::MIN, 1), None);
    assert_eq!(mul_div_nonnegative(i64::MAX, 2, 1), None);
}

#[test]
fn numbers_are_rendered_in_decimal() {
    assert_eq!(u64_to_string(0), "0");
    assert_eq!(u64_to_string(7), "7");
    assert_eq!(u64_to_string(10), "10");
    assert_eq!(u64_to_string(1_700_000_000_000_000_000), "1700000000000000000");
    assert_eq!(u64_to_string(u64::MAX), "18446744073709551615");
    assert_eq!(u128_to_string(u128::MAX), u128::MAX.to_string());
}

#[test]
fn timestamps_are_read_as_std_reads_them() {
    for text in [
        "", "0", "7", "007", "+7", "+", "++7", "-7", "7+", " 7", "7 ", "1_000", "0x10", "12a",
        "18446744073709551615", "18446744073709551616", "99999999999999999999999",
        "+18446744073709551615", "\u{661}\u{662}", "1.5",
    ] {
        assert_eq!(parse_u64(text), text.parse::<u64>().ok(), "{:?}", text);
    }
    for n in [0u64, 9, 10, 99, 100, 12345, u64::MAX - 1, u64::MAX] {
        assert_eq!(parse_u64(&u64_to_string(n)), Some(n));
    }
}

#[test]
fn amounts_are_rendered_with_two_decimals() {
    assert_eq!(format_amount(0), "0.00");
    assert_eq!(format_amount(20_000_000), "20.00");
    assert_eq!(format_amount(50_500_000), "50.50");
    assert_eq!(format_amount(1_234_567), "1.23");
    assert_eq!(format_amount(1_235_000), "1.24");
    assert_eq!(format_amount(1_234_999), "1.23");
    assert_eq!(format_amount(999_995_000), "1000.00");
    assert_eq!(format_amount(-1_005_000), "-1.01");
    assert_eq!(format_amount(-4_999), "-0.00");
    assert_eq!(format_amount(i64::MAX), "9223372036854.78");
    assert_eq!(format_amount(i64::MIN), "-9223372036854.78");
    assert_eq!(format_fixed(300_000_000), "300.00");
    assert_eq!(format_fixed(i128::MIN), "-170141183460469231731687303715884.11");
}

#[test]
fn whitespace_is_trimmed_as_std_trims_it() {
    for text in [
        "", " ", "a", "  a b  ", "\t\n x \r\n", "\u{a0}x\u{3000}", "\u{2003}", "x\u{200b}",
        "\u{85}y\u{1680}", " \u{e9} ",
    ] {
        assert_eq!(trim(text), text.trim(), "{:?}", text);
        assert_eq!(is_blank_text(text), text.trim().is_empty(), "{:?}", text);
    }
}

#[test]
fn text_helpers() {
    assert_eq!(chars_of("a\u{e9}\u{1f600}"), vec!['a', '\u{e9}', '\u{1f600}']);
    assert!(chars_of("").is_empty());
    assert!(contains_char("a@b", '@'));
    assert!(!contains_char("ab", '@'));
    assert!(!contains_char("", '@'));
    assert!(same_text("abc", "abc"));
    assert!(!same_text("abc", "abd"));
    assert!(!same_text("abc", "ab"));
    assert!(is_text(&"none".to_string(), "none"));
    assert!(!is_text(&"None".to_string(), "none"));
}

#[test]
fn statuses_are_read_from_their_texts() {
    for status in [
        WaqfStatus::Active,
        WaqfStatus::Paused,
        WaqfStatus::Completed,
        WaqfStatus::Inactive,
        WaqfStatus::Archived,
    ] {
        assert_eq!(WaqfStatus::parse(status.as_str()), Some(status));
    }
    assert_eq!(WaqfStatus::parse("Active"), None);
    assert_eq!(WaqfStatus::parse("matured"), None);
    for status in [
        TrancheStatus::Locked,
        TrancheStatus::Matured,
        TrancheStatus::ReturnScheduled,
        TrancheStatus::Returned,
        TrancheStatus::RolledOver,
    ] {
        assert_eq!(TrancheStatus::parse(status.as_str()), Some(status));
    }
    assert_eq!(TrancheStatus::as_str(TrancheStatus::RolledOver), "rolled_over");
    assert_eq!(TrancheStatus::parse("active"), None);
    assert_eq!(SpendingSchedule::parse("immediate"), Some(SpendingSchedule::Immediate));
    assert_eq!(SpendingSchedule::parse("phased"), Some(SpendingSchedule::Phased));
    assert_eq!(SpendingSchedule::parse("milestone-based"), Some(SpendingSchedule::MilestoneBased));
    assert_eq!(SpendingSchedule::parse("ongoing"), Some(SpendingSchedule::Ongoing));
    assert_eq!(SpendingSchedule::parse("milestone_based"), None);
}

#[test]
fn transition_graph_on_statuses() {
    assert!(WaqfStatus::Paused.allows(WaqfStatus::Active));
    assert!(!WaqfStatus::Completed.allows(WaqfStatus::Active));
    assert!(WaqfStatus::Completed.allows(WaqfStatus::Archived));
    assert!(!WaqfStatus::Active.allows(WaqfStatus::Active));
    for to in [
        WaqfStatus::Active,
        WaqfStatus::Paused,
        WaqfStatus::Completed,
        WaqfStatus::Inactive,
        WaqfStatus::Archived,
    ] {
        assert!(!WaqfStatus::Archived.allows(to));
    }
}
