//! Tests of the text normalization and of the rendered output lines.

use image_organizer::date::CaptureDate;
use image_organizer::date::date_from_text;
use image_organizer::render::{copy_log_line, decimal_string, percent_text, progress_line, zero_padded};
use image_organizer::text::date_portion;

#[test]
fn date_portion_keeps_text_before_first_space() {
    assert_eq!(date_portion("2016-05-04 03:02:01"), "2016-05-04");
    assert_eq!(date_portion("2016-05-04"), "2016-05-04");
}

#[test]
fn date_portion_trims_white_space() {
    // The split on the first space comes before the trim, so leading
    // spaces leave an empty date portion.
    assert_eq!(date_portion("  x  "), "");
    assert_eq!(date_portion(" abc"), "");
    assert_eq!(date_portion("x\u{3000} tail"), "x");
    assert_eq!(date_portion(""), "");
    assert_eq!(date_portion("\u{3000}2020-01-02\u{3000}"), "2020-01-02");
}

#[test]
fn date_from_text_parses_normalized_dates() {
    assert_eq!(
        date_from_text("2023-07-15 08:00:00"),
        Some(CaptureDate { year: 2023, month: 7, day: 15 })
    );
    assert_eq!(
        date_from_text("1999-12-31\t"),
        Some(CaptureDate { year: 1999, month: 12, day: 31 })
    );
}

#[test]
fn date_from_text_rejects_bad_dates() {
    assert_eq!(date_from_text("garbage"), None);
    assert_eq!(date_from_text("2023-02-30 01:02:03"), None);
    assert_eq!(date_from_text(""), None);
}

#[test]
fn decimal_rendering_and_padding() {
    assert_eq!(decimal_string(0), "0");
    assert_eq!(decimal_string(90210), "90210");
    assert_eq!(zero_padded("7".to_string(), 8), "00000007");
    assert_eq!(zero_padded("123456789".to_string(), 8), "123456789");
}

#[test]
fn first_progress_percentage_is_zero() {
    assert_eq!(percent_text(0, 4), "0.00000");
}

#[test]
fn percentage_progression_over_four_files() {
    assert_eq!(percent_text(1, 4), "25.00000");
    assert_eq!(percent_text(2, 4), "50.00000");
    assert_eq!(percent_text(3, 4), "75.00000");
    assert_eq!(percent_text(4, 4), "100.00000");
}

#[test]
fn percentage_rounds_to_five_places() {
    assert_eq!(percent_text(1, 3), "33.33333");
    assert_eq!(percent_text(2, 3), "66.66667");
}

#[test]
fn copy_log_lines() {
    assert_eq!(copy_log_line("a", "b", true), "a -> b");
    let failed = copy_log_line("a", "b", false);
    assert_eq!(failed, "FAILED: a -> b");
    assert!(failed.starts_with("FAILED: "));
}

#[test]
fn progress_line_format() {
    assert_eq!(
        progress_line(0, 4, "a -> b"),
        "[ 00000000 of 00000004 (0.00000%) ] : a -> b"
    );
    assert_eq!(
        progress_line(7, 123456789, "x"),
        "[ 00000007 of 123456789 (0.00001%) ] : x"
    );
    assert_eq!(
        progress_line(0, 1, "only"),
        "[ 00000000 of 00000001 (0.00000%) ] : only"
    );
}
