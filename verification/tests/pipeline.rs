//! End-to-end tests of the planning pipeline: real metadata bytes go in,
//! planned folders, destinations and log lines come out.

use image_organizer::date::CaptureDate;
use image_organizer::meta::extract_capture_date;
use image_organizer::plan::{base_name, join_path, plan_copy, plan_file, FilePlan};
use image_organizer::render::{copy_log_line, progress_line};

/// Builds a minimal little-endian TIFF whose Exif IFD holds a
/// DateTimeOriginal field with the given ASCII value (NUL-terminated).
fn tiff_with_datetime_original(ascii: &[u8]) -> Vec<u8> {
    let mut b: Vec<u8> = Vec::new();
    // TIFF header: little endian, magic 42, 0th IFD at offset 8.
    b.extend_from_slice(b"II");
    b.extend_from_slice(&42u16.to_le_bytes());
    b.extend_from_slice(&8u32.to_le_bytes());
    // 0th IFD: one entry, the Exif IFD pointer (tag 0x8769, LONG, count 1).
    b.extend_from_slice(&1u16.to_le_bytes());
    b.extend_from_slice(&0x8769u16.to_le_bytes());
    b.extend_from_slice(&4u16.to_le_bytes());
    b.extend_from_slice(&1u32.to_le_bytes());
    b.extend_from_slice(&26u32.to_le_bytes());
    b.extend_from_slice(&0u32.to_le_bytes());
    // Exif IFD at offset 26: one entry, DateTimeOriginal (tag 0x9003,
    // ASCII, count = value length, data at offset 44).
    b.extend_from_slice(&1u16.to_le_bytes());
    b.extend_from_slice(&0x9003u16.to_le_bytes());
    b.extend_from_slice(&2u16.to_le_bytes());
    b.extend_from_slice(&(ascii.len() as u32).to_le_bytes());
    b.extend_from_slice(&44u32.to_le_bytes());
    b.extend_from_slice(&0u32.to_le_bytes());
    // The field's bytes.
    b.extend_from_slice(ascii);
    b
}

#[test]
fn extracts_capture_date_from_metadata() {
    let bytes = tiff_with_datetime_original(b"2022:01:05 10:20:30\0");
    let date = extract_capture_date(&bytes);
    assert_eq!(date, Some(CaptureDate { year: 2022, month: 1, day: 5 }));
}

#[test]
fn no_metadata_yields_no_date() {
    assert_eq!(extract_capture_date(b"hello world"), None);
}

#[test]
fn corrupt_metadata_yields_no_date() {
    // A TIFF header whose IFD offset points past the end of the data.
    let mut bytes: Vec<u8> = Vec::new();
    bytes.extend_from_slice(b"II");
    bytes.extend_from_slice(&42u16.to_le_bytes());
    bytes.extend_from_slice(&9999u32.to_le_bytes());
    assert_eq!(extract_capture_date(&bytes), None);
}

#[test]
fn folder_mask_renders_year_month() {
    let date = CaptureDate { year: 2023, month: 7, day: 15 };
    let planned = plan_copy(&date, "src/photo.jpg", "out", "%Y-%m").unwrap();
    assert_eq!(planned.0, "out/2023-07");
    assert_eq!(planned.1, "out/2023-07/photo.jpg");
}

#[test]
fn day_mask_renders_full_date() {
    let date = CaptureDate { year: 2023, month: 7, day: 15 };
    let planned = plan_copy(&date, "a/b.jpg", "out", "%Y-%m-%d").unwrap();
    assert_eq!(planned.0, "out/2023-07-15");
}

#[test]
fn unformattable_mask_plans_nothing() {
    let date = CaptureDate { year: 2023, month: 7, day: 15 };
    assert_eq!(plan_copy(&date, "a/b.jpg", "out", "%E"), None);
    // A quarter-of-year specifier is valid, by contrast.
    assert_eq!(plan_copy(&date, "a/b.jpg", "out", "%q").unwrap().0, "out/3");
    let bytes = tiff_with_datetime_original(b"2022:01:05 10:20:30\0");
    let plan = plan_file(Some(&bytes), "a/b.jpg", "out", "%E");
    assert_eq!(plan, FilePlan::BadMask);
}

#[test]
fn unparseable_date_text_advances_counter_silently() {
    // Too short for a date/time value: the raw text is displayed instead
    // and does not parse as a date.
    let bytes = tiff_with_datetime_original(b"2022:01:05\0");
    let plan = plan_file(Some(&bytes), "a/b.jpg", "out", "%Y-%m");
    assert_eq!(plan, FilePlan::BadDate);
    assert!(plan.advances_counter());
    assert!(!plan.emits_line());
}

#[test]
fn unreadable_file_is_skipped_without_counting() {
    let plan = plan_file(None, "a/b.jpg", "out", "%Y-%m");
    assert_eq!(plan, FilePlan::NoDate);
    assert!(!plan.advances_counter());
    assert!(!plan.emits_line());
}

#[test]
fn planning_is_deterministic_across_runs() {
    let bytes = tiff_with_datetime_original(b"2022:01:05 10:20:30\0");
    let first = plan_file(Some(&bytes), "src/a.jpg", "out", "%Y-%m");
    let second = plan_file(Some(&bytes), "src/a.jpg", "out", "%Y-%m");
    assert_eq!(first, second);
}

#[test]
fn three_file_source_tree_copies_exactly_one() {
    let a = tiff_with_datetime_original(b"2022:01:05 10:20:30\0");
    let b = b"plain text, no metadata".to_vec();
    // Corrupt: a TIFF header followed by garbage instead of an IFD.
    let mut c: Vec<u8> = Vec::new();
    c.extend_from_slice(b"II");
    c.extend_from_slice(&42u16.to_le_bytes());
    c.extend_from_slice(&8u32.to_le_bytes());
    c.extend_from_slice(&0xFFFFu16.to_le_bytes());

    let files: Vec<(&str, Option<&[u8]>)> = vec![
        ("src/a.jpg", Some(&a[..])),
        ("src/b.txt", Some(&b[..])),
        ("src/c.jpg", Some(&c[..])),
    ];
    let total = files.len() as u64;
    let mut current: u64 = 0;
    let mut lines: Vec<String> = Vec::new();
    let mut dests: Vec<String> = Vec::new();
    for (path, bytes) in files {
        let plan = plan_file(bytes, path, "out", "%Y-%m");
        if let FilePlan::Copy { dest, .. } = &plan {
            dests.push(dest.clone());
            let log = copy_log_line(path, dest, true);
            lines.push(progress_line(current, total, &log));
        }
        if plan.advances_counter() {
            current += 1;
        }
    }
    assert_eq!(dests, vec!["out/2022-01/a.jpg".to_string()]);
    assert_eq!(lines, vec![
        "[ 00000000 of 00000003 (0.00000%) ] : src/a.jpg -> out/2022-01/a.jpg".to_string()
    ]);
    assert_eq!(current, 1);
}

#[test]
fn base_name_takes_text_after_last_slash() {
    assert_eq!(base_name("a/b/c.jpg"), "c.jpg");
    assert_eq!(base_name("noslash"), "noslash");
    assert_eq!(base_name(""), "");
}

#[test]
fn join_path_inserts_separator() {
    assert_eq!(join_path("out", "2022-01"), "out/2022-01");
}
