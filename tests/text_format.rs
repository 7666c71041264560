use portfolio::models::PublishedDate;
use portfolio::text::{append_int_text, append_nat_text, first_line_of, format_date, month_name_str};

#[test]
fn date_is_written_month_day_year() {
    let d = PublishedDate::new(2024, 11, 30).unwrap();
    assert_eq!(format_date(&d), "November 30, 2024");
}

#[test]
fn date_pads_day_and_year() {
    let d = PublishedDate::new(987, 1, 5).unwrap();
    assert_eq!(format_date(&d), "January 05, 0987");
    let e = PublishedDate::new(0, 12, 31).unwrap();
    assert_eq!(format_date(&e), "December 31, 0000");
}

#[test]
fn month_names() {
    assert_eq!(month_name_str(1), "January");
    assert_eq!(month_name_str(5), "May");
    assert_eq!(month_name_str(9), "September");
    assert_eq!(month_name_str(12), "December");
}

#[test]
fn date_validation() {
    assert!(PublishedDate::new(2024, 2, 29).is_some());
    assert!(PublishedDate::new(2023, 2, 29).is_none());
    assert!(PublishedDate::new(1900, 2, 29).is_none());
    assert!(PublishedDate::new(2000, 2, 29).is_some());
    assert!(PublishedDate::new(2024, 4, 31).is_none());
    assert!(PublishedDate::new(2024, 13, 1).is_none());
    assert!(PublishedDate::new(2024, 0, 1).is_none());
    assert!(PublishedDate::new(2024, 1, 0).is_none());
    assert!(PublishedDate::new(10000, 1, 1).is_none());
    assert!(PublishedDate::new(-1, 1, 1).is_none());
    assert_eq!(
        PublishedDate::new(9999, 12, 31),
        Some(PublishedDate { year: 9999, month: 12, day: 31 })
    );
}

#[test]
fn decimal_text() {
    let mut s = String::from("y=");
    append_int_text(&mut s, 2025);
    assert_eq!(s, "y=2025");
    let mut t = String::new();
    append_int_text(&mut t, -40);
    assert_eq!(t, "-40");
    let mut u = String::new();
    append_int_text(&mut u, i32::MIN);
    assert_eq!(u, "-2147483648");
    let mut v = String::new();
    append_nat_text(&mut v, 0);
    assert_eq!(v, "0");
    let mut w = String::new();
    append_nat_text(&mut w, u32::MAX);
    assert_eq!(w, "4294967295");
}

#[test]
fn preview_is_first_line_whatever_the_length() {
    let short = "Intro line\nrest";
    let long = format!("Intro line\n{}", "more text\n".repeat(10_000));
    assert_eq!(first_line_of(short), "Intro line");
    assert_eq!(first_line_of(&long), "Intro line");
}

#[test]
fn preview_edge_cases() {
    assert_eq!(first_line_of(""), "");
    assert_eq!(first_line_of("single line"), "single line");
    assert_eq!(first_line_of("\nsecond"), "");
    assert_eq!(first_line_of("crlf\r\nnext"), "crlf");
    assert_eq!(first_line_of("bare\r"), "bare\r");
    assert_eq!(first_line_of("héllo wörld\nzwei"), "héllo wörld");
}
