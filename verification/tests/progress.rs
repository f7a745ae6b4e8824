use transduck::decimal::{is_ascii_digit, read_number, skip_digits};
use transduck::estimate::{estimate, ASSUMED_DURATION_SECS, ESTIMATE_CEILING};
use transduck::matcher::{group_chars, Search};
use transduck::progress::{
    parse_progress, progress_from_fields, progress_from_percentage, progress_from_timestamp,
    resolve_progress, PERCENT_PATTERN, TIME_PATTERN,
};
use transduck::text::chars_of;

fn groups(texts: &[Option<&str>]) -> Vec<Option<String>> {
    texts.iter().map(|t| t.map(|s| s.to_string())).collect()
}

#[test]
fn timestamp_beyond_the_assumed_span_gives_the_ceiling() {
    assert_eq!(parse_progress("time=01:02:03.50"), Some(99));
    assert_eq!(
        parse_progress("frame= 1234 fps= 25 q=-1.0 size=  2048kB time=01:02:03.50 bitrate= 128.0kbits/s"),
        Some(99)
    );
}

#[test]
fn percentage_is_taken_as_it_stands() {
    assert_eq!(parse_progress("45%"), Some(45));
    assert_eq!(parse_progress("done 45% of the file"), Some(45));
    assert_eq!(parse_progress("0%"), Some(0));
    assert_eq!(parse_progress("100%"), Some(100));
    assert_eq!(parse_progress("250%"), Some(250));
}

#[test]
fn line_without_either_pattern_gives_no_progress() {
    assert_eq!(parse_progress("frame=  100 fps=25"), None);
    assert_eq!(parse_progress(""), None);
    assert_eq!(parse_progress("time=01:02:03"), None);
    assert_eq!(parse_progress("time=1:2"), None);
    assert_eq!(parse_progress("%"), None);
    assert_eq!(parse_progress("progress=continue"), None);
}

#[test]
fn estimate_is_the_nearest_percentage_of_ten_minutes() {
    assert_eq!(parse_progress("time=00:00:00.00"), Some(0));
    assert_eq!(parse_progress("time=00:00:02.99"), Some(0));
    assert_eq!(parse_progress("time=00:00:03.00"), Some(1));
    assert_eq!(parse_progress("time=00:00:06.00"), Some(1));
    assert_eq!(parse_progress("time=00:00:09.00"), Some(2));
    assert_eq!(parse_progress("time=00:01:00.00"), Some(10));
    assert_eq!(parse_progress("time=00:05:00.00"), Some(50));
    assert_eq!(parse_progress("time=00:05:42.00"), Some(57));
    assert_eq!(parse_progress("time=00:09:50.00"), Some(98));
    assert_eq!(parse_progress("time=00:09:51.00"), Some(99));
}

#[test]
fn estimate_never_reaches_one_hundred() {
    assert_eq!(parse_progress("time=00:09:59.99"), Some(99));
    assert_eq!(parse_progress("time=00:10:00.00"), Some(99));
    assert_eq!(parse_progress("time=00:00:600.0"), Some(99));
    assert_eq!(parse_progress("time=00:00:99999999999999999999999999999.5"), Some(99));
    assert_eq!(parse_progress("time=23:59:59.99"), Some(99));
    assert_eq!(parse_progress("time=18446744073709551615:00:00.0"), Some(99));
}

#[test]
fn minutes_and_seconds_need_not_stay_below_sixty() {
    assert_eq!(parse_progress("time=00:00:90.0"), Some(15));
    assert_eq!(parse_progress("time=0:1:30.0"), Some(15));
    assert_eq!(parse_progress("time=0:1:27.0"), Some(15));
    assert_eq!(parse_progress("time=0:1:26.9"), Some(14));
    assert_eq!(parse_progress("time=000:0009:00.000000"), Some(90));
}

#[test]
fn timestamp_comes_before_percentage() {
    assert_eq!(parse_progress("45% time=00:01:00.00"), Some(10));
    assert_eq!(parse_progress("time=00:01:00.00 45%"), Some(10));
}

#[test]
fn the_first_timestamp_of_a_line_counts() {
    assert_eq!(parse_progress("time=00:00:06.00 time=01:02:03.50"), Some(1));
}

#[test]
fn hours_too_large_for_the_machine_give_no_progress() {
    assert_eq!(parse_progress("time=99999999999999999999999999:00:00.0"), None);
    assert_eq!(parse_progress("time=00:99999999999999999999999999:00.0"), None);
    assert_eq!(parse_progress("time=99999999999999999999999999:00:00.0 45%"), None);
}

#[test]
fn percentage_too_large_for_the_machine_gives_no_progress() {
    assert_eq!(parse_progress("99999999999999999999999999%"), None);
}

#[test]
fn digits_outside_ascii_match_but_are_no_number() {
    assert_eq!(parse_progress("time=\u{0660}\u{0661}:02:03.50"), None);
    assert_eq!(parse_progress("time=01:02:\u{0663}.50"), None);
    assert_eq!(parse_progress("\u{0664}\u{0665}%"), None);
    assert_eq!(parse_progress("\u{0664}\u{0665}% 45%"), None);
}

#[test]
fn fields_of_a_timestamp() {
    assert_eq!(progress_from_fields("01", "02", "03.50"), Some(99));
    assert_eq!(progress_from_fields("0", "5", "42.0"), Some(57));
    assert_eq!(progress_from_fields("", "5", "42.0"), None);
    assert_eq!(progress_from_fields("0", "", "42.0"), None);
    assert_eq!(progress_from_fields("0", "5", ""), None);
    assert_eq!(progress_from_fields("0", "5", "42"), None);
    assert_eq!(progress_from_fields("0", "5", "42."), None);
    assert_eq!(progress_from_fields("0", "5", ".5"), None);
    assert_eq!(progress_from_fields("0", "5", "4.2.1"), None);
    assert_eq!(progress_from_fields("0", "5", "42,0"), None);
    assert_eq!(progress_from_fields("0", "5", "4e1.0"), None);
    assert_eq!(progress_from_fields("+0", "5", "42.0"), None);
    assert_eq!(progress_from_fields("0", "-5", "42.0"), None);
    assert_eq!(progress_from_fields("0", "5", "42.0 "), None);
}

#[test]
fn groups_of_a_timestamp() {
    let found = groups(&[Some("time=00:05:42.00"), Some("00"), Some("05"), Some("42.00")]);
    assert_eq!(progress_from_timestamp(&found), Some(57));
    let short = groups(&[Some("time=00:05:42.00"), Some("00"), Some("05")]);
    assert_eq!(progress_from_timestamp(&short), None);
    let absent = groups(&[Some("x"), Some("00"), None, Some("42.00")]);
    assert_eq!(progress_from_timestamp(&absent), None);
    assert_eq!(progress_from_timestamp(&Vec::new()), None);
}

#[test]
fn groups_of_a_percentage() {
    assert_eq!(progress_from_percentage(&groups(&[Some("45%"), Some("45")])), Some(45));
    assert_eq!(progress_from_percentage(&groups(&[Some("45%")])), None);
    assert_eq!(progress_from_percentage(&groups(&[Some("45%"), None])), None);
    assert_eq!(progress_from_percentage(&groups(&[Some("%"), Some("")])), None);
    assert_eq!(progress_from_percentage(&groups(&[Some("4x%"), Some("4x")])), None);
}

#[test]
fn progress_from_what_the_searches_found() {
    let time = Search::Found(groups(&[Some("t"), Some("0"), Some("1"), Some("0.0")]));
    let percent = Search::Found(groups(&[Some("45%"), Some("45")]));
    assert_eq!(resolve_progress(&time, &percent), Some(10));
    assert_eq!(resolve_progress(&time, &Search::Absent), Some(10));
    assert_eq!(resolve_progress(&time, &Search::Invalid), Some(10));
    assert_eq!(resolve_progress(&Search::Absent, &percent), Some(45));
    assert_eq!(resolve_progress(&Search::Absent, &Search::Absent), None);
    assert_eq!(resolve_progress(&Search::Absent, &Search::Invalid), None);
    assert_eq!(resolve_progress(&Search::Invalid, &percent), None);
    let broken = Search::Found(groups(&[Some("t"), Some("x"), Some("1"), Some("0.0")]));
    assert_eq!(resolve_progress(&broken, &percent), None);
}

#[test]
fn patterns_are_those_of_the_child() {
    assert_eq!(TIME_PATTERN, r"time=(\d+):(\d+):(\d+\.\d+)");
    assert_eq!(PERCENT_PATTERN, r"(\d+)%");
}

#[test]
fn estimate_of_whole_seconds() {
    assert_eq!(ASSUMED_DURATION_SECS, 600);
    assert_eq!(ESTIMATE_CEILING, 99);
    assert_eq!(estimate(0, 0, 0), 0);
    assert_eq!(estimate(0, 0, 2), 0);
    assert_eq!(estimate(0, 0, 3), 1);
    assert_eq!(estimate(0, 5, 42), 57);
    assert_eq!(estimate(0, 9, 50), 98);
    assert_eq!(estimate(0, 9, 51), 99);
    assert_eq!(estimate(0, 9, 59), 99);
    assert_eq!(estimate(0, 10, 0), 99);
    assert_eq!(estimate(1, 2, 3), 99);
    assert_eq!(estimate(usize::MAX, usize::MAX, usize::MAX), 99);
    assert_eq!(estimate(0, 0, usize::MAX), 99);
}

#[test]
fn estimate_agrees_with_rounding_the_quotient() {
    let mut seconds: usize = 0;
    while seconds < 700 {
        let exact = (((seconds * 100) as f64) / 600.0).round() as usize;
        let expected = if exact > 99 { 99 } else { exact };
        assert_eq!(estimate(0, seconds / 60, seconds % 60), expected);
        assert_eq!(estimate(0, 0, seconds), expected);
        seconds += 1;
    }
}

#[test]
fn digits_and_numbers() {
    assert!(is_ascii_digit('0'));
    assert!(is_ascii_digit('9'));
    assert!(!is_ascii_digit('/'));
    assert!(!is_ascii_digit(':'));
    assert!(!is_ascii_digit('\u{0663}'));
    let text = chars_of("ab0123x");
    assert_eq!(text.len(), 7);
    assert_eq!(read_number(&text, 2, 6), Some(123));
    assert_eq!(read_number(&text, 2, 7), None);
    assert_eq!(read_number(&text, 2, 2), None);
    assert_eq!(read_number(&text, 5, 6), Some(3));
    assert_eq!(skip_digits(&text, 2), 6);
    assert_eq!(skip_digits(&text, 0), 0);
    assert_eq!(skip_digits(&text, 7), 7);
    let max = chars_of(&usize::MAX.to_string());
    assert_eq!(read_number(&max, 0, max.len()), Some(usize::MAX));
    let over = chars_of(&format!("{}0", usize::MAX));
    assert_eq!(read_number(&over, 0, over.len()), None);
    let next = chars_of("18446744073709551616");
    assert_eq!(read_number(&next, 0, next.len()), None);
}

#[test]
fn characters_of_a_text() {
    assert_eq!(chars_of(""), Vec::<char>::new());
    assert_eq!(chars_of("a\u{00e9}\u{4e2d}"), vec!['a', '\u{00e9}', '\u{4e2d}']);
}

#[test]
fn group_of_a_match() {
    let found = groups(&[Some("45%"), None, Some("\u{00e9}")]);
    assert_eq!(group_chars(&found, 0), Some(vec!['4', '5', '%']));
    assert_eq!(group_chars(&found, 1), None);
    assert_eq!(group_chars(&found, 2), Some(vec!['\u{00e9}']));
    assert_eq!(group_chars(&found, 3), None);
}
