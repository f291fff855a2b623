use estradiol_soundcloud::text::{
    chars_of, contains, ends_with, matches_at, same_text, starts_with, to_decimal,
};

#[test]
fn decimal_of_zero_is_one_digit() {
    assert_eq!(to_decimal(0), "0");
}

#[test]
fn decimal_of_a_track_id() {
    assert_eq!(to_decimal(1_126_821_928), "1126821928");
}

#[test]
fn decimal_of_negative_numbers_has_a_minus_sign() {
    assert_eq!(to_decimal(-1), "-1");
    assert_eq!(to_decimal(-42), "-42");
    assert_eq!(to_decimal(-100), "-100");
}

#[test]
fn decimal_at_the_ends_of_the_range() {
    assert_eq!(to_decimal(i64::MAX), "9223372036854775807");
    assert_eq!(to_decimal(i64::MIN), "-9223372036854775808");
}

#[test]
fn decimal_keeps_inner_zeros() {
    assert_eq!(to_decimal(10), "10");
    assert_eq!(to_decimal(1001), "1001");
    assert_eq!(to_decimal(200_000), "200000");
}

#[test]
fn decimal_agrees_with_the_standard_library() {
    for n in [0i64, 7, 9, 10, 11, 99, 100, 12345, -7, -10, -99999, 4_000_000_000] {
        assert_eq!(to_decimal(n), format!("{}", n));
    }
}

#[test]
fn chars_of_gives_every_character() {
    assert_eq!(chars_of(""), Vec::<char>::new());
    assert_eq!(chars_of("a-ü"), vec!['a', '-', 'ü']);
}

#[test]
fn same_text_compares_contents() {
    assert!(same_text("progressive", "progressive"));
    assert!(!same_text("progressive", "Progressive"));
    assert!(!same_text("progressive", "progressive "));
    assert!(same_text("", ""));
}

#[test]
fn starts_with_finds_prefixes_only() {
    assert!(starts_with("audio/mpeg", "audio/"));
    assert!(starts_with("audio/mpeg", ""));
    assert!(starts_with("audio/mpeg", "audio/mpeg"));
    assert!(!starts_with("audio/mpeg", "audio/mpeg3"));
    assert!(!starts_with("xaudio/mpeg", "audio/"));
}

#[test]
fn ends_with_finds_suffixes_only() {
    assert!(ends_with("app.js", ".js"));
    assert!(ends_with("app.js", ""));
    assert!(ends_with(".js", ".js"));
    assert!(!ends_with("app.json", ".js"));
    assert!(!ends_with("js", ".js"));
}

#[test]
fn contains_finds_a_part_anywhere() {
    assert!(contains("https://a-v2.sndcdn.com/assets/x.js", "/assets/"));
    assert!(contains("abc", "abc"));
    assert!(contains("abc", "c"));
    assert!(contains("abc", ""));
    assert!(contains("", ""));
    assert!(!contains("abc", "abcd"));
    assert!(!contains("abc", "ac"));
    assert!(!contains("", "a"));
}

#[test]
fn contains_finds_a_part_after_a_false_start() {
    assert!(contains("aab", "ab"));
    assert!(contains("ababac", "abac"));
}

#[test]
fn matches_at_looks_at_one_position() {
    let hay = chars_of("hello");
    assert!(matches_at(&hay, &chars_of("ell"), 1));
    assert!(!matches_at(&hay, &chars_of("ell"), 0));
    assert!(matches_at(&hay, &chars_of(""), 5));
    assert!(!matches_at(&hay, &chars_of(""), 6));
    assert!(!matches_at(&hay, &chars_of("lo!"), 3));
}
