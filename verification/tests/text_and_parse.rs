use health_checker::parse::{parse_tenths_or_zero, parse_u32, parse_u32_or_zero};
use health_checker::split::{
    first_two_words, split_lines, split_str, split_words, strip_leading_char, strip_trailing_char,
    trim_spaces,
};
use health_checker::text::{i64_to_string, join_with, u64_to_string};

#[test]
fn decimal_rendering() {
    assert_eq!(u64_to_string(0), "0");
    assert_eq!(u64_to_string(7), "7");
    assert_eq!(u64_to_string(42), "42");
    assert_eq!(u64_to_string(1234567890123), "1234567890123");
    assert_eq!(i64_to_string(-5), "-5");
    assert_eq!(i64_to_string(137), "137");
    assert_eq!(i64_to_string(i64::MIN), "-9223372036854775808");
}

#[test]
fn joining_parts() {
    let empty: Vec<String> = vec![];
    assert_eq!(join_with(&empty, ", "), "");
    assert_eq!(join_with(&vec!["a".to_string()], ", "), "a");
    assert_eq!(
        join_with(&vec!["a".to_string(), "b".to_string(), "c".to_string()], ", "),
        "a, b, c"
    );
}

#[test]
fn trimming_and_stripping() {
    assert_eq!(trim_spaces("  41.73 "), "41.73");
    assert_eq!(trim_spaces("\t x \r\n"), "x");
    assert_eq!(trim_spaces("   "), "");
    assert_eq!(strip_leading_char("//name", '/'), "name");
    assert_eq!(strip_leading_char("name", '/'), "name");
    assert_eq!(strip_trailing_char("85%%", '%'), "85");
    assert_eq!(strip_trailing_char("85", '%'), "85");
}

#[test]
fn splitting_on_a_separator() {
    assert_eq!(split_str("a,b,,c", ','), vec!["a", "b", "", "c"]);
    assert_eq!(split_str("", ','), vec![""]);
    assert_eq!(split_str("a,", ','), vec!["a", ""]);
}

#[test]
fn splitting_lines() {
    assert_eq!(split_lines("a\r\nb\nc\n"), vec!["a", "b", "c"]);
    assert_eq!(split_lines(""), Vec::<String>::new());
    assert_eq!(split_lines("one line"), vec!["one line"]);
    assert_eq!(split_lines("a\n\nb"), vec!["a", "", "b"]);
}

#[test]
fn splitting_words() {
    assert_eq!(
        split_words(" PostgreSQL 15.2  on  x86_64 "),
        vec!["PostgreSQL", "15.2", "on", "x86_64"]
    );
    assert_eq!(split_words(""), Vec::<String>::new());
    assert_eq!(split_words("   "), Vec::<String>::new());
}

#[test]
fn first_two_words_of_a_banner() {
    assert_eq!(
        first_two_words("PostgreSQL 15.2 (Debian 15.2-1.pgdg110+1) on x86_64"),
        "PostgreSQL 15.2"
    );
    assert_eq!(first_two_words("single"), "single");
    assert_eq!(first_two_words(""), "");
}

#[test]
fn parsing_unsigned_decimals() {
    assert_eq!(parse_u32("123"), Some(123));
    assert_eq!(parse_u32("+7"), Some(7));
    assert_eq!(parse_u32("0"), Some(0));
    assert_eq!(parse_u32(""), None);
    assert_eq!(parse_u32("+"), None);
    assert_eq!(parse_u32("12a"), None);
    assert_eq!(parse_u32(" 12"), None);
    assert_eq!(parse_u32("4294967295"), Some(u32::MAX));
    assert_eq!(parse_u32("4294967296"), None);
    assert_eq!(parse_u32_or_zero("88"), 88);
    assert_eq!(parse_u32_or_zero("[N/A]"), 0);
}

#[test]
fn parsing_one_decimal_displays() {
    assert_eq!(parse_tenths_or_zero("41.73"), 417);
    assert_eq!(parse_tenths_or_zero("41.75"), 418);
    assert_eq!(parse_tenths_or_zero("41.7"), 417);
    assert_eq!(parse_tenths_or_zero("5"), 50);
    assert_eq!(parse_tenths_or_zero("5."), 50);
    assert_eq!(parse_tenths_or_zero(".5"), 5);
    assert_eq!(parse_tenths_or_zero("."), 0);
    assert_eq!(parse_tenths_or_zero(""), 0);
    assert_eq!(parse_tenths_or_zero("[N/A]"), 0);
    assert_eq!(parse_tenths_or_zero("1.2.3"), 0);
    assert_eq!(parse_tenths_or_zero("400.00"), 4000);
}
