use upload_gateway::text::{
    chars_of, decimal_string, eq_ignore_ascii_case, parse_usize, signed_decimal_string, str_eq,
    trim_trailing_slashes,
};

#[test]
fn parse_usize_reads_plain_digits() {
    assert_eq!(parse_usize("0"), Some(0));
    assert_eq!(parse_usize("9"), Some(9));
    assert_eq!(parse_usize("0042"), Some(42));
    assert_eq!(parse_usize("+17"), Some(17));
}

#[test]
fn parse_usize_refuses_what_is_no_number() {
    assert_eq!(parse_usize(""), None);
    assert_eq!(parse_usize("+"), None);
    assert_eq!(parse_usize("-1"), None);
    assert_eq!(parse_usize("12a"), None);
    assert_eq!(parse_usize(" 12"), None);
    assert_eq!(parse_usize("1 2"), None);
    assert_eq!(parse_usize("++1"), None);
    assert_eq!(parse_usize("١٢"), None);
}

#[test]
fn parse_usize_agrees_with_the_standard_library() {
    let samples = vec![
        "0", "1", "+0", "+", "", "007", "18446744073709551615", "18446744073709551616",
        "99999999999999999999999", "12x", "x12", "-0", "+-1", "1+", "４２",
    ];
    for s in samples {
        assert_eq!(parse_usize(s), s.parse::<usize>().ok(), "for {:?}", s);
    }
}

#[test]
fn parse_usize_stops_at_the_machine_limit() {
    let max = format!("{}", usize::MAX);
    assert_eq!(parse_usize(&max), Some(usize::MAX));
    let beyond = format!("{}0", usize::MAX);
    assert_eq!(parse_usize(&beyond), None);
}

#[test]
fn decimal_strings_have_no_leading_zeros() {
    assert_eq!(decimal_string(0), "0");
    assert_eq!(decimal_string(7), "7");
    assert_eq!(decimal_string(10), "10");
    assert_eq!(decimal_string(1700000000), "1700000000");
    assert_eq!(decimal_string(u64::MAX), "18446744073709551615");
}

#[test]
fn signed_decimal_strings_carry_a_minus() {
    assert_eq!(signed_decimal_string(0), "0");
    assert_eq!(signed_decimal_string(-1), "-1");
    assert_eq!(signed_decimal_string(1700003600), "1700003600");
    assert_eq!(signed_decimal_string(i64::MIN), "-9223372036854775808");
    assert_eq!(signed_decimal_string(i64::MAX), "9223372036854775807");
}

#[test]
fn decimal_and_parse_round_trip() {
    for n in [0u64, 1, 9, 10, 99, 100, 12345, 4294967296] {
        assert_eq!(parse_usize(&decimal_string(n)), Some(n as usize));
    }
}

#[test]
fn trailing_slashes_are_cut() {
    assert_eq!(trim_trailing_slashes("/upload_file/"), "/upload_file");
    assert_eq!(trim_trailing_slashes("/upload_file///"), "/upload_file");
    assert_eq!(trim_trailing_slashes("/upload_file"), "/upload_file");
    assert_eq!(trim_trailing_slashes("/a/b/"), "/a/b");
    assert_eq!(trim_trailing_slashes("/"), "");
    assert_eq!(trim_trailing_slashes(""), "");
    assert_eq!(trim_trailing_slashes("/путь/"), "/путь");
}

#[test]
fn strings_compare_by_content() {
    assert!(str_eq("abc", "abc"));
    assert!(!str_eq("abc", "abd"));
    assert!(!str_eq("abc", "ab"));
    assert!(str_eq("", ""));
    assert!(str_eq("ключ", "ключ"));
}

#[test]
fn case_of_ascii_letters_is_ignored() {
    assert!(eq_ignore_ascii_case("X-Api-Token", "x-api-token"));
    assert!(eq_ignore_ascii_case("CONTENT-LENGTH", "content-length"));
    assert!(!eq_ignore_ascii_case("x-api-token", "x-api-tokens"));
    assert!(!eq_ignore_ascii_case("x_api_token", "x-api-token"));
    assert!(!eq_ignore_ascii_case("Ä", "ä"));
    assert!(eq_ignore_ascii_case("Жz", "ЖZ"));
}

#[test]
fn chars_are_listed_one_by_one() {
    assert_eq!(chars_of("a/б"), vec!['a', '/', 'б']);
    assert_eq!(chars_of(""), Vec::<char>::new());
}
