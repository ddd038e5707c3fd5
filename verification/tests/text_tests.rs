use ekf_connector::text::{
    chars_of, decimal_chars, decimal_string, extract, final_segment, find, matches_at, slice_of,
    str_eq, string_of,
};

fn cs(s: &str) -> Vec<char> {
    s.chars().collect()
}

#[test]
fn chars_and_strings_convert_both_ways() {
    assert_eq!(chars_of("héllo"), vec!['h', 'é', 'l', 'l', 'o']);
    assert_eq!(string_of(&vec!['a', 'ß', 'c']), "aßc");
    assert_eq!(string_of(&chars_of("")), "");
    assert_eq!(string_of(&chars_of("Учетные данные")), "Учетные данные");
}

#[test]
fn str_eq_compares_contents() {
    assert!(str_eq("ping", "ping"));
    assert!(!str_eq("ping", "pong"));
    assert!(!str_eq("ping", "pin"));
    assert!(str_eq("", ""));
    assert!(!str_eq("é", "e"));
}

#[test]
fn slice_of_takes_a_range() {
    assert_eq!(slice_of(&cs("abcdef"), 1, 4), cs("bcd"));
    assert_eq!(slice_of(&cs("abcdef"), 2, 2), cs(""));
    assert_eq!(slice_of(&cs("abcdef"), 0, 6), cs("abcdef"));
}

#[test]
fn matches_at_checks_one_position() {
    assert!(matches_at(&cs("abcabc"), &cs("bc"), 1));
    assert!(!matches_at(&cs("abcabc"), &cs("bc"), 2));
    assert!(matches_at(&cs("abc"), &cs(""), 3));
}

#[test]
fn find_returns_the_first_position_at_or_after_the_start() {
    assert_eq!(find(&cs("abcabc"), &cs("bc"), 0), Some(1));
    assert_eq!(find(&cs("abcabc"), &cs("bc"), 1), Some(1));
    assert_eq!(find(&cs("abcabc"), &cs("bc"), 2), Some(4));
    assert_eq!(find(&cs("abcabc"), &cs("bc"), 5), None);
    assert_eq!(find(&cs("abcabc"), &cs("x"), 0), None);
    assert_eq!(find(&cs("abc"), &cs("abcd"), 0), None);
    assert_eq!(find(&cs("abc"), &cs(""), 0), Some(0));
    assert_eq!(find(&cs("abc"), &cs(""), 3), Some(3));
    assert_eq!(find(&cs("abc"), &cs(""), 4), None);
    assert_eq!(find(&cs(""), &cs(""), 0), Some(0));
    assert_eq!(find(&cs("aab"), &cs("ab"), 0), Some(1));
}

#[test]
fn extract_takes_what_stands_between_two_marks() {
    assert_eq!(extract(&cs("<a>one</a><a>two</a>"), &cs("<a>"), &cs("</a>")), Some(cs("one")));
    assert_eq!(extract(&cs("<a>one"), &cs("<a>"), &cs("</a>")), None);
    assert_eq!(extract(&cs("one</a>"), &cs("<a>"), &cs("</a>")), None);
    assert_eq!(extract(&cs("</a><a>x</a>"), &cs("<a>"), &cs("</a>")), Some(cs("x")));
    assert_eq!(extract(&cs("Id=\"7\" Key=\"k\""), &cs("Id=\""), &cs("\"")), Some(cs("7")));
    assert_eq!(extract(&cs("<a></a>"), &cs("<a>"), &cs("</a>")), Some(cs("")));
}

#[test]
fn final_segment_follows_the_last_separator() {
    assert_eq!(final_segment(&cs("DOMAIN\\jdoe"), '\\'), cs("jdoe"));
    assert_eq!(final_segment(&cs("a\\b\\c"), '\\'), cs("c"));
    assert_eq!(final_segment(&cs("jdoe"), '\\'), cs("jdoe"));
    assert_eq!(final_segment(&cs("jdoe\\"), '\\'), cs(""));
    assert_eq!(final_segment(&cs(""), '\\'), cs(""));
    assert_eq!(final_segment(&cs("\\"), '\\'), cs(""));
}

#[test]
fn decimal_writes_numbers_without_leading_zeros() {
    assert_eq!(decimal_string(0), "0");
    assert_eq!(decimal_string(7), "7");
    assert_eq!(decimal_string(10), "10");
    assert_eq!(decimal_string(389), "389");
    assert_eq!(decimal_string(65535), "65535");
    assert_eq!(decimal_string(1234567890), "1234567890");
    assert_eq!(decimal_string(u64::MAX), "18446744073709551615");
    assert_eq!(decimal_chars(105), vec!['1', '0', '5']);
}
