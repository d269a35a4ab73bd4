use weadless::text::{
    chars_of, decimal, digit_of, find_text, lowered_chars, matches_at, parse_decimal, same_chars,
    same_text, to_ascii_lower,
};

fn chars(s: &str) -> Vec<char> {
    s.chars().collect()
}

#[test]
fn chars_of_lists_every_character() {
    assert_eq!(chars_of("a:é1"), vec!['a', ':', 'é', '1']);
    assert_eq!(chars_of(""), Vec::<char>::new());
}

#[test]
fn same_text_compares_whole_strings() {
    assert!(same_text("vnc", "vnc"));
    assert!(!same_text("vnc", "vnc "));
    assert!(!same_text("vnc", "Vnc"));
    assert!(same_text("", ""));
    assert!(same_chars(&chars("ab"), &chars("ab")));
    assert!(!same_chars(&chars("ab"), &chars("ba")));
}

#[test]
fn find_text_finds_a_needle_anywhere() {
    assert!(find_text(&chars("state: Flushing"), &chars("Flushing")));
    assert!(find_text(&chars("Eos"), &chars("Eos")));
    assert!(find_text(&chars("xxEosxx"), &chars("Eos")));
    assert!(!find_text(&chars("EOS"), &chars("Eos")));
    assert!(!find_text(&chars("Eo"), &chars("Eos")));
    assert!(find_text(&chars("abc"), &chars("")));
    assert!(find_text(&chars(""), &chars("")));
    assert!(!find_text(&chars(""), &chars("a")));
    assert!(matches_at(&chars("abcd"), &chars("cd"), 2));
    assert!(!matches_at(&chars("abcd"), &chars("cd"), 1));
    assert!(!matches_at(&chars("abcd"), &chars("cd"), 3));
    assert!(!matches_at(&chars("abcd"), &chars("cd"), 9));
    assert!(matches_at(&chars("abcd"), &chars(""), 4));
    assert!(!matches_at(&chars("abcd"), &chars(""), 5));
}

#[test]
fn digits_have_their_values() {
    assert_eq!(digit_of('0'), Some(0));
    assert_eq!(digit_of('9'), Some(9));
    assert_eq!(digit_of('/'), None);
    assert_eq!(digit_of(':'), None);
    assert_eq!(digit_of('a'), None);
    assert_eq!(digit_of('٣'), None);
}

#[test]
fn parse_decimal_reads_digits_up_to_the_limit() {
    assert_eq!(parse_decimal(&chars("0"), 65535), Some(0));
    assert_eq!(parse_decimal(&chars("5000"), 65535), Some(5000));
    assert_eq!(parse_decimal(&chars("65535"), 65535), Some(65535));
    assert_eq!(parse_decimal(&chars("65536"), 65535), None);
    assert_eq!(parse_decimal(&chars("0005000"), 65535), Some(5000));
    assert_eq!(parse_decimal(&chars(""), 65535), None);
    assert_eq!(parse_decimal(&chars("12a"), 65535), None);
    assert_eq!(parse_decimal(&chars("-1"), 65535), None);
    assert_eq!(parse_decimal(&chars(" 1"), 65535), None);
    assert_eq!(
        parse_decimal(&chars("18446744073709551615"), u64::MAX),
        Some(u64::MAX)
    );
    assert_eq!(parse_decimal(&chars("18446744073709551616"), u64::MAX), None);
    assert_eq!(parse_decimal(&chars("99999999999999999999999"), u64::MAX), None);
    assert_eq!(parse_decimal(&chars("7"), 6), None);
    assert_eq!(parse_decimal(&chars("6"), 6), Some(6));
}

#[test]
fn decimal_writes_the_shortest_form() {
    assert_eq!(decimal(0), "0");
    assert_eq!(decimal(7), "7");
    assert_eq!(decimal(10), "10");
    assert_eq!(decimal(5000), "5000");
    assert_eq!(decimal(65535), "65535");
    assert_eq!(decimal(u64::MAX), "18446744073709551615");
}

#[test]
fn decimal_and_parse_decimal_agree() {
    for n in [0u64, 1, 9, 10, 99, 100, 12345, 65535, 1 << 40] {
        assert_eq!(parse_decimal(&chars(&decimal(n)), u64::MAX), Some(n));
    }
}

#[test]
fn ascii_letters_are_lowered_and_nothing_else() {
    assert_eq!(to_ascii_lower('A'), 'a');
    assert_eq!(to_ascii_lower('Z'), 'z');
    assert_eq!(to_ascii_lower('a'), 'a');
    assert_eq!(to_ascii_lower('@'), '@');
    assert_eq!(to_ascii_lower('['), '[');
    assert_eq!(to_ascii_lower('É'), 'É');
    assert_eq!(lowered_chars("UdP"), vec!['u', 'd', 'p']);
}
