use sqlbuilder::text::i64_to_dec;
use sqlbuilder::text::join_with;
use sqlbuilder::text::parse_usize;
use sqlbuilder::text::str_eq;
use sqlbuilder::text::substitute;
use sqlbuilder::text::u64_to_dec;

#[test]
fn decimal_rendering() {
    assert_eq!(u64_to_dec(0), "0");
    assert_eq!(u64_to_dec(7), "7");
    assert_eq!(u64_to_dec(10), "10");
    assert_eq!(u64_to_dec(1024), "1024");
    assert_eq!(u64_to_dec(u64::MAX), "18446744073709551615");
}

#[test]
fn decimal_rendering_signed() {
    assert_eq!(i64_to_dec(0), "0");
    assert_eq!(i64_to_dec(42), "42");
    assert_eq!(i64_to_dec(-1), "-1");
    assert_eq!(i64_to_dec(i64::MIN), "-9223372036854775808");
    assert_eq!(i64_to_dec(i64::MAX), "9223372036854775807");
}

#[test]
fn number_parsing() {
    assert_eq!(parse_usize("17"), Some(17));
    assert_eq!(parse_usize("+17"), Some(17));
    assert_eq!(parse_usize("0"), Some(0));
    assert_eq!(parse_usize(""), None);
    assert_eq!(parse_usize("+"), None);
    assert_eq!(parse_usize("1a"), None);
    assert_eq!(parse_usize("-1"), None);
    assert_eq!(parse_usize("18446744073709551615"), Some(18446744073709551615));
    assert_eq!(parse_usize("18446744073709551616"), None);
}

#[test]
fn placeholder_substitution() {
    assert_eq!(substitute("id = {}", "'x'"), "id = 'x'");
    assert_eq!(substitute("{}", "v"), "v");
    assert_eq!(substitute("no placeholder", "v"), "no placeholder");
    assert_eq!(substitute("a = {} or b = {}", "1"), "a = 1 or b = {}");
    assert_eq!(substitute("", "v"), "");
    assert_eq!(substitute("{", "v"), "{");
    assert_eq!(substitute("π = {}", "3"), "π = 3");
}

#[test]
fn joining() {
    let none: Vec<String> = vec![];
    assert_eq!(join_with(&none, ", "), "");
    let one = vec![String::from("a")];
    assert_eq!(join_with(&one, ", "), "a");
    let three = vec![String::from("a"), String::from("b"), String::from("c")];
    assert_eq!(join_with(&three, ", "), "a, b, c");
}

#[test]
fn string_comparison() {
    assert!(str_eq("", ""));
    assert!(str_eq("abc", "abc"));
    assert!(!str_eq("abc", "abd"));
    assert!(!str_eq("abc", "abcd"));
}
