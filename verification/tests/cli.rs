use price_sampler::cli::{
    chars_of, field_before_equals, has_prefix, parse_command, parse_times, parse_unsigned,
    same_text, Command, DEFAULT_TIMES,
};

fn args(words: &[&str]) -> Vec<String> {
    words.iter().map(|word| word.to_string()).collect()
}

fn chars(text: &str) -> Vec<char> {
    text.chars().collect()
}

#[test]
fn no_mode_asks_for_the_usage() {
    assert_eq!(parse_command(&args(&[])), Command::Usage);
    assert_eq!(parse_command(&args(&["simple"])), Command::Usage);
}

#[test]
fn cache_mode_with_a_length() {
    assert_eq!(parse_command(&args(&["simple", "--mode=cache", "--times=5"])), Command::Cache(5));
    assert_eq!(parse_command(&args(&["simple", "--mode=cache", "--times=0"])), Command::Cache(0));
    assert_eq!(
        parse_command(&args(&["simple", "--mode=cache", "--times=3600", "more"])),
        Command::Cache(3600)
    );
}

#[test]
fn cache_mode_falls_back_to_the_default_length() {
    assert_eq!(DEFAULT_TIMES, 10);
    assert_eq!(parse_command(&args(&["simple", "--mode=cache", "--times="])), Command::Cache(10));
    assert_eq!(parse_command(&args(&["simple", "--mode=cache", "--times=abc"])), Command::Cache(10));
    assert_eq!(parse_command(&args(&["simple", "--mode=cache", "--times=-3"])), Command::Cache(10));
    assert_eq!(parse_command(&args(&["simple", "--mode=cache", "--times=1.5"])), Command::Cache(10));
    assert_eq!(parse_command(&args(&["simple", "--mode=cache", "--times= 7"])), Command::Cache(10));
}

#[test]
fn cache_mode_without_a_length() {
    assert_eq!(parse_command(&args(&["simple", "--mode=cache"])), Command::CacheWithoutTimes);
    assert_eq!(parse_command(&args(&["simple", "--mode=cache", "5"])), Command::CacheWithoutTimes);
    assert_eq!(
        parse_command(&args(&["simple", "--mode=cache", "--time=5"])),
        Command::CacheWithoutTimes
    );
    assert_eq!(
        parse_command(&args(&["simple", "--mode=cache", " --times=5"])),
        Command::CacheWithoutTimes
    );
    assert_eq!(parse_command(&args(&["simple", "--mode=cache", ""])), Command::CacheWithoutTimes);
}

#[test]
fn read_mode_is_selected() {
    assert_eq!(parse_command(&args(&["simple", "--mode=read"])), Command::Read);
    assert_eq!(parse_command(&args(&["simple", "--mode=read", "--times=5"])), Command::Read);
}

#[test]
fn any_other_mode_is_unknown() {
    assert_eq!(parse_command(&args(&["simple", "--mode=write"])), Command::UnknownMode);
    assert_eq!(parse_command(&args(&["simple", "cache"])), Command::UnknownMode);
    assert_eq!(parse_command(&args(&["simple", ""])), Command::UnknownMode);
    assert_eq!(parse_command(&args(&["simple", "--mode=cache "])), Command::UnknownMode);
    assert_eq!(parse_command(&args(&["simple", "--mode=reads"])), Command::UnknownMode);
    assert_eq!(parse_command(&args(&["simple", "--MODE=READ"])), Command::UnknownMode);
    assert_eq!(parse_command(&args(&["simple", "--mode=cach\u{e9}"])), Command::UnknownMode);
}

#[test]
fn length_is_read_up_to_the_next_equals_sign() {
    assert_eq!(parse_times("--times=5=6"), Some(5));
    assert_eq!(parse_times("--times==6"), Some(10));
    assert_eq!(parse_times("--times=12=x=y"), Some(12));
}

#[test]
fn length_needs_its_prefix() {
    assert_eq!(parse_times("--times=42"), Some(42));
    assert_eq!(parse_times("--times"), None);
    assert_eq!(parse_times("times=42"), None);
    assert_eq!(parse_times("-times=42"), None);
    assert_eq!(parse_times(""), None);
    assert_eq!(parse_times("--times=\u{ff15}"), Some(10));
}

#[test]
fn numbers_are_decimal_digits_with_or_without_a_plus() {
    assert_eq!(parse_unsigned(&chars("0")), Some(0));
    assert_eq!(parse_unsigned(&chars("7")), Some(7));
    assert_eq!(parse_unsigned(&chars("+7")), Some(7));
    assert_eq!(parse_unsigned(&chars("007")), Some(7));
    assert_eq!(parse_unsigned(&chars("1234567890")), Some(1234567890));
    assert_eq!(parse_unsigned(&chars("")), None);
    assert_eq!(parse_unsigned(&chars("+")), None);
    assert_eq!(parse_unsigned(&chars("-7")), None);
    assert_eq!(parse_unsigned(&chars("++7")), None);
    assert_eq!(parse_unsigned(&chars("7+")), None);
    assert_eq!(parse_unsigned(&chars(" 7")), None);
    assert_eq!(parse_unsigned(&chars("7 ")), None);
    assert_eq!(parse_unsigned(&chars("7_000")), None);
    assert_eq!(parse_unsigned(&chars("0x10")), None);
    assert_eq!(parse_unsigned(&chars("\u{0667}")), None);
}

#[test]
fn numbers_stay_within_64_bits() {
    assert_eq!(parse_unsigned(&chars("18446744073709551615")), Some(u64::MAX));
    assert_eq!(parse_unsigned(&chars("+18446744073709551615")), Some(u64::MAX));
    assert_eq!(parse_unsigned(&chars("00018446744073709551615")), Some(u64::MAX));
    assert_eq!(parse_unsigned(&chars("18446744073709551616")), None);
    assert_eq!(parse_unsigned(&chars("18446744073709551620")), None);
    assert_eq!(parse_unsigned(&chars("99999999999999999999")), None);
    assert_eq!(parse_unsigned(&chars("184467440737095516150")), None);
    assert_eq!(parse_times("--times=18446744073709551616"), Some(10));
    assert_eq!(parse_times("--times=18446744073709551615"), Some(u64::MAX));
}

#[test]
fn numbers_agree_with_the_standard_parser() {
    let texts = [
        "", "+", "-", "0", "+0", "-0", "12", "+12", "-12", "0012", "1 2", "12a", "a12", "١٢",
        "18446744073709551615", "18446744073709551616", "340282366920938463463374607431768211456",
    ];
    for text in texts.iter() {
        assert_eq!(parse_unsigned(&chars(text)), text.parse::<u64>().ok(), "{:?}", text);
    }
}

#[test]
fn chars_of_keeps_every_character() {
    assert_eq!(chars_of(""), Vec::<char>::new());
    assert_eq!(chars_of("a=b"), vec!['a', '=', 'b']);
    assert_eq!(chars_of("d\u{e9}j\u{e0}"), vec!['d', '\u{e9}', 'j', '\u{e0}']);
}

#[test]
fn same_text_compares_all_characters() {
    assert!(same_text(&chars(""), &chars("")));
    assert!(same_text(&chars("abc"), &chars("abc")));
    assert!(!same_text(&chars("abc"), &chars("abd")));
    assert!(!same_text(&chars("abc"), &chars("ab")));
    assert!(!same_text(&chars("ab"), &chars("abc")));
    assert!(!same_text(&chars("xbc"), &chars("abc")));
}

#[test]
fn has_prefix_looks_at_the_start_only() {
    assert!(has_prefix(&chars("abc"), &chars("")));
    assert!(has_prefix(&chars("abc"), &chars("ab")));
    assert!(has_prefix(&chars("abc"), &chars("abc")));
    assert!(!has_prefix(&chars("abc"), &chars("abcd")));
    assert!(!has_prefix(&chars("abc"), &chars("bc")));
    assert!(!has_prefix(&chars(""), &chars("a")));
}

#[test]
fn field_ends_at_the_first_equals_sign() {
    assert_eq!(field_before_equals(&chars("a=b=c"), 0), chars("a"));
    assert_eq!(field_before_equals(&chars("a=b=c"), 1), chars(""));
    assert_eq!(field_before_equals(&chars("a=b=c"), 2), chars("b"));
    assert_eq!(field_before_equals(&chars("a=bcd"), 2), chars("bcd"));
    assert_eq!(field_before_equals(&chars("abc"), 3), chars(""));
    assert_eq!(field_before_equals(&chars(""), 0), chars(""));
}
