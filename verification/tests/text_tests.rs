use botshop::text::{
    chars_of, contains_str, equals, is_whitespace, parse_i32_str, parse_u64_str, replace_str,
    split_words, starts_with, string_of, strip_prefix, strip_suffix, trim_start_matches_char,
    trim_str,
};

#[test]
fn split_words_skips_runs_of_whitespace() {
    assert_eq!(split_words("  a  bb\tc \n"), vec!["a".to_string(), "bb".to_string(), "c".to_string()]);
}

#[test]
fn split_words_matches_std_on_unicode_space() {
    let s = "x\u{3000}y\u{a0}z\u{200b}w";
    let expected: Vec<String> = s.split_whitespace().map(|w| w.to_string()).collect();
    assert_eq!(split_words(s), expected);
    assert_eq!(split_words(s).len(), 3);
}

#[test]
fn split_words_of_blank_text_is_empty() {
    assert!(split_words("").is_empty());
    assert!(split_words(" \t ").is_empty());
}

#[test]
fn whitespace_set_matches_std() {
    for u in 0u32..0x3100 {
        if let Some(c) = char::from_u32(u) {
            assert_eq!(is_whitespace(c), c.is_whitespace(), "code point {:x}", u);
        }
    }
}

#[test]
fn chars_and_strings_round_trip() {
    let s = "บอท shop";
    assert_eq!(chars_of(s), s.chars().collect::<Vec<char>>());
    assert_eq!(string_of(&chars_of(s)), s.to_string());
}

#[test]
fn prefixes_and_suffixes() {
    assert!(starts_with("!register 123", "!register "));
    assert!(!starts_with("!regist", "!register "));
    assert_eq!(strip_prefix("<@123>", "<@"), Some("123>".to_string()));
    assert_eq!(strip_prefix("123>", "<@"), None);
    assert_eq!(strip_suffix("123>", ">"), Some("123".to_string()));
    assert_eq!(strip_suffix("123", ">"), None);
    assert_eq!(trim_start_matches_char("!!123", '!'), "123".to_string());
    assert_eq!(trim_start_matches_char("123!", '!'), "123!".to_string());
}

#[test]
fn search_and_replace() {
    assert!(contains_str("#ChangeFamePoints 10", "ChangeFamePoints"));
    assert!(!contains_str("#SpawnItem Apple", "Location"));
    assert!(contains_str("abc", ""));
    assert_eq!(
        replace_str("give {steam_id} and {steam_id}", "{steam_id}", "7656"),
        "give 7656 and 7656".to_string()
    );
    assert_eq!(replace_str("aaa", "aa", "b"), "aaa".replace("aa", "b"));
    assert_eq!(replace_str("no placeholder", "{steam_id}", "x"), "no placeholder".to_string());
}

#[test]
fn trimming() {
    assert_eq!(trim_str("  #Announce hi \n"), "#Announce hi".to_string());
    assert_eq!(trim_str(" \t "), String::new());
}

#[test]
fn parse_i32_follows_std() {
    for s in ["42", "-2147483648", "2147483647", "2147483648", "-2147483649", "+7", "+", "-", "", "12a", "99999999999", "007", "-0", "+-1", " 1"] {
        assert_eq!(parse_i32_str(s), s.parse::<i32>().ok(), "input {:?}", s);
    }
}

#[test]
fn parse_u64_follows_std() {
    for s in ["1381383699320537209", "18446744073709551615", "18446744073709551616", "-1", "+5", "", "12 ", "abc"] {
        assert_eq!(parse_u64_str(s), s.parse::<u64>().ok(), "input {:?}", s);
    }
}

#[test]
fn equality_of_text() {
    assert!(equals("!coin", "!coin"));
    assert!(!equals("!coin", "!coins"));
}

#[test]
fn words_are_never_empty_nor_hold_whitespace() {
    let samples = ["", " a", "a b  c\t\td\n", "\u{2028}x\u{2029}", "!addcoin <@1> 5", "   "];
    for s in samples {
        for w in split_words(s) {
            assert!(!w.is_empty());
            assert!(!w.chars().any(|c| c.is_whitespace()));
        }
    }
}
