use common::text::{is_whitespace, join_from, lowercases_to_keyword, split_words};

#[test]
fn whitespace_matches_std_for_every_char() {
    for v in 0u32..=0x10FFFF {
        if let Some(c) = char::from_u32(v) {
            assert_eq!(is_whitespace(c), c.is_whitespace(), "U+{:04X}", v);
        }
    }
}

#[test]
fn words_match_split_whitespace() {
    for s in [
        "",
        "   ",
        "a",
        " a ",
        "join  bob",
        "\tsend\u{2003}hi\u{85}there\n",
        "x\u{1C}y z",
        "ünï cödé\u{3000}wörds",
    ] {
        let expected: Vec<String> = s.split_whitespace().map(|w| w.to_string()).collect();
        assert_eq!(split_words(s), expected, "{:?}", s);
    }
}

#[test]
fn join_from_matches_std_join() {
    let ws: Vec<String> = vec!["a".to_string(), "bc".to_string(), "d".to_string()];
    assert_eq!(join_from(&ws, 0), "a bc d");
    assert_eq!(join_from(&ws, 1), "bc d");
    assert_eq!(join_from(&ws, 3), "");
}

#[test]
fn keyword_matching_agrees_with_to_lowercase() {
    for w in ["join", "JOIN", "Join", "jOiN", "joins", "joi", "jo\u{130}n", "\u{212A}", "joın", "send", "SEND", "leave", "LeAvE"] {
        for kw in ["join", "send", "leave"] {
            assert_eq!(
                lowercases_to_keyword(&w.to_string(), kw),
                w.to_lowercase() == kw,
                "{:?} {:?}",
                w,
                kw
            );
        }
    }
}
