use generation_orchestrator::text::{
    chars_of, is_whitespace, same_text, trim, truncate_to_words, word_count, word_spans,
};

fn numbered_words(n: usize) -> Vec<String> {
    let mut words = Vec::new();
    for i in 0..n {
        words.push(format!("word{i}"));
    }
    words
}

#[test]
fn whitespace_agrees_with_std_on_every_char() {
    for code in 0u32..=0x10FFFF {
        if let Some(c) = char::from_u32(code) {
            assert_eq!(is_whitespace(c), c.is_whitespace(), "U+{code:04X}");
        }
    }
}

#[test]
fn whitespace_named_characters() {
    assert!(is_whitespace(' '));
    assert!(is_whitespace('\t'));
    assert!(is_whitespace('\n'));
    assert!(is_whitespace('\u{00A0}'));
    assert!(is_whitespace('\u{3000}'));
    assert!(!is_whitespace('a'));
    assert!(!is_whitespace('\u{200B}'));
    assert!(!is_whitespace('\u{001C}'));
}

#[test]
fn chars_of_keeps_every_character_in_order() {
    assert_eq!(chars_of(""), Vec::<char>::new());
    assert_eq!(chars_of("a\u{00E9} \u{1F600}"), vec!['a', '\u{00E9}', ' ', '\u{1F600}']);
}

#[test]
fn word_spans_give_character_positions() {
    let chars = chars_of("  \u{00E9}t\u{00E9}  is\there ");
    assert_eq!(word_spans(&chars), vec![(2, 5), (7, 9), (10, 14)]);
    assert_eq!(word_spans(&chars_of("")), Vec::<(usize, usize)>::new());
    assert_eq!(word_spans(&chars_of(" \n ")), Vec::<(usize, usize)>::new());
    assert_eq!(word_spans(&chars_of("x")), vec![(0, 1)]);
}

#[test]
fn word_count_agrees_with_std() {
    let samples = [
        "",
        " ",
        "one",
        " one ",
        "one two",
        "one  two\tthree\nfour",
        "\u{3000}wide\u{00A0}spaces\u{2003}here\u{3000}",
        "a quiet forest",
        "tabs\t\tand\r\nnewlines",
    ];
    for s in samples {
        assert_eq!(word_count(s), s.split_whitespace().count(), "{s:?}");
    }
}

#[test]
fn trim_agrees_with_std() {
    let samples = [
        "",
        "   ",
        "plain",
        "  leading",
        "trailing \n",
        "\t both sides \r\n",
        " inner  spaces stay ",
        "\u{3000}\u{00E9}t\u{00E9}\u{00A0}",
        "\u{200B}zero width is not space\u{200B}",
    ];
    for s in samples {
        assert_eq!(trim(s), s.trim(), "{s:?}");
    }
}

#[test]
fn trim_exact_values() {
    assert_eq!(trim("  a quiet forest \n"), "a quiet forest");
    assert_eq!(trim(" \t\n"), "");
    assert_eq!(trim("x"), "x");
}

#[test]
fn truncate_within_budget_returns_text_unchanged() {
    assert_eq!(truncate_to_words("cat", 50), "cat");
    assert_eq!(truncate_to_words("", 50), "");
    assert_eq!(truncate_to_words("  spaced   out \n text ", 3), "  spaced   out \n text ");
    assert_eq!(truncate_to_words("a b c", 3), "a b c");
}

#[test]
fn truncate_over_budget_keeps_first_words_joined_by_single_spaces() {
    assert_eq!(truncate_to_words("a b c d", 3), "a b c");
    assert_eq!(truncate_to_words("  one \t two\n\nthree   four ", 2), "one two");
    assert_eq!(truncate_to_words("\u{00E9}t\u{00E9}\u{3000}hiver printemps", 2), "\u{00E9}t\u{00E9} hiver");
    assert_eq!(truncate_to_words("only", 0), "");
    assert_eq!(truncate_to_words("one two", 1), "one");
}

#[test]
fn truncate_agrees_with_std_formulation() {
    let samples = ["", "x", "a b c d e f g", "  a \t b \n c  ", "\u{3000}p\u{3000}q\u{3000}r s t"];
    for s in samples {
        for max in 0..9usize {
            let words: Vec<&str> = s.split_whitespace().collect();
            let expected = if words.len() <= max { s.to_string() } else { words[..max].join(" ") };
            assert_eq!(truncate_to_words(s, max), expected, "{s:?} / {max}");
        }
    }
}

#[test]
fn truncate_eighty_distinct_words_to_fifty() {
    let words = numbered_words(80);
    let text = words.join(" ");
    let cut = truncate_to_words(&text, 50);
    let kept: Vec<&str> = cut.split_whitespace().collect();
    assert_eq!(kept.len(), 50);
    assert_eq!(word_count(&cut), 50);
    for (i, w) in kept.iter().enumerate() {
        assert_eq!(*w, words[i]);
    }
}

#[test]
fn truncate_twice_changes_nothing_more() {
    let text = numbered_words(12).join("  ");
    let once = truncate_to_words(&text, 7);
    assert_eq!(truncate_to_words(&once, 7), once);
    assert_eq!(word_count(&once), 7);
}

#[test]
fn truncate_at_and_around_the_budget() {
    let forty_nine = numbered_words(49).join("\n");
    let fifty = numbered_words(50).join("\n");
    let fifty_one = numbered_words(51).join("\n");
    assert_eq!(truncate_to_words(&forty_nine, 50), forty_nine);
    assert_eq!(truncate_to_words(&fifty, 50), fifty);
    assert_eq!(truncate_to_words(&fifty_one, 50), numbered_words(50).join(" "));
}

#[test]
fn same_text_compares_characters() {
    assert!(same_text("", ""));
    assert!(same_text("/exit", "/exit"));
    assert!(!same_text("/exit", "/exit "));
    assert!(!same_text("/exit", "/quit"));
    assert!(!same_text("abc", "abd"));
    assert!(same_text("\u{00E9}", "\u{00E9}"));
}

#[test]
fn trimming_keeps_the_words() {
    let samples = ["", "  ", " a ", "\t one  two \n", "\u{3000}x\u{3000}y\u{3000}"];
    for s in samples {
        assert_eq!(word_count(trim(s)), word_count(s), "{s:?}");
    }
}
