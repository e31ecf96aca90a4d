use cmdgen::text::{chars_of, is_blank, is_whitespace, join_words, same_text, trim};

#[test]
fn white_space_is_what_std_calls_white_space() {
    let mut code: u32 = 0;
    while code <= 0x10FFFF {
        if let Some(c) = char::from_u32(code) {
            assert_eq!(is_whitespace(c), c.is_whitespace(), "U+{:04X}", code);
        }
        code += 1;
    }
}

#[test]
fn white_space_examples() {
    assert!(is_whitespace(' '));
    assert!(is_whitespace('\n'));
    assert!(is_whitespace('\t'));
    assert!(is_whitespace('\u{A0}'));
    assert!(is_whitespace('\u{3000}'));
    assert!(!is_whitespace('a'));
    assert!(!is_whitespace('\u{200B}'));
    assert!(!is_whitespace('\u{1C}'));
}

#[test]
fn chars_of_keeps_every_character() {
    assert_eq!(chars_of(""), Vec::<char>::new());
    assert_eq!(chars_of("a\u{e9}\u{1F600}z"), vec!['a', '\u{e9}', '\u{1F600}', 'z']);
}

#[test]
fn trim_removes_white_space_at_both_ends() {
    assert_eq!(trim(" ls -la \n"), "ls -la");
    assert_eq!(trim("ls"), "ls");
    assert_eq!(trim("\t\r\n x y \u{2003}"), "x y");
    assert_eq!(trim("\u{3000}caf\u{e9}\u{A0}"), "caf\u{e9}");
}

#[test]
fn trim_of_blank_text_is_empty() {
    assert_eq!(trim(""), "");
    assert_eq!(trim("   "), "");
    assert_eq!(trim("\n"), "");
}

#[test]
fn trim_keeps_inner_white_space() {
    assert_eq!(trim("  a \n b  "), "a \n b");
}

#[test]
fn trim_agrees_with_std() {
    let samples = [
        "",
        " ",
        "a",
        " a",
        "a ",
        " a b ",
        "\u{85}x\u{85}",
        "\u{200B} x \u{200B}",
        "\u{1680}\u{2000}\u{200A}q\u{2028}\u{2029}\u{202F}\u{205F}",
        "echo \"hi\"  \n\n",
    ];
    for s in samples {
        assert_eq!(trim(s), s.trim(), "{:?}", s);
    }
}

#[test]
fn trim_twice_changes_nothing() {
    let once = trim("  git status \n");
    assert_eq!(trim(once), once);
}

#[test]
fn blank_texts() {
    assert!(is_blank(""));
    assert!(is_blank(" "));
    assert!(is_blank(" \t\n\r\u{3000}"));
    assert!(!is_blank("a"));
    assert!(!is_blank("  a  "));
    assert!(!is_blank("\u{200B}"));
}

#[test]
fn blank_is_empty_after_trim() {
    let samples = ["", "  ", "\n\t", "x", " x ", "\u{A0}"];
    for s in samples {
        assert_eq!(is_blank(s), trim(s).is_empty(), "{:?}", s);
    }
}

#[test]
fn same_text_compares_characters() {
    assert!(same_text("", ""));
    assert!(same_text("/bin/bash", "/bin/bash"));
    assert!(!same_text("/bin/bash", "/bin/zsh"));
    assert!(!same_text("y", "Y"));
    assert!(!same_text("ab", "abc"));
}

#[test]
fn join_words_puts_one_space_between() {
    let none: Vec<String> = Vec::new();
    assert_eq!(join_words(&none), "");
    assert_eq!(join_words(&vec![String::from("list")]), "list");
    assert_eq!(
        join_words(&vec![String::from("list"), String::from("all"), String::from("files")]),
        "list all files"
    );
}

#[test]
fn join_words_keeps_empty_words() {
    let words = vec![String::from("a"), String::new(), String::from("b")];
    assert_eq!(join_words(&words), "a  b");
    assert_eq!(join_words(&words), words.join(" "));
    assert_eq!(join_words(&vec![String::new()]), "");
    assert_eq!(join_words(&vec![String::new(), String::new()]), " ");
}
