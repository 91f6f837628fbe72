//! Texts.
use wasm_glue::text::{chars_of, has_prefix, has_suffix, same, split_lines, squeeze, to_decimal, trim};

#[test]
fn three_line_feeds_become_two() {
    assert_eq!(squeeze("a\n\n\nb\n\n\n\n\nc\n\nd\n"), "a\n\nb\n\nc\n\nd\n");
    assert_eq!(squeeze("\n\n\n\n"), "\n\n");
    assert_eq!(squeeze("a\n \n\nb"), "a\n \n\nb");
    assert_eq!(squeeze(""), "");
}

#[test]
fn squeezing_is_replacing_again_and_again() {
    for text in ["\n\n\n\n\n", "x\n\n\n\ny\n\n\nz", "\n\nx", "é\n\n\n\n\n\n\né"] {
        let mut replaced = text.to_string();
        while replaced.contains("\n\n\n") {
            replaced = replaced.replace("\n\n\n", "\n\n");
        }
        assert_eq!(squeeze(text), replaced);
        assert_eq!(squeeze(&replaced), replaced);
    }
}

#[test]
fn white_space_is_trimmed() {
    for text in ["  a b\n", "\u{a0}\u{2003}x\u{3000}", "", " \t\r\n", "é", "\u{85}y\u{1680}"] {
        assert_eq!(trim(text), text.trim());
    }
}

#[test]
fn lines_end_with_line_feeds() {
    for text in ["", "a", "a\n", "a\r\nb", "\n", "a\n\nb\n", "a\rb\r", "a\r\r\n"] {
        let lines: Vec<String> = text.lines().map(|line| line.to_string()).collect();
        assert_eq!(split_lines(text), lines);
    }
}

#[test]
fn numbers_in_decimal() {
    for n in [0, 7, 10, 99, 100, 4294967296, u64::MAX] {
        assert_eq!(to_decimal(n), n.to_string());
    }
}

#[test]
fn numbers_differ() {
    let texts: Vec<String> = (0..2000).map(to_decimal).collect();
    for i in 1..2000 {
        assert_ne!(texts[i], texts[i - 1]);
    }
}

#[test]
fn ends_of_texts() {
    assert!(has_prefix("class A {}", "class"));
    assert!(!has_prefix(" class A {}", "class"));
    assert!(has_prefix("x", ""));
    assert!(has_suffix("/** */\n", "*/\n"));
    assert!(!has_suffix("\n", "\n\n"));
    assert!(same("é", "é"));
    assert!(!same("a", "A"));
    assert_eq!(chars_of("aé"), vec!['a', 'é']);
}
