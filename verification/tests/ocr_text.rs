use circle_to_search_pc::ocr_text::assemble_line_text;
use circle_to_search_pc::ocr_text::assemble_word_text;
use circle_to_search_pc::ocr_text::ocr_word_text;
use circle_to_search_pc::ocr_cleanup::{cleanup_ocr_artifacts, get_ocr_replacements};

#[test]
fn test_cleanup_ocr_artifacts_removes_garbage_characters() {
    assert_eq!(cleanup_ocr_artifacts("¬Æ test"), "test");
    assert_eq!(cleanup_ocr_artifacts("¬© text"), "text");
    assert_eq!(cleanup_ocr_artifacts("hello (|) world"), "hello  world");
}

#[test]
fn test_cleanup_ocr_artifacts_converts_bullets() {
    assert_eq!(cleanup_ocr_artifacts("¬¢ item"), "• item");
    assert_eq!(cleanup_ocr_artifacts("¬∑ bullet"), "• bullet");
    assert_eq!(cleanup_ocr_artifacts("¬∏ point"), "• point");
}

#[test]
fn test_cleanup_ocr_artifacts_converts_quotes() {
    assert_eq!(cleanup_ocr_artifacts("¬´hello¬ª"), "'hello'");
    assert_eq!(cleanup_ocr_artifacts("``quoted''"), "\"quoted\"");
}

#[test]
fn test_cleanup_ocr_artifacts_converts_arrows() {
    assert_eq!(cleanup_ocr_artifacts("go ->"), "go →");
    assert_eq!(cleanup_ocr_artifacts("<- back"), "← back");
    assert_eq!(cleanup_ocr_artifacts("<->"), "↔");
    assert_eq!(cleanup_ocr_artifacts("=>"), "⇒");
    assert_eq!(cleanup_ocr_artifacts("t/\\"), "↑/↓");
}

#[test]
fn test_cleanup_ocr_artifacts_converts_mac_shortcuts() {
    assert_eq!(cleanup_ocr_artifacts("#C"), "⌘C");
    assert_eq!(cleanup_ocr_artifacts("#V"), "⌘V");
    assert_eq!(cleanup_ocr_artifacts("#S"), "⌘S");
    assert_eq!(cleanup_ocr_artifacts("#Z"), "⌘Z");
    assert_eq!(cleanup_ocr_artifacts("Press #C to copy"), "Press ⌘C to copy");
}

#[test]
fn test_cleanup_ocr_artifacts_converts_modifier_keys() {
    assert_eq!(cleanup_ocr_artifacts("Ctrl+C"), "⌃C");
    assert_eq!(cleanup_ocr_artifacts("Alt+Tab"), "⌥⇥");
    assert_eq!(cleanup_ocr_artifacts("Shift+Enter"), "⇧↵");
    assert_eq!(cleanup_ocr_artifacts("Cmd+Q"), "⌘Q");
}

#[test]
fn test_cleanup_ocr_artifacts_converts_special_keys() {
    assert_eq!(cleanup_ocr_artifacts("Tab"), "⇥");
    assert_eq!(cleanup_ocr_artifacts("Enter"), "↵");
    assert_eq!(cleanup_ocr_artifacts("Esc"), "⎋");
    assert_eq!(cleanup_ocr_artifacts("Del"), "⌫");
    assert_eq!(cleanup_ocr_artifacts("Backspace"), "⌫");
}

#[test]
fn test_cleanup_ocr_artifacts_converts_math_symbols() {
    assert_eq!(cleanup_ocr_artifacts("+-"), "±");
    assert_eq!(cleanup_ocr_artifacts("!="), "≠");
    assert_eq!(cleanup_ocr_artifacts("..."), "…");
    assert_eq!(cleanup_ocr_artifacts("1/2"), "½");
    assert_eq!(cleanup_ocr_artifacts("pi"), "π");
}

#[test]
fn test_cleanup_ocr_artifacts_converts_copyright_symbols() {
    assert_eq!(cleanup_ocr_artifacts("(c)"), "©");
    assert_eq!(cleanup_ocr_artifacts("(C)"), "©");
    assert_eq!(cleanup_ocr_artifacts("(r)"), "®");
    assert_eq!(cleanup_ocr_artifacts("(tm)"), "™");
}

#[test]
fn test_cleanup_ocr_artifacts_converts_checkboxes() {
    assert_eq!(cleanup_ocr_artifacts("[x]"), "☑");
    assert_eq!(cleanup_ocr_artifacts("[ ]"), "☐");
    assert_eq!(cleanup_ocr_artifacts("[v]"), "✓");
}

#[test]
fn test_cleanup_ocr_artifacts_converts_currency() {
    assert_eq!(cleanup_ocr_artifacts("EUR 100"), "€ 100");
    assert_eq!(cleanup_ocr_artifacts("GBP 50"), "£ 50");
    assert_eq!(cleanup_ocr_artifacts("JPY 1000"), "¥ 1000");
}

#[test]
fn test_cleanup_ocr_artifacts_trims_whitespace() {
    assert_eq!(cleanup_ocr_artifacts("  hello  "), "hello");
    assert_eq!(cleanup_ocr_artifacts("\ttest\n"), "test");
}

#[test]
fn test_cleanup_ocr_artifacts_handles_empty_string() {
    assert_eq!(cleanup_ocr_artifacts(""), "");
}

#[test]
fn test_cleanup_ocr_artifacts_preserves_normal_text() {
    assert_eq!(cleanup_ocr_artifacts("Hello World"), "Hello World");
    assert_eq!(cleanup_ocr_artifacts("Test 123"), "Test 123");
}

#[test]
fn test_cleanup_ocr_artifacts_handles_complex_text() {
    let input = "Press #C to copy ¬¢ item -> next";
    let expected = "Press ⌘C to copy • item → next";
    assert_eq!(cleanup_ocr_artifacts(input), expected);
}

#[test]
fn test_get_ocr_replacements_returns_non_empty_list() {
    let replacements = get_ocr_replacements();
    assert!(!replacements.is_empty());
    assert!(replacements.len() > 100);
}

#[test]
fn test_get_ocr_replacements_contains_essential_patterns() {
    let replacements = get_ocr_replacements();
    let patterns: Vec<&str> = replacements.iter().map(|(p, _)| *p).collect();

    assert!(patterns.contains(&"#C"));
    assert!(patterns.contains(&"#V"));
    assert!(patterns.contains(&"->"));
    assert!(patterns.contains(&"..."));
    assert!(patterns.contains(&"(c)"));
}

#[test]
fn cleanup_applies_replacements_in_table_order() {
    // "<->" is listed before "->", so the double arrow wins over the single one.
    assert_eq!(cleanup_ocr_artifacts("a <-> b"), "a ↔ b");
    // Replacements run one after the other over the whole text.
    assert_eq!(cleanup_ocr_artifacts("#C and #V"), "⌘C and ⌘V");
}

#[test]
fn cleanup_output_has_no_surrounding_whitespace() {
    let cleaned = cleanup_ocr_artifacts("  ¬Æ  (c) 2024 \n");
    assert_eq!(cleaned, "© 2024");
    assert_eq!(cleaned.trim(), cleaned);
}

#[test]
fn replacement_table_starts_with_the_garbage_patterns() {
    let replacements = get_ocr_replacements();
    assert_eq!(replacements[0], ("¬Æ", ""));
    assert_eq!(replacements.len(), 122);
}

#[test]
fn recognized_words_are_trimmed_and_cleaned() {
    assert_eq!(ocr_word_text("  #C "), Some("⌘C".to_string()));
    assert_eq!(ocr_word_text("   "), None);
    assert_eq!(ocr_word_text("¬Æ"), None);
    assert_eq!(ocr_word_text("word"), Some("word".to_string()));
}

#[test]
fn recognized_words_are_joined_by_spaces() {
    let words = vec!["Press".to_string(), "⌘C".to_string(), "now".to_string()];
    assert_eq!(assemble_word_text(&words), "Press ⌘C now");
    assert_eq!(assemble_word_text(&Vec::new()), "");
}

#[test]
fn recognized_lines_skip_blank_and_missing_lines() {
    let lines = vec![Some("first".to_string()), None, Some("  ".to_string()), Some(" second".to_string())];
    assert_eq!(assemble_line_text(&lines), "first\n second\n");
}
