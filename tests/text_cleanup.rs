use apas::text::{
    clean_output, normalize_whitespace, strip_ansi_codes, truncate_string, unicode_general_category,
    UnicodeCategory,
};

#[test]
fn test_strip_ansi_codes_basic() {
    assert_eq!(strip_ansi_codes("hello world"), "hello world");
    assert_eq!(strip_ansi_codes("line1\nline2"), "line1\nline2");
}

#[test]
fn test_strip_ansi_codes_csi_sequences() {
    assert_eq!(strip_ansi_codes("\x1b[32mgreen\x1b[0m"), "green");
    assert_eq!(strip_ansi_codes("\x1b[1;31mbold red\x1b[0m"), "bold red");
    assert_eq!(strip_ansi_codes("\x1b[2Kcleared line"), "cleared line");
    assert_eq!(strip_ansi_codes("\x1b[10;20Htext"), "text");
    assert_eq!(strip_ansi_codes("\x1b[?25l\x1b[?25h"), "");
}

#[test]
fn test_strip_ansi_codes_osc_sequences() {
    assert_eq!(strip_ansi_codes("\x1b]0;Window Title\x07text"), "text");
    assert_eq!(strip_ansi_codes("prefix\x1b]0;title\x07suffix"), "prefixsuffix");
    assert_eq!(strip_ansi_codes("\x1b]0;Title\x1b\\text"), "text");
}

#[test]
fn test_strip_ansi_codes_dcs_sequences() {
    assert_eq!(strip_ansi_codes("\x1bPsome data\x1b\\text"), "text");
}

#[test]
fn test_strip_ansi_codes_control_characters() {
    assert_eq!(strip_ansi_codes("hello\rworld"), "helloworld");
    assert_eq!(strip_ansi_codes("beep\x07beep"), "beepbeep");
    assert_eq!(strip_ansi_codes("back\x08space"), "backspace");
}

#[test]
fn test_strip_ansi_codes_preserves_newlines_and_tabs() {
    assert_eq!(strip_ansi_codes("line1\nline2\ttabbed"), "line1\nline2\ttabbed");
}

#[test]
fn test_strip_ansi_codes_8bit_controls() {
    assert_eq!(strip_ansi_codes("\u{009b}32mtext\u{009b}0m"), "text");
    assert_eq!(strip_ansi_codes("\u{009d}title\x07text"), "text");
}

#[test]
fn test_clean_output_basic() {
    assert_eq!(clean_output("hello world"), "hello world");
}

#[test]
fn test_clean_output_collapses_whitespace() {
    assert_eq!(clean_output("hello   world"), "hello world");
    assert_eq!(clean_output("  leading space"), "leading space");
    assert_eq!(clean_output("trailing space  "), "trailing space");
}

#[test]
fn test_clean_output_collapses_newlines() {
    assert_eq!(clean_output("line1\n\n\nline2"), "line1\nline2");
}

#[test]
fn test_clean_output_removes_spinner_characters() {
    assert_eq!(clean_output("Loading\u{2733}..."), "Loading...");
    assert_eq!(clean_output("\u{25CF}\u{25D0}\u{25D3}\u{25D1}\u{25D2}"), "");
    assert_eq!(clean_output("text \u{2733} more text"), "text more text");
    assert_eq!(clean_output("\u{280B}\u{2819}\u{2839}loading"), "loading");
}

#[test]
fn test_clean_output_removes_box_drawing() {
    let input = "\u{2500}\u{2500}\u{2500}text\u{2500}\u{2500}\u{2500}";
    let output = clean_output(input);
    assert_eq!(output, "text");
}

#[test]
fn test_clean_output_removes_decorative_arrows() {
    assert_eq!(clean_output("\u{276F} prompt"), "prompt");
    assert_eq!(clean_output("\u{25B6} playing"), "playing");
}

#[test]
fn test_clean_output_with_ansi_codes() {
    let input = "\x1b[32m  hello  \x1b[0m  \u{2733}  \x1b[1mworld\x1b[0m  ";
    let output = clean_output(input);
    assert_eq!(output, "hello world");
}

#[test]
fn test_clean_output_preserves_unicode() {
    assert_eq!(
        clean_output("\u{65E5}\u{672C}\u{8A9E}\u{30C6}\u{30B9}\u{30C8}"),
        "\u{65E5}\u{672C}\u{8A9E}\u{30C6}\u{30B9}\u{30C8}"
    );
    assert_eq!(clean_output("emoji \u{1F44B} test"), "emoji \u{1F44B} test");
    assert_eq!(clean_output("\u{D1}o\u{F1}o caf\u{E9}"), "\u{D1}o\u{F1}o caf\u{E9}");
}

#[test]
fn test_clean_output_orphaned_osc() {
    assert_eq!(clean_output("]0;Window Title  actual content"), "actual content");
    assert_eq!(clean_output("]0;Window Title\u{2733} content"), "content");
    assert_eq!(clean_output("]0;My Title  hello world"), "hello world");
    assert_eq!(clean_output("]0;first  ]1;second  text"), "text");
}

#[test]
fn test_clean_output_real_world_claude_spinner() {
    let input = "\x1b]0;\u{2733} Initial Greeting\x07\x1b[2K\x1b[1G\u{2733} hello \u{B7} Blanching\u{2026}";
    let output = clean_output(input);
    assert!(!output.contains("\u{2733}"));
    assert!(!output.contains('\x1b'));
    assert!(!output.contains(']'));
    assert!(output.contains("hello") || output.contains("Blanching"));
}

#[test]
fn test_clean_output_complex_terminal_output() {
    let input = "\x1b[2K\x1b[1G\u{276F} \x1b[32mhello\x1b[0m\n\x1b[2K\u{2733} Processing...\r\u{2733} Done!";
    let output = clean_output(input);
    assert!(output.contains("hello"));
    assert!(!output.contains("\u{2733}"));
    assert!(!output.contains("\u{276F}"));
}

#[test]
fn test_clean_output_removes_zero_width_chars() {
    let input = "hello\u{200B}world\u{200C}test\u{200D}end";
    let output = clean_output(input);
    assert_eq!(output, "helloworldtestend");
}

#[test]
fn test_normalize_whitespace() {
    assert_eq!(normalize_whitespace("a  b"), "a b");
    assert_eq!(normalize_whitespace("a\n\nb"), "a\nb");
    assert_eq!(normalize_whitespace("  a  "), "a");
    assert_eq!(normalize_whitespace("a \n b"), "a\nb");
}

#[test]
fn test_unicode_category_detection() {
    assert_eq!(unicode_general_category('\x00'), UnicodeCategory::Control);
    assert_eq!(unicode_general_category('\x1b'), UnicodeCategory::Control);
    assert_eq!(unicode_general_category('\u{200B}'), UnicodeCategory::Format);
    assert_eq!(unicode_general_category('\u{FEFF}'), UnicodeCategory::Format);
    assert_eq!(unicode_general_category('\u{E000}'), UnicodeCategory::PrivateUse);
    assert_eq!(unicode_general_category('a'), UnicodeCategory::Other);
    assert_eq!(unicode_general_category('\u{65E5}'), UnicodeCategory::Other);
}

#[test]
fn truncate_keeps_short_text() {
    assert_eq!(truncate_string("abc", 3), "abc");
    assert_eq!(truncate_string("", 0), "");
}

#[test]
fn truncate_cuts_on_characters() {
    assert_eq!(truncate_string("abcdef", 3), "abc...");
    assert_eq!(truncate_string("\u{65E5}\u{672C}\u{8A9E}", 1), "\u{65E5}...");
}

#[test]
fn strip_keeps_text_after_charset_selection() {
    assert_eq!(strip_ansi_codes("\x1b(Bplain"), "plain");
    assert_eq!(strip_ansi_codes("\x1b=keypad"), "keypad");
    assert_eq!(strip_ansi_codes("end\x1b"), "end");
}

#[test]
fn clean_output_keeps_bracket_without_title() {
    assert_eq!(clean_output("[x] done"), "[x] done");
    assert_eq!(clean_output("a ] b"), "a ] b");
}
