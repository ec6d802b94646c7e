use shiny_live_history_diagram::text::same_text;
use shiny_live_history_diagram::text::strip_prefix_char;
use shiny_live_history_diagram::text::trim;

#[test]
fn trim_takes_both_ends() {
    assert_eq!(trim("  Album X  "), "Album X");
    assert_eq!(trim("\n\tx y\r\n"), "x y");
    assert_eq!(trim("x"), "x");
    assert_eq!(trim(" x"), "x");
    assert_eq!(trim("x "), "x");
}

#[test]
fn trim_of_whitespace_alone_is_empty() {
    assert_eq!(trim(""), "");
    assert_eq!(trim("   "), "");
    assert_eq!(trim("\u{3000}"), "");
}

#[test]
fn trim_knows_wide_spaces() {
    assert_eq!(trim("\u{3000}全曲 一覧\u{a0}"), "全曲 一覧");
}

#[test]
fn trim_agrees_with_the_standard_library() {
    let samples = [
        "",
        " ",
        "a",
        " a b ",
        "\u{2003}em\u{2003}",
        "tab\t",
        "\u{85}next line",
        "no space",
        " \u{feff}bom ",
    ];
    for s in samples {
        assert_eq!(trim(s), s.trim());
    }
}

#[test]
fn strip_prefix_char_takes_one_character() {
    assert_eq!(strip_prefix_char("/Foo", '/'), Some("Foo"));
    assert_eq!(strip_prefix_char("//Foo", '/'), Some("/Foo"));
    assert_eq!(strip_prefix_char("/", '/'), Some(""));
    assert_eq!(strip_prefix_char("Foo/", '/'), None);
    assert_eq!(strip_prefix_char("", '/'), None);
    assert_eq!(strip_prefix_char("全曲", '全'), Some("曲"));
}

#[test]
fn same_text_compares_characters() {
    assert!(same_text("br", "br"));
    assert!(!same_text("br", "b"));
    assert!(!same_text("BR", "br"));
    assert!(same_text("", ""));
}
