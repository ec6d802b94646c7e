use shiny_live_history_diagram::title::escape_reserved;
use shiny_live_history_diagram::title::is_reserved_char;
use shiny_live_history_diagram::PageTitle;

fn file_name(title: &str) -> String {
    PageTitle::new(title.to_string()).to_file_name().unwrap()
}

#[test]
fn plain_title_gets_only_the_suffix() {
    assert_eq!(file_name("Foo"), "Foo.html");
    assert_eq!(file_name("Shiny Smile"), "Shiny Smile.html");
    assert_eq!(file_name(""), ".html");
}

#[test]
fn title_beyond_ascii_is_kept() {
    assert_eq!(file_name("全曲一覧"), "全曲一覧.html");
}

#[test]
fn slash_is_escaped_in_lower_case() {
    let name = file_name("a/b");
    assert_eq!(name, "a%2fb.html");
    assert!(!name.contains('/'));
}

#[test]
fn every_reserved_character_is_escaped() {
    assert_eq!(file_name("<"), "%3c.html");
    assert_eq!(file_name(">"), "%3e.html");
    assert_eq!(file_name(":"), "%3a.html");
    assert_eq!(file_name("\\"), "%5c.html");
    assert_eq!(file_name("|"), "%7c.html");
    assert_eq!(file_name("?"), "%3f.html");
    assert_eq!(file_name("*"), "%2a.html");
    assert_eq!(file_name("\""), "%22.html");
    assert_eq!(file_name("/"), "%2f.html");
}

#[test]
fn control_characters_are_escaped_with_two_digits() {
    assert_eq!(file_name("\u{0}"), "%00.html");
    assert_eq!(file_name("a\tb"), "a%09b.html");
    assert_eq!(file_name("\n"), "%0a.html");
    assert_eq!(file_name("\u{1f}"), "%1f.html");
}

#[test]
fn space_and_delete_are_not_reserved() {
    assert_eq!(file_name(" "), " .html");
    assert_eq!(file_name("\u{7f}"), "\u{7f}.html");
    assert!(!is_reserved_char(' '));
    assert!(!is_reserved_char('%'));
    assert!(is_reserved_char('\u{1f}'));
    assert!(is_reserved_char('/'));
}

#[test]
fn percent_escapes_are_decoded_first() {
    assert_eq!(file_name("%41"), "A.html");
    assert_eq!(file_name("A%2FB"), "A%2fB.html");
    assert_eq!(file_name("A%2fB"), "A%2fB.html");
    assert_eq!(file_name("%E5%85%A8%E6%9B%B2"), "全曲.html");
    assert_eq!(file_name("What%3F"), "What%3f.html");
}

#[test]
fn percent_sign_without_two_digits_stays() {
    assert_eq!(file_name("50%"), "50%.html");
    assert_eq!(file_name("%zz"), "%zz.html");
    assert_eq!(file_name("%4"), "%4.html");
    assert_eq!(file_name("%%41"), "%A.html");
}

#[test]
fn title_that_is_not_utf8_has_no_file_name() {
    let err = PageTitle::new("%FF".to_string()).to_file_name().unwrap_err();
    assert_eq!(err.title, "%FF");
    let err = PageTitle::new("ok%C3".to_string()).to_file_name().unwrap_err();
    assert_eq!(err.title, "ok%C3");
}

#[test]
fn file_name_is_the_same_at_every_call() {
    let title = PageTitle::new("a:b%2Fc".to_string());
    let first = title.to_file_name().unwrap();
    let second = title.to_file_name().unwrap();
    assert_eq!(first, second);
    assert_eq!(first, "a%3ab%2fc.html");
}

#[test]
fn escape_reserved_leaves_other_text_alone() {
    assert_eq!(escape_reserved("plain text"), "plain text");
    assert_eq!(escape_reserved("a?b*c"), "a%3fb%2ac");
    assert_eq!(escape_reserved(""), "");
}

#[test]
fn url_escapes_controls_and_bytes_beyond_ascii() {
    let url = PageTitle::new("全曲一覧".to_string()).to_url();
    assert_eq!(
        url,
        "https://music765plus.com/index.php?title=%E5%85%A8%E6%9B%B2%E4%B8%80%E8%A6%A7&action=view"
    );
}

#[test]
fn url_keeps_printable_ascii() {
    let url = PageTitle::new("Foo Bar/baz?x".to_string()).to_url();
    assert_eq!(
        url,
        "https://music765plus.com/index.php?title=Foo Bar/baz?x&action=view"
    );
    let url = PageTitle::new("a\tb\u{7f}".to_string()).to_url();
    assert_eq!(
        url,
        "https://music765plus.com/index.php?title=a%09b%7F&action=view"
    );
}

#[test]
fn page_title_conversions() {
    let title = PageTitle::from("Foo".to_string());
    assert_eq!(title.as_str(), "Foo");
    assert_eq!(title.to_string(), "Foo");
}
