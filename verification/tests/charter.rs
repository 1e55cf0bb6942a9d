use phirlie::charter::display_charter;
use regex::Regex;

fn reference(s: &str) -> String {
    Regex::new(r"\[!:[0-9]+:([^:]*)\]").unwrap().replace_all(s, "$1").to_string()
}

#[test]
fn single_mention_shows_name() {
    assert_eq!(display_charter("[!:123:Alice]"), "Alice");
}

#[test]
fn mentions_among_text() {
    assert_eq!(display_charter("[!:1:Alice] & [!:22:Bob]"), "Alice & Bob");
    assert_eq!(display_charter("Chart: [!:7:谱师]"), "Chart: 谱师");
}

#[test]
fn plain_text_unchanged() {
    assert_eq!(display_charter("Some Charter"), "Some Charter");
    assert_eq!(display_charter(""), "");
    assert_eq!(display_charter("[not a mention]"), "[not a mention]");
}

#[test]
fn malformed_mentions_kept() {
    assert_eq!(display_charter("[!::Alice]"), "[!::Alice]");
    assert_eq!(display_charter("[!:12Alice]"), "[!:12Alice]");
    assert_eq!(display_charter("[!:12:Alice"), "[!:12:Alice");
    assert_eq!(display_charter("[!:a1:Alice]"), "[!:a1:Alice]");
}

#[test]
fn name_runs_to_last_bracket_before_colon() {
    assert_eq!(display_charter("[!:1:a]b]:c"), "a]b:c");
    assert_eq!(display_charter("[!:1:a] and [!:2:b]"), "a and b");
}

#[test]
fn agrees_with_regex_replacement() {
    let cases = [
        "[!:123:Alice]",
        "x[!:1:a]y[!:2:b]z",
        "[!:1:a] and [!:2:b]",
        "[!:1:a]b]:c",
        "[!:1:a]b]c",
        "[!:1:[!:2:x]]",
        "[![!:3:n]",
        "[!:1:]",
        "[!:1::]",
        "[!:001:名字] 和 [!:2:别人]",
        "]]]][!:9:]]]",
        "[!:9:a:b]",
        "[!:12:line\nbreak]",
        "no markup at all",
    ];
    for case in cases {
        assert_eq!(display_charter(case), reference(case), "input {case:?}");
    }
}
