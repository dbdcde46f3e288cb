use crabodon::content::text::chars_of;
use crabodon::content::text::same_text;

#[test]
fn same_text_compares_all_characters() {
    assert!(same_text("", ""));
    assert!(same_text("p", "p"));
    assert!(same_text("invisible", "invisible"));
    assert!(!same_text("p", ""));
    assert!(!same_text("", "p"));
    assert!(!same_text("p", "P"));
    assert!(!same_text("span", "spam"));
    assert!(!same_text("span", "spans"));
    assert!(!same_text("xspan", "span"));
}

#[test]
fn same_text_compares_beyond_ascii() {
    assert!(same_text("caf\u{e9} \u{2026}", "caf\u{e9} \u{2026}"));
    assert!(!same_text("caf\u{e9}", "cafe"));
    assert!(!same_text("\u{e9}", "\u{e8}"));
    assert!(!same_text("e\u{301}", "\u{e9}"));
}

#[test]
fn chars_of_gives_characters_in_order() {
    assert_eq!(chars_of(""), Vec::<char>::new());
    assert_eq!(chars_of("a b"), vec!['a', ' ', 'b']);
    assert_eq!(chars_of("\u{e9}\u{2026}z"), vec!['\u{e9}', '\u{2026}', 'z']);
}
