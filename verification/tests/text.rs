use riff_bindgen::text::trim_text;

#[test]
fn trim_removes_unicode_white_space_at_both_ends() {
    assert_eq!(trim_text("  \tabc \n"), "abc");
    assert_eq!(trim_text("\u{3000}\u{a0}x y\u{2029}\u{85}"), "x y");
    assert_eq!(trim_text(" \n\t "), "");
    assert_eq!(trim_text(""), "");
    assert_eq!(trim_text("a\u{200b}"), "a\u{200b}");
    assert_eq!(trim_text("  a  b  "), "a  b");
}

#[test]
fn trim_agrees_with_str_trim() {
    for s in ["\u{1680}q\u{205f}", "\r\nline\r\n", "\u{2000}\u{200a}z\u{202f}", "x"] {
        assert_eq!(trim_text(s), s.trim());
    }
}
