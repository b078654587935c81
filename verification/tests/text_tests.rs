use app_center::html::strip_html;
use app_center::aur;
use app_center::pacman;

#[test]
fn strip_html_drops_tags() {
    assert_eq!(strip_html("<b>Hello</b> world"), "Hello world");
}

#[test]
fn strip_html_turns_newlines_into_spaces() {
    assert_eq!(strip_html("one\ntwo"), "one two");
}

#[test]
fn strip_html_collapses_space_runs() {
    assert_eq!(strip_html("a    b"), "a b");
}

#[test]
fn strip_html_trims_ends() {
    assert_eq!(strip_html("   x   "), "x");
}

#[test]
fn strip_html_trims_unicode_whitespace() {
    assert_eq!(strip_html("\u{a0}hi\u{a0}"), "hi");
}

#[test]
fn strip_html_plain_text_unchanged() {
    assert_eq!(strip_html("plain text"), "plain text");
}

#[test]
fn strip_html_only_tags_yields_empty() {
    assert_eq!(strip_html("<div><p></p></div>"), "");
}

#[test]
fn aur_urlenc_space_becomes_plus() {
    assert_eq!(aur::urlenc("hello world"), "hello+world");
}

#[test]
fn aur_urlenc_keeps_unreserved_bytes() {
    assert_eq!(aur::urlenc("a-b_c.9Z"), "a-b_c.9Z");
}

#[test]
fn aur_urlenc_escapes_reserved_bytes() {
    assert_eq!(aur::urlenc("c++"), "c%2B%2B");
}

#[test]
fn aur_urlenc_escapes_each_utf8_byte() {
    assert_eq!(aur::urlenc("\u{e5}"), "%C3%A5");
}

#[test]
fn pacman_urlenc_space_is_percent_escaped() {
    assert_eq!(pacman::urlenc("hello world"), "hello%20world");
}

#[test]
fn pacman_urlenc_keeps_unicode_alphanumerics() {
    assert_eq!(pacman::urlenc("caf\u{e9}"), "caf\u{e9}");
}

#[test]
fn pacman_urlenc_escapes_code_points() {
    assert_eq!(pacman::urlenc("\u{2603}"), "%2603");
}

#[test]
fn pacman_urlenc_pads_low_code_points() {
    assert_eq!(pacman::urlenc("\t"), "%09");
}
