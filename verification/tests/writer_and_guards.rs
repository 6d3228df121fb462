//! Tests of the HTML conversion and the guarded helpers.

use mpmc::guards::{do_not_call_with_one, do_not_call_with_zero};
use mpmc::writer::{convert_to_html, HtmlWriter};

#[test]
fn html_special_characters_are_escaped() {
    let out = convert_to_html(b"<h1> & 'quotes' \"here\"").expect("plain text converts");
    assert_eq!(out, "&lt;h1&gt; &amp; &#39;quotes&#39; &quot;here&quot;");
}

#[test]
fn ansi_bold_becomes_a_tag() {
    let out = convert_to_html(b"\x1b[1mBold\x1b[0m plain").expect("valid ansi converts");
    assert_eq!(out, "<b>Bold</b> plain");
}

#[test]
fn ansi_color_becomes_a_span() {
    let out = convert_to_html(b"\x1b[31mred\x1b[0m").expect("valid ansi converts");
    assert_eq!(out, "<span style='color:var(--red,#a00)'>red</span>");
}

#[test]
fn invalid_utf8_yields_nothing() {
    assert_eq!(convert_to_html(&[0xff, 0xfe, 0x41]), None);
}

#[test]
fn malformed_ansi_code_yields_nothing() {
    assert_eq!(convert_to_html(b"\x1b[999mtoo big"), None);
}

#[test]
fn html_writer_wraps_the_inner_value() {
    let w = HtmlWriter::new(vec![0u8; 0]);
    assert!(w.inner.is_empty());
}

#[test]
fn guards_hand_back_good_values() {
    assert_eq!(do_not_call_with_zero(7), 7);
    assert_eq!(do_not_call_with_zero(1), 1);
    assert_eq!(do_not_call_with_one(0), 0);
    assert_eq!(do_not_call_with_one(42), 42);
}
