use columbo::format::{GLOBAL_SCRIPT_CONTENTS, PANIC_PAGE_HEAD, PANIC_PAGE_TAIL};
use columbo::{
    decimal_string, html_escape, panic_payload_to_string, render_global_script, render_panic,
    render_placeholder, render_replacement, Html, PanicPayload,
};

#[test]
fn decimal_string_matches_format() {
    for n in [0usize, 7, 9, 10, 42, 100, 12345, 1_000_000, usize::MAX] {
        assert_eq!(decimal_string(n), format!("{n}"));
    }
}

#[test]
fn placeholder_markup_exact() {
    let html = render_placeholder(&7, &Html::new("loading..."));
    assert_eq!(
        html.as_str(),
        r#"<span data-columbo-p-id="7" style="display: contents;">loading...</span>"#
    );
}

#[test]
fn replacement_markup_exact() {
    let html = render_replacement(&123, &Html::new("<p>done</p>"));
    assert_eq!(
        html.as_str(),
        r#"<template data-columbo-r-id="123"><p>done</p></template>"#
    );
}

#[test]
fn global_script_markup_exact() {
    let html = render_global_script();
    assert_eq!(html.into_string(), format!("<script>{GLOBAL_SCRIPT_CONTENTS}</script>"));
    assert!(!GLOBAL_SCRIPT_CONTENTS.contains("</script"));
}

#[test]
fn html_escape_replaces_special_characters() {
    assert_eq!(
        html_escape(r#"<a href="x">Tom & Jerry</a>"#),
        "&lt;a href=&quot;x&quot;&gt;Tom &amp; Jerry&lt;/a&gt;"
    );
}

#[test]
fn html_escape_does_not_double_escape() {
    assert_eq!(html_escape("&lt;"), "&amp;lt;");
}

#[test]
fn html_escape_leaves_plain_text() {
    assert_eq!(html_escape("plain text, ünïcödé ✓"), "plain text, ünïcödé ✓");
    assert_eq!(html_escape(""), "");
}

#[test]
fn panic_payload_text_and_opaque() {
    assert_eq!(
        panic_payload_to_string(&PanicPayload::Text("boom".to_string())),
        "boom"
    );
    assert_eq!(panic_payload_to_string(&PanicPayload::Opaque), "Box<dyn Any>");
}

#[test]
fn panic_page_exact() {
    let html = render_panic("bad <input>");
    assert_eq!(
        html.into_string(),
        format!("{PANIC_PAGE_HEAD}bad &lt;input&gt;{PANIC_PAGE_TAIL}")
    );
    assert!(PANIC_PAGE_HEAD.contains("Columbo Suspense Panic"));
    assert!(PANIC_PAGE_HEAD.ends_with(r#"font-size: 12px;">"#));
    assert!(PANIC_PAGE_TAIL.starts_with("</pre>"));
}

#[test]
fn default_panic_renderer_opaque_payload() {
    let html = columbo::default_panic_renderer(PanicPayload::Opaque);
    assert!(html.as_str().contains("Columbo Suspense Panic"));
    assert!(html.as_str().contains("Box&lt;dyn Any&gt;"));
}

fn unescape(s: &str) -> String {
    s.replace("&lt;", "<")
        .replace("&gt;", ">")
        .replace("&quot;", "\"")
        .replace("&amp;", "&")
}

#[test]
fn html_escape_round_trips() {
    for s in ["", "a<b>c", r#"say "hi" & bye"#, "&amp;lt;", "plain"] {
        assert_eq!(unescape(&html_escape(s)), s);
    }
}
