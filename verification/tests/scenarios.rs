//! Responses assembled the way the stream sends them: the first chunk from a
//! `DocumentHead`, then the messages of the tasks in the order they ended.

use columbo::{
    replacement_for, ColumboOptions, DocumentHead, Html, PanicPayload, Suspense, TaskOutcome,
};
use scraper::Selector;

fn collect(mut head: DocumentHead, messages: Vec<Html>) -> String {
    let mut out = String::new();
    while let Some(chunk) = head.take_first() {
        out.push_str(chunk.as_str());
    }
    for m in messages {
        out.push_str(m.as_str());
    }
    out
}

fn parse(html: &str) -> scraper::Html {
    scraper::Html::parse_document(html)
}

fn select<'a>(doc: &'a scraper::Html, css: &str) -> Vec<scraper::ElementRef<'a>> {
    let sel = Selector::parse(css).unwrap();
    doc.select(&sel).collect()
}

fn finished(id: usize, content: &str) -> Html {
    replacement_for(id, TaskOutcome::Completed(Html::new(content))).unwrap()
}

#[test]
fn suspend_and_stream() {
    let suspense = Suspense::new(0, Html::new("loading..."));
    let document = format!(
        "<!DOCTYPE html><html><body><div>{}</div></body></html>",
        suspense.to_string()
    );
    let output = collect(
        DocumentHead::new(Html::from(document), true),
        vec![finished(0, "<p>hello from strings</p>")],
    );
    let doc = parse(&output);

    let placeholders = select(&doc, "span[data-columbo-p-id]");
    assert_eq!(placeholders.len(), 1, "expected one placeholder");
    assert!(placeholders[0].text().any(|t| t.contains("loading...")));

    let replacements = select(&doc, "template[data-columbo-r-id]");
    assert_eq!(replacements.len(), 1, "expected one replacement");
    assert!(replacements[0].inner_html().contains("hello from strings"));
    assert!(!select(&doc, "script").is_empty(), "expected script tag");
}

#[test]
fn display_impl_renders_placeholder() {
    let suspense = Suspense::new(3, Html::new("my placeholder"));
    let rendered = suspense.to_string();
    let doc = parse(&rendered);

    let placeholders = select(&doc, "span[data-columbo-p-id]");
    assert_eq!(placeholders.len(), 1, "expected one placeholder");
    assert!(placeholders[0].text().any(|t| t.contains("my placeholder")));
}

#[test]
fn render_to_html_method() {
    let suspense = Suspense::new(5, Html::new("placeholder text"));
    let rendered = suspense.render_to_html().into_string();
    let doc = parse(&rendered);

    let placeholders = select(&doc, "span[data-columbo-p-id]");
    assert_eq!(placeholders.len(), 1, "expected one placeholder");
    assert_eq!(placeholders[0].value().attr("style"), Some("display: contents;"));
    assert!(placeholders[0].text().any(|t| t.contains("placeholder text")));
}

#[test]
fn ids_match_between_placeholder_and_replacement() {
    let suspense = Suspense::new(41, Html::new("wait"));
    assert_eq!(suspense.id(), 41);
    let document = suspense.to_string();
    let output = collect(
        DocumentHead::new(Html::from(document), true),
        vec![finished(41, "done")],
    );
    let doc = parse(&output);

    let placeholders = select(&doc, "span[data-columbo-p-id]");
    let replacements = select(&doc, "template[data-columbo-r-id]");
    assert_eq!(placeholders.len(), 1);
    assert_eq!(replacements.len(), 1);

    let p_id = placeholders[0].value().attr("data-columbo-p-id").unwrap();
    let r_id = replacements[0].value().attr("data-columbo-r-id").unwrap();
    assert_eq!(p_id, r_id, "placeholder and replacement IDs should match");
    assert_eq!(p_id, "41");
}

#[test]
fn global_script_injected_once() {
    let output = collect(
        DocumentHead::new(Html::new(""), true),
        vec![finished(0, "a"), finished(1, "b")],
    );
    let doc = parse(&output);
    let scripts = select(&doc, "script");
    assert_eq!(scripts.len(), 1, "global script should be injected exactly once");
}

#[test]
fn script_left_out_when_disabled() {
    let options: ColumboOptions<fn()> = ColumboOptions {
        include_script: Some(false),
        ..Default::default()
    };
    let output = collect(
        DocumentHead::new(Html::new("<p>page</p>"), options.script_enabled()),
        vec![finished(0, "a")],
    );
    assert!(select(&parse(&output), "script").is_empty());
}

#[test]
fn options_defaults() {
    let options: ColumboOptions<fn()> = ColumboOptions::default();
    assert!(options.panic_renderer.is_none());
    assert!(!options.auto_cancel_enabled());
    assert!(options.script_enabled());
    let on: ColumboOptions<fn()> = ColumboOptions { auto_cancel: Some(true), ..Default::default() };
    assert!(on.auto_cancel_enabled());
}

#[test]
fn no_suspensions() {
    let output = collect(DocumentHead::new(Html::new("<p>just a page</p>"), true), vec![]);
    let doc = parse(&output);

    let paragraphs = select(&doc, "p");
    assert!(!paragraphs.is_empty(), "expected a paragraph element");
    assert!(paragraphs[0].text().any(|t| t.contains("just a page")));
}

#[test]
fn first_chunk_is_document() {
    let mut head = DocumentHead::new(Html::new("<h1>First Chunk</h1>"), true);
    let first = head.take_first().unwrap();
    let doc = parse(first.as_str());
    let headings = select(&doc, "h1");
    assert!(
        !headings.is_empty() && headings[0].text().any(|t| t.contains("First Chunk")),
        "first chunk should be the document body"
    );
    assert!(first.as_str().starts_with("<h1>First Chunk</h1><script>"));
    assert!(head.take_first().is_none());
}

#[test]
fn many_concurrent_suspensions() {
    let messages: Vec<Html> = (0..20).map(|i| finished(i, &format!("item-{i}"))).collect();
    let output = collect(DocumentHead::new(Html::new(""), true), messages);
    let doc = parse(&output);

    let replacements = select(&doc, "template[data-columbo-r-id]");
    assert_eq!(replacements.len(), 20, "expected 20 replacements");
    let all_inner: String = replacements.iter().map(|el| el.inner_html()).collect();
    for i in 0..20 {
        assert!(all_inner.contains(&format!("item-{i}")), "missing item-{i} in output");
    }
}

#[test]
fn cancelled_task_sends_nothing() {
    assert!(replacement_for(9, TaskOutcome::Cancelled).is_none());
}

#[test]
fn default_panic_renderer() {
    let message = replacement_for(
        0,
        TaskOutcome::Panicked(PanicPayload::Text("something went wrong".to_string())),
    )
    .unwrap();
    let output = collect(DocumentHead::new(Html::new("body"), true), vec![message]);
    let doc = parse(&output);

    let replacements = select(&doc, "template[data-columbo-r-id]");
    assert!(!replacements.is_empty(), "expected replacement template");
    let inner: String = replacements.iter().map(|el| el.inner_html()).collect();
    assert!(inner.contains("Columbo Suspense Panic"), "expected default panic heading");
    assert!(inner.contains("something went wrong"));
}

#[test]
fn non_string_panic_payload() {
    let message = replacement_for(0, TaskOutcome::Panicked(PanicPayload::Opaque)).unwrap();
    let output = collect(DocumentHead::new(Html::new("body"), true), vec![message]);
    let doc = parse(&output);

    let replacements = select(&doc, "template[data-columbo-r-id]");
    let inner: String = replacements.iter().map(|el| el.inner_html()).collect();
    assert!(inner.contains("Columbo Suspense Panic"), "expected default panic heading");
    assert!(
        inner.contains("Box<dyn Any>") || inner.contains("Box&lt;dyn Any&gt;"),
        "expected non-string panic fallback message"
    );
}

#[test]
fn custom_panic_renderer() {
    let fallback = Html::new(r#"<div class="custom-error">custom error fallback</div>"#);
    let message = replacement_for(0, TaskOutcome::PanickedWithFallback(fallback)).unwrap();
    let output = collect(DocumentHead::new(Html::new("body"), true), vec![message]);
    let doc = parse(&output);

    let replacements = select(&doc, "template[data-columbo-r-id]");
    assert!(!replacements.is_empty(), "expected replacement template");
    let inner: String = replacements.iter().map(|el| el.inner_html()).collect();
    assert!(inner.contains("custom error fallback"), "expected custom error content");
    assert!(!inner.contains("Columbo Suspense Panic"), "should not contain default panic heading");
}

fn describe_opaque(_: u32) -> PanicPayload {
    PanicPayload::Opaque
}

fn render_custom(code: u32) -> Html {
    Html::from(format!("<p>custom fallback {code}</p>"))
}

#[test]
fn task_outcome_completed_keeps_content() {
    let options: ColumboOptions<fn(u32) -> Html> = ColumboOptions::default();
    let outcome = columbo::task_outcome(Ok(Html::new("<p>ok</p>")), &options, describe_opaque);
    let message = replacement_for(2, outcome).unwrap();
    assert_eq!(message.as_str(), r#"<template data-columbo-r-id="2"><p>ok</p></template>"#);
}

#[test]
fn task_outcome_uses_configured_renderer() {
    let options: ColumboOptions<fn(u32) -> Html> = ColumboOptions {
        panic_renderer: Some(render_custom),
        ..Default::default()
    };
    let outcome = columbo::task_outcome(Err(42u32), &options, describe_opaque);
    assert!(matches!(outcome, TaskOutcome::PanickedWithFallback(_)));
    let message = replacement_for(1, outcome).unwrap();
    assert_eq!(
        message.as_str(),
        r#"<template data-columbo-r-id="1"><p>custom fallback 42</p></template>"#
    );
}

#[test]
fn task_outcome_default_options_render_default_page() {
    let options: ColumboOptions<fn(u32) -> Html> = ColumboOptions::default();
    assert!(!options.auto_cancel_enabled());
    let outcome = columbo::task_outcome(Err(7u32), &options, describe_opaque);
    assert!(matches!(outcome, TaskOutcome::Panicked(PanicPayload::Opaque)));
    let message = replacement_for(0, outcome).unwrap();
    assert!(message.as_str().contains("Columbo Suspense Panic"));
    assert!(message.as_str().contains("Box&lt;dyn Any&gt;"));
}
