use columbo::Html;

#[test]
fn html_new_keeps_raw_text() {
    let html = Html::new("<p>a & b</p>");
    assert_eq!(html.as_str(), "<p>a & b</p>");
    assert_eq!(html.into_string(), "<p>a & b</p>".to_string());
}

#[test]
fn html_from_string_and_str() {
    let a = Html::from("<b>x</b>".to_string());
    let b = Html::from("<b>x</b>");
    assert_eq!(a.as_str(), b.as_str());
    assert_eq!(a.to_string(), "<b>x</b>");
}

#[test]
fn html_default_is_empty() {
    let html = Html::default();
    assert_eq!(html.as_str(), "");
}

#[test]
fn html_clone_keeps_text() {
    let html = Html::new("<i>c</i>");
    let copy = html.clone();
    assert_eq!(copy.as_str(), html.as_str());
}

#[test]
fn html_from_maud_markup_keeps_text() {
    let markup: maud::Markup = maud::PreEscaped("<p>loaded</p>".to_string());
    let html = Html::from(markup);
    assert_eq!(html.as_str(), "<p>loaded</p>");
}
