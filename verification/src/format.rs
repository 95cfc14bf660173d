use vstd::prelude::*;

use crate::decimal::{decimal, decimal_string, is_digit, lemma_decimal_injective, lemma_decimal_shape};
use crate::text::push_char;
use crate::html::Html;

verus! {

/// The script that moves each streamed `<template data-columbo-r-id="N">` into
/// the place of the `<span data-columbo-p-id="N">` that stands for it. It
/// watches the document, so templates that arrive in later chunks are swapped
/// in as soon as the browser parses them, nested placeholders included.
pub const GLOBAL_SCRIPT_CONTENTS: &'static str = r#"(function(){var d=document;function swap(t){var id=t.getAttribute("data-columbo-r-id");var p=d.querySelector('span[data-columbo-p-id="'+id+'"]');if(!p){return false;}p.replaceWith(t.content.cloneNode(true));t.remove();return true;}function run(){var ts=d.querySelectorAll("template[data-columbo-r-id]");for(var i=0;i<ts.length;i++){swap(ts[i]);}}new MutationObserver(run).observe(d.documentElement,{childList:true,subtree:true});run();})();"#;

/// The placeholder markup for the suspense with the given id: a `<span>` that
/// does not take part in layout and holds the placeholder content.
pub open spec fn placeholder_markup(id: nat, inner: Seq<char>) -> Seq<char> {
    "<span data-columbo-p-id=\""@ + decimal(id) + "\" style=\"display: contents;\">"@ + inner
        + "</span>"@
}

/// The replacement markup for the suspense with the given id: a `<template>`
/// that holds the content to swap in.
pub open spec fn replacement_markup(id: nat, inner: Seq<char>) -> Seq<char> {
    "<template data-columbo-r-id=\""@ + decimal(id) + "\">"@ + inner + "</template>"@
}

/// The markup of the global swapping script.
pub open spec fn global_script_markup() -> Seq<char> {
    "<script>"@ + GLOBAL_SCRIPT_CONTENTS@ + "</script>"@
}

/// A placeholder and a replacement pair up by their id attributes. Each
/// markup opens with its attribute name, the decimal id and a closing quote;
/// the id is written with digits only, so that quote ends the attribute value;
/// and the id texts of two suspenses are equal exactly when their ids are.
pub proof fn lemma_placeholder_pairs_with_replacement(
    placeholder_id: nat,
    placeholder: Seq<char>,
    replacement_id: nat,
    content: Seq<char>,
)
    ensures
        ("<span data-columbo-p-id=\""@ + decimal(placeholder_id) + "\""@).is_prefix_of(
            placeholder_markup(placeholder_id, placeholder),
        ),
        ("<template data-columbo-r-id=\""@ + decimal(replacement_id) + "\""@).is_prefix_of(
            replacement_markup(replacement_id, content),
        ),
        forall|k: int|
            0 <= k < decimal(placeholder_id).len() ==> is_digit(#[trigger] decimal(placeholder_id)[k])
                && decimal(placeholder_id)[k] != '"',
        decimal(placeholder_id) == decimal(replacement_id) <==> placeholder_id == replacement_id,
{
    reveal_strlit("\"");
    reveal_strlit("\" style=\"display: contents;\">");
    reveal_strlit("\">");
    lemma_decimal_shape(placeholder_id);
    if decimal(placeholder_id) == decimal(replacement_id) {
        lemma_decimal_injective(placeholder_id, replacement_id);
    }
    let p_open = "<span data-columbo-p-id=\""@ + decimal(placeholder_id);
    let p_rest = "\" style=\"display: contents;\">"@ + placeholder + "</span>"@;
    assert(placeholder_markup(placeholder_id, placeholder) =~= p_open + p_rest);
    assert((p_open + "\""@) =~= (p_open + p_rest).subrange(0, p_open.len() + 1int));
    let r_open = "<template data-columbo-r-id=\""@ + decimal(replacement_id);
    let r_rest = "\">"@ + content + "</template>"@;
    assert(replacement_markup(replacement_id, content) =~= r_open + r_rest);
    assert((r_open + "\""@) =~= (r_open + r_rest).subrange(0, r_open.len() + 1int));
}

/// A placeholder holds its content verbatim: after the opening tag
/// `<span data-columbo-p-id="N" style="display: contents;">` come exactly the
/// characters of the content, and then the closing `</span>`, which ends the
/// markup.
pub proof fn lemma_placeholder_holds_content_verbatim(id: nat, inner: Seq<char>)
    ensures
        ({
            let open = "<span data-columbo-p-id=\""@ + decimal(id)
                + "\" style=\"display: contents;\">"@;
            let markup = placeholder_markup(id, inner);
            &&& open.is_prefix_of(markup)
            &&& markup.len() == open.len() + inner.len() + "</span>"@.len()
            &&& markup.subrange(open.len() as int, (open.len() + inner.len()) as int) == inner
            &&& "</span>"@.is_suffix_of(markup)
        }),
{
    let open = "<span data-columbo-p-id=\""@ + decimal(id) + "\" style=\"display: contents;\">"@;
    let close = "</span>"@;
    let markup = placeholder_markup(id, inner);
    assert(markup =~= open + inner + close);
    assert(markup.subrange(0, open.len() as int) =~= open);
    assert(markup.subrange(open.len() as int, (open.len() + inner.len()) as int) =~= inner);
    assert(markup.subrange(markup.len() - close.len(), markup.len() as int) =~= close);
}

/// A replacement holds its content verbatim: after the opening tag
/// `<template data-columbo-r-id="N">` come exactly the characters of the
/// content, and then the closing `</template>`, which ends the markup.
pub proof fn lemma_replacement_holds_content_verbatim(id: nat, inner: Seq<char>)
    ensures
        ({
            let open = "<template data-columbo-r-id=\""@ + decimal(id) + "\">"@;
            let markup = replacement_markup(id, inner);
            &&& open.is_prefix_of(markup)
            &&& markup.len() == open.len() + inner.len() + "</template>"@.len()
            &&& markup.subrange(open.len() as int, (open.len() + inner.len()) as int) == inner
            &&& "</template>"@.is_suffix_of(markup)
        }),
{
    let open = "<template data-columbo-r-id=\""@ + decimal(id) + "\">"@;
    let close = "</template>"@;
    let markup = replacement_markup(id, inner);
    assert(markup =~= open + inner + close);
    assert(markup.subrange(0, open.len() as int) =~= open);
    assert(markup.subrange(open.len() as int, (open.len() + inner.len()) as int) =~= inner);
    assert(markup.subrange(markup.len() - close.len(), markup.len() as int) =~= close);
}

/// The script element holds the whole swapping script verbatim between its
/// `<script>` and `</script>` tags.
pub proof fn lemma_script_holds_contents_verbatim()
    ensures
        ({
            let markup = global_script_markup();
            let open = "<script>"@;
            let body = GLOBAL_SCRIPT_CONTENTS@;
            &&& open.is_prefix_of(markup)
            &&& markup.len() == open.len() + body.len() + "</script>"@.len()
            &&& markup.subrange(open.len() as int, (open.len() + body.len()) as int) == body
            &&& "</script>"@.is_suffix_of(markup)
        }),
{
    let open = "<script>"@;
    let body = GLOBAL_SCRIPT_CONTENTS@;
    let close = "</script>"@;
    let markup = global_script_markup();
    assert(markup =~= open + body + close);
    assert(markup.subrange(0, open.len() as int) =~= open);
    assert(markup.subrange(open.len() as int, (open.len() + body.len()) as int) =~= body);
    assert(markup.subrange(markup.len() - close.len(), markup.len() as int) =~= close);
}

/// Renders the placeholder of the suspense `id` around `inner`.
pub fn render_placeholder(id: &usize, inner: &Html) -> (html: Html)
    ensures
        html@ == placeholder_markup(*id as nat, inner@),
{
    let mut s = String::new();
    s.append("<span data-columbo-p-id=\"");
    let digits = decimal_string(*id);
    s.append(digits.as_str());
    s.append("\" style=\"display: contents;\">");
    s.append(inner.as_str());
    s.append("</span>");
    Html::from(s)
}

/// Renders the replacement template of the suspense `id` around `inner`.
pub fn render_replacement(id: &usize, inner: &Html) -> (html: Html)
    ensures
        html@ == replacement_markup(*id as nat, inner@),
{
    let mut s = String::new();
    s.append("<template data-columbo-r-id=\"");
    let digits = decimal_string(*id);
    s.append(digits.as_str());
    s.append("\">");
    s.append(inner.as_str());
    s.append("</template>");
    Html::from(s)
}

/// Renders the global swapping script inside a `<script>` element.
pub fn render_global_script() -> (html: Html)
    ensures
        html@ == global_script_markup(),
{
    let mut s = String::new();
    s.append("<script>");
    s.append(GLOBAL_SCRIPT_CONTENTS);
    s.append("</script>");
    Html::from(s)
}

/// What a panicking suspended task left behind: its message where it panicked
/// with a string, and nothing readable otherwise.
pub enum PanicPayload {
    /// The task panicked with a `&str` or a `String`.
    Text(String),
    /// The task panicked with a value of any other type.
    Opaque,
}

/// The text of a character once escaped for HTML.
pub open spec fn escape_char(c: char) -> Seq<char> {
    if c == '&' {
        "&amp;"@
    } else if c == '<' {
        "&lt;"@
    } else if c == '>' {
        "&gt;"@
    } else if c == '"' {
        "&quot;"@
    } else {
        seq![c]
    }
}

/// `s` with `&`, `<`, `>` and `"` replaced by their character references.
pub open spec fn escaped(s: Seq<char>) -> Seq<char>
    decreases s.len(),
{
    if s.len() == 0 {
        Seq::empty()
    } else {
        escaped(s.drop_last()) + escape_char(s.last())
    }
}

/// Escaped text holds no `<`, `>` or `"`: it can neither open nor close a
/// tag, nor end an attribute value.
pub proof fn lemma_escaped_is_inert(s: Seq<char>)
    ensures
        forall|k: int|
            0 <= k < escaped(s).len() ==> #[trigger] escaped(s)[k] != '<' && escaped(s)[k] != '>'
                && escaped(s)[k] != '"',
    decreases s.len(),
{
    reveal_strlit("&amp;");
    reveal_strlit("&lt;");
    reveal_strlit("&gt;");
    reveal_strlit("&quot;");
    if s.len() > 0 {
        lemma_escaped_is_inert(s.drop_last());
        let front = escaped(s.drop_last());
        let back = escape_char(s.last());
        assert forall|k: int| 0 <= k < escaped(s).len() implies #[trigger] escaped(s)[k] != '<'
            && escaped(s)[k] != '>' && escaped(s)[k] != '"' by {
            if k >= front.len() {
                assert(escaped(s)[k] == back[k - front.len()]);
            } else {
                assert(escaped(s)[k] == front[k]);
            }
        }
    }
}

/// Escaping works character by character: the escape of a concatenation is
/// the concatenation of the escapes.
pub proof fn lemma_escaped_concat(a: Seq<char>, b: Seq<char>)
    ensures
        escaped(a + b) == escaped(a) + escaped(b),
    decreases b.len(),
{
    if b.len() == 0 {
        assert(a + b =~= a);
        assert(escaped(a) + escaped(b) =~= escaped(a));
    } else {
        lemma_escaped_concat(a, b.drop_last());
        assert((a + b).drop_last() =~= a + b.drop_last());
        assert((a + b).last() == b.last());
        assert(escaped(a + b) =~= escaped(a) + escaped(b));
    }
}

/// Whether one of the four character references that escaping writes
/// starts at the front of `t`.
pub open spec fn starts_with_reference(t: Seq<char>) -> bool {
    ||| "&amp;"@.is_prefix_of(t)
    ||| "&lt;"@.is_prefix_of(t)
    ||| "&gt;"@.is_prefix_of(t)
    ||| "&quot;"@.is_prefix_of(t)
}

/// Reads escaped text back from left to right: each of the four character
/// references becomes its character again, and every other character stays.
pub open spec fn unescaped(t: Seq<char>) -> Seq<char>
    decreases t.len(),
{
    proof {
        reveal_strlit("&amp;");
        reveal_strlit("&lt;");
        reveal_strlit("&gt;");
        reveal_strlit("&quot;");
    }
    if t.len() == 0 {
        Seq::empty()
    } else if "&amp;"@.is_prefix_of(t) {
        seq!['&'] + unescaped(t.skip(5))
    } else if "&lt;"@.is_prefix_of(t) {
        seq!['<'] + unescaped(t.skip(4))
    } else if "&gt;"@.is_prefix_of(t) {
        seq!['>'] + unescaped(t.skip(4))
    } else if "&quot;"@.is_prefix_of(t) {
        seq!['"'] + unescaped(t.skip(6))
    } else {
        seq![t[0]] + unescaped(t.skip(1))
    }
}

/// Escaping a text is escaping its first character, then the rest.
proof fn lemma_escaped_front(s: Seq<char>)
    requires
        s.len() > 0,
    ensures
        escaped(s) == escape_char(s[0]) + escaped(s.skip(1)),
{
    let head = seq![s[0]];
    assert(head + s.skip(1) =~= s);
    lemma_escaped_concat(head, s.skip(1));
    assert(head.drop_last() =~= Seq::<char>::empty());
    assert(head.last() == s[0]);
    assert(escaped(Seq::<char>::empty()) =~= Seq::<char>::empty());
    assert(escaped(head.drop_last()) =~= Seq::<char>::empty());
    assert(escaped(head) =~= escape_char(s[0]));
}

/// Every `&` in escaped text begins one of the four character references.
pub proof fn lemma_escaped_ampersands_start_references(s: Seq<char>)
    ensures
        forall|k: int|
            0 <= k < escaped(s).len() && #[trigger] escaped(s)[k] == '&' ==> starts_with_reference(
                escaped(s).skip(k),
            ),
    decreases s.len(),
{
    reveal_strlit("&amp;");
    reveal_strlit("&lt;");
    reveal_strlit("&gt;");
    reveal_strlit("&quot;");
    if s.len() > 0 {
        lemma_escaped_front(s);
        lemma_escaped_ampersands_start_references(s.skip(1));
        let head = escape_char(s[0]);
        let rest = escaped(s.skip(1));
        let t = escaped(s);
        assert forall|k: int| 0 <= k < t.len() && #[trigger] t[k] == '&' implies starts_with_reference(
            t.skip(k),
        ) by {
            if k < head.len() {
                assert(t[k] == head[k]);
                assert(k == 0);
                assert(t.skip(0) =~= t);
                assert(head.is_prefix_of(t)) by {
                    assert(t.subrange(0, head.len() as int) =~= head);
                }
            } else {
                let j = k - head.len();
                assert(t[k] == rest[j]);
                assert(t.skip(k) =~= rest.skip(j));
            }
        }
    }
}

/// Reading escaped text back gives the text that was escaped.
pub proof fn lemma_unescaped_escaped(s: Seq<char>)
    ensures
        unescaped(escaped(s)) == s,
    decreases s.len(),
{
    reveal_strlit("&amp;");
    reveal_strlit("&lt;");
    reveal_strlit("&gt;");
    reveal_strlit("&quot;");
    if s.len() == 0 {
        assert(escaped(s) =~= Seq::<char>::empty());
    } else {
        lemma_escaped_front(s);
        lemma_unescaped_escaped(s.skip(1));
        let c = s[0];
        let head = escape_char(c);
        let rest = escaped(s.skip(1));
        let t = head + rest;
        assert(t.len() > 0);
        assert(t.skip(head.len() as int) =~= rest);
        assert(head.is_prefix_of(t)) by {
            assert(t.subrange(0, head.len() as int) =~= head);
        }
        if c == '&' {
            assert(unescaped(t) == seq!['&'] + unescaped(rest));
        } else if c == '<' {
            assert(!"&amp;"@.is_prefix_of(t)) by {
                assert(t[1] == 'l');
            }
            assert(unescaped(t) == seq!['<'] + unescaped(rest));
        } else if c == '>' {
            assert(!"&amp;"@.is_prefix_of(t)) by {
                assert(t[1] == 'g');
            }
            assert(!"&lt;"@.is_prefix_of(t)) by {
                assert(t[1] == 'g');
            }
            assert(unescaped(t) == seq!['>'] + unescaped(rest));
        } else if c == '"' {
            assert(!"&amp;"@.is_prefix_of(t)) by {
                assert(t[1] == 'q');
            }
            assert(!"&lt;"@.is_prefix_of(t)) by {
                assert(t[1] == 'q');
            }
            assert(!"&gt;"@.is_prefix_of(t)) by {
                assert(t[1] == 'q');
            }
            assert(unescaped(t) == seq!['"'] + unescaped(rest));
        } else {
            assert(t[0] == c);
            assert(!starts_with_reference(t)) by {
                assert(t[0] != '&');
            }
            assert(unescaped(t) == seq![c] + unescaped(rest));
        }
        assert(seq![c] + s.skip(1) =~= s);
    }
}

/// Text without `&`, `<`, `>` and `"` is left as it is by escaping.
pub proof fn lemma_escaped_plain_text(s: Seq<char>)
    requires
        forall|k: int|
            0 <= k < s.len() ==> #[trigger] s[k] != '&' && s[k] != '<' && s[k] != '>' && s[k] != '"',
    ensures
        escaped(s) == s,
    decreases s.len(),
{
    if s.len() > 0 {
        let front = s.drop_last();
        assert forall|k: int| 0 <= k < front.len() implies #[trigger] front[k] != '&' && front[k]
            != '<' && front[k] != '>' && front[k] != '"' by {
            assert(front[k] == s[k]);
        }
        lemma_escaped_plain_text(front);
        assert(s.last() == s[s.len() - 1]);
        assert(escaped(s) =~= front.push(s.last()));
        assert(front.push(s.last()) =~= s);
    }
}

/// The message shown for a panic payload.
pub open spec fn panic_message(payload: PanicPayload) -> Seq<char> {
    match payload {
        PanicPayload::Text(s) => s@,
        PanicPayload::Opaque => "Box<dyn Any>"@,
    }
}

/// The page shown in place of a suspended result whose task panicked.
pub open spec fn panic_page(error: Seq<char>) -> Seq<char> {
    PANIC_PAGE_HEAD@ + escaped(error) + PANIC_PAGE_TAIL@
}

/// The markup before the escaped error message on the panic page.
pub const PANIC_PAGE_HEAD: &'static str = r#"<div style="font-family: monospace; padding: 20px; background: #ffe6e6; color: #000; border: 2px solid #c00;">\
<h1 style="color: #c00; font-size: 18px; margin: 0 0 10px 0;">Columbo Suspense Panic</h1>\
<p style="margin: 10px 0;">Columbo could not swap in a suspended response because the suspended future panicked.</p>\
<h2 style="font-size: 16px; margin: 20px 0 10px 0;">Error:</h2>\
<pre style="background: #f5f5f5; padding: 10px; overflow: auto; border: 1px solid #ccc; font-size: 12px;">"#;

/// The markup after the escaped error message on the panic page.
pub const PANIC_PAGE_TAIL: &'static str = r#"</pre>\
</div>"#;

/// The panic page holds the whole error message: between the fixed head and
/// tail of the page stands text that reads back, unescaped, as the message,
/// whatever its length; and that text holds no `<`, `>` or `"`, so the message
/// cannot leave the `<pre>` block.
pub proof fn lemma_panic_page_holds_whole_message(error: Seq<char>)
    ensures
        ({
            let page = panic_page(error);
            let head = PANIC_PAGE_HEAD@;
            let tail = PANIC_PAGE_TAIL@;
            let shown = page.subrange(head.len() as int, page.len() - tail.len());
            &&& head.is_prefix_of(page)
            &&& tail.is_suffix_of(page)
            &&& page.len() >= head.len() + tail.len()
            &&& unescaped(shown) == error
            &&& forall|k: int|
                0 <= k < shown.len() ==> #[trigger] shown[k] != '<' && shown[k] != '>' && shown[k]
                    != '"'
        }),
{
    let page = panic_page(error);
    let head = PANIC_PAGE_HEAD@;
    let tail = PANIC_PAGE_TAIL@;
    let body = escaped(error);
    assert(page =~= head + body + tail);
    assert(page.subrange(0, head.len() as int) =~= head);
    assert(page.subrange(page.len() - tail.len(), page.len() as int) =~= tail);
    let shown = page.subrange(head.len() as int, page.len() - tail.len());
    assert(shown =~= body);
    lemma_unescaped_escaped(error);
    lemma_escaped_is_inert(error);
}

/// The message of a payload is the text it panicked with, and the fixed
/// `Box<dyn Any>` for any other panic object.
pub proof fn lemma_panic_message_is_panic_text(text: String)
    ensures
        panic_message(PanicPayload::Text(text)) == text@,
        panic_message(PanicPayload::Opaque) == "Box<dyn Any>"@,
{
}

/// Escapes `&`, `<`, `>` and `"` so that the text can stand inside HTML.
pub fn html_escape(s: &str) -> (out: String)
    ensures
        out@ == escaped(s@),
{
    broadcast use vstd::string::group_string_axioms;
    let mut out = String::new();
    for c in it: s.chars()
        invariant
            it.seq() == s@,
            out@ == escaped(s@.take(it.index() as int)),
    {
        assert(s@.take(it.index() + 1).drop_last() =~= s@.take(it.index() as int));
        if c == '&' {
            out.append("&amp;");
        } else if c == '<' {
            out.append("&lt;");
        } else if c == '>' {
            out.append("&gt;");
        } else if c == '"' {
            out.append("&quot;");
        } else {
            push_char(&mut out, c);
        }
    }
    assert(s@.take(s@.len() as int) =~= s@);
    out
}

/// The message of a panic payload: the panic string itself, or
/// `Box<dyn Any>` when the task panicked with another type.
pub fn panic_payload_to_string(payload: &PanicPayload) -> (s: String)
    ensures
        s@ == panic_message(*payload),
{
    match payload {
        PanicPayload::Text(text) => text.clone(),
        PanicPayload::Opaque => "Box<dyn Any>".to_owned(),
    }
}

/// Renders the panic page around the escaped error message.
pub fn render_panic(error: &str) -> (html: Html)
    ensures
        html@ == panic_page(error@),
{
    let escaped_error = html_escape(error);
    let mut s = String::new();
    s.append(PANIC_PAGE_HEAD);
    s.append(escaped_error.as_str());
    s.append(PANIC_PAGE_TAIL);
    Html::from(s)
}

/// Renders the panic page for a payload; used where no custom panic renderer
/// was configured.
pub fn default_panic_renderer(payload: PanicPayload) -> (html: Html)
    ensures
        html@ == panic_page(panic_message(payload)),
{
    let error = panic_payload_to_string(&payload);
    render_panic(error.as_str())
}

} // verus!
