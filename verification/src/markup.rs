use vstd::prelude::*;

use crate::html::Html;

verus! {

/// maud's `PreEscaped<T>`, whose `PreEscaped<String>` is the `Markup` that
/// maud's `html!` produces.
#[verifier::external_type_specification]
#[verifier::external_body]
#[verifier::reject_recursive_types(T)]
pub struct ExPreEscaped<T>(maud::PreEscaped<T>);

/// The text that maud's `PreEscaped::<String>::into_string` hands back for a
/// piece of markup: the string that the markup wraps.
pub uninterp spec fn markup_text(markup: maud::Markup) -> Seq<char>;

/// Calls maud's `PreEscaped::<String>::into_string`, which hands back the
/// markup text that the value holds; its result depends on the markup alone,
/// and is named `markup_text`.
#[verifier::external_body]
fn markup_into_string(markup: maud::Markup) -> (s: String)
    ensures
        s@ == markup_text(markup),
{
    markup.into_string()
}

impl From<maud::Markup> for Html {
    /// Takes over the text of maud markup, which maud has already escaped.
    fn from(markup: maud::Markup) -> (html: Html)
        ensures
            html@ == markup_text(markup),
    {
        Html::from(markup_into_string(markup))
    }
}

impl vstd::std_specs::convert::FromSpecImpl<maud::Markup> for Html {
    /// The result is stated by the `ensures` of `from` itself, over
    /// `markup_text`: a spec function cannot build the `String` it holds.
    open spec fn obeys_from_spec() -> bool {
        false
    }

    open spec fn from_spec(markup: maud::Markup) -> Html {
        arbitrary()
    }
}

} // verus!
